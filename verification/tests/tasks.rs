use canfd_driver::clock::{ClockConfig, ClockSource};
use canfd_driver::config::ControllerConfig;
use canfd_driver::controller::{Controller, InterruptBinding, Peripheral, Pin};
use canfd_driver::frame::{FrameError, FrameFormat, RxFrameHeader, TxFrameHeader};
use canfd_driver::mode::InternalLoopback;
use canfd_driver::task::{Observation, ReceiveTask, TransmitOutcome, TransmitTask};
use canfd_driver::timing::BitTimingCalculator;
use canfd_driver::transceiver::{
    Delivery, FrameSource, ReceiveHandle, RxError, TransmitHandle, Transmission, TxError,
};

fn standard(id: u32, length: u8) -> TxFrameHeader {
    TxFrameHeader { length, format: FrameFormat::Standard, id, bit_rate_switching: false, marker: None }
}

fn looped(
    index: u8,
    bit_rate: u32,
) -> (TransmitHandle<InternalLoopback>, ReceiveHandle<InternalLoopback>) {
    let clock = ClockConfig {
        source: ClockSource::External,
        frequency_hz: 25_000_000,
        pll_prediv: 2,
        pll_mul: 12,
        pll_div: 3,
    };
    let timing = BitTimingCalculator::for_clock(&clock).unwrap().nominal(bit_rate, None).unwrap();
    let mut controller = Controller::new(
        Peripheral { index },
        Pin { port: 'H', number: 14 },
        Pin { port: 'H', number: 13 },
        InterruptBinding { line0: 19, line1: 21 },
    );
    let config = ControllerConfig::default().set_nominal_bit_timing(timing);
    assert_eq!(config.apply(&mut controller), Ok(()));
    controller.into_internal_loopback_mode().split()
}

#[test]
fn transmit_task_rejects_what_is_no_frame() {
    assert_eq!(
        TransmitTask::new(standard(0x123, 8), &[1, 2, 3, 4], 250).err(),
        Some(FrameError::LengthMismatch)
    );
    assert_eq!(
        TransmitTask::new(standard(0x800, 4), &[1, 2, 3, 4], 250).err(),
        Some(FrameError::InvalidId)
    );
}

#[test]
fn transmit_task_sends_and_asks_for_the_pause() {
    let (mut tx, _rx) = looped(1, 1_000_000);
    let mut task = TransmitTask::new(standard(0x123, 8), &[1, 2, 3, 4, 5, 6, 7, 8], 250).unwrap();
    assert_eq!(task.period_ms(), 250);
    assert_eq!(task.frame().header(), standard(0x123, 8));
    assert_eq!(task.poll(&mut tx), TransmitOutcome { result: Ok(()), sleep_ms: 250 });
    assert_eq!(tx.pending(), 1);
    assert_eq!((task.sent(), task.refused()), (1, 0));
}

#[test]
fn transmit_task_goes_on_after_a_full_mailbox() {
    let (mut tx, _rx) = looped(1, 1_000_000);
    let mut task = TransmitTask::new(standard(0x123, 1), &[7], 250).unwrap();
    for _ in 0..3 {
        assert_eq!(task.poll(&mut tx).result, Ok(()));
    }
    assert_eq!(
        task.poll(&mut tx),
        TransmitOutcome { result: Err(TxError::QueueFull), sleep_ms: 250 }
    );
    assert_eq!((task.sent(), task.refused()), (3, 1));
    assert!(tx.next_transmission().is_some());
    assert_eq!(task.poll(&mut tx).result, Ok(()));
    assert_eq!((task.sent(), task.refused()), (4, 1));
}

#[test]
fn receive_task_counts_frames_and_faults() {
    let (mut tx, mut rx) = looped(1, 1_000_000);
    let mut sender = TransmitTask::new(standard(0x123, 2), &[5, 6], 250).unwrap();
    let mut task = ReceiveTask::new();
    assert_eq!(task.poll(&mut rx), Observation::Nothing);
    assert_eq!(task, ReceiveTask { frames: 0, faults: 0 });
    sender.poll(&mut tx);
    let out = tx.next_transmission().unwrap();
    assert_eq!(rx.on_frame(FrameSource::Loopback(out.origin), &out.element), Delivery::Queued);
    rx.on_bus_error();
    assert_eq!(task.poll(&mut rx), Observation::Fault(RxError::BusError));
    assert_eq!(
        task.poll(&mut rx),
        Observation::Frame {
            header: RxFrameHeader {
                length: 2,
                format: FrameFormat::Standard,
                id: 0x123,
                bit_rate_switching: false,
            },
            payload: vec![5, 6],
        }
    );
    assert_eq!(task.poll(&mut rx), Observation::Nothing);
    assert_eq!(task, ReceiveTask { frames: 1, faults: 1 });
}

#[test]
fn receive_task_counts_stop_at_the_largest_value() {
    let (_tx, mut rx) = looped(1, 1_000_000);
    let mut task = ReceiveTask { frames: 3, faults: u64::MAX };
    rx.on_bus_error();
    assert_eq!(task.poll(&mut rx), Observation::Fault(RxError::BusError));
    assert_eq!(task, ReceiveTask { frames: 3, faults: u64::MAX });
}

fn deliver(
    sent: &Transmission,
    bus: &mut Vec<Transmission>,
    receivers: &mut [&mut ReceiveHandle<InternalLoopback>],
) {
    for rx in receivers.iter_mut() {
        if sent.loops_back {
            rx.on_frame(FrameSource::Loopback(sent.origin), &sent.element);
        }
        if sent.to_bus && rx.peripheral() != sent.origin {
            rx.on_frame(FrameSource::Bus, &sent.element);
        }
    }
    if sent.to_bus {
        bus.push(Transmission {
            element: sent.element.clone(),
            flexible: sent.flexible,
            origin: sent.origin,
            to_bus: sent.to_bus,
            loops_back: sent.loops_back,
        });
    }
}

#[test]
fn two_controllers_in_internal_loopback_see_only_their_own_frames() {
    let (mut tx_a, mut rx_a) = looped(1, 1_000_000);
    let (mut tx_b, mut rx_b) = looped(2, 500_000);
    assert_ne!(tx_a.config(), tx_b.config());
    let mut send_a =
        TransmitTask::new(standard(0x123, 8), &[1, 2, 3, 4, 5, 6, 7, 8], 250).unwrap();
    let mut send_b =
        TransmitTask::new(standard(0x124, 8), &[8, 7, 6, 5, 4, 3, 2, 1], 250).unwrap();
    let mut receive_a = ReceiveTask::new();
    let mut receive_b = ReceiveTask::new();
    let mut bus: Vec<Transmission> = Vec::new();
    let mut seen_a: Vec<(u32, Vec<u8>)> = Vec::new();
    let mut seen_b: Vec<(u32, Vec<u8>)> = Vec::new();
    let turns: u64 = 40;
    for _ in 0..turns {
        assert_eq!(send_a.poll(&mut tx_a), TransmitOutcome { result: Ok(()), sleep_ms: 250 });
        assert_eq!(send_b.poll(&mut tx_b), TransmitOutcome { result: Ok(()), sleep_ms: 250 });
        while let Some(sent) = tx_a.next_transmission() {
            deliver(&sent, &mut bus, &mut [&mut rx_a, &mut rx_b]);
        }
        while let Some(sent) = tx_b.next_transmission() {
            deliver(&sent, &mut bus, &mut [&mut rx_a, &mut rx_b]);
        }
        loop {
            match receive_a.poll(&mut rx_a) {
                Observation::Frame { header, payload } => seen_a.push((header.id, payload)),
                Observation::Nothing => break,
                Observation::Fault(fault) => panic!("controller 1 reported {:?}", fault),
            }
        }
        loop {
            match receive_b.poll(&mut rx_b) {
                Observation::Frame { header, payload } => seen_b.push((header.id, payload)),
                Observation::Nothing => break,
                Observation::Fault(fault) => panic!("controller 2 reported {:?}", fault),
            }
        }
    }
    assert!(bus.is_empty());
    assert_eq!(seen_a, vec![(0x123, vec![1, 2, 3, 4, 5, 6, 7, 8]); turns as usize]);
    assert_eq!(seen_b, vec![(0x124, vec![8, 7, 6, 5, 4, 3, 2, 1]); turns as usize]);
    assert_eq!((send_a.sent(), send_b.sent()), (turns, turns));
    assert_eq!(receive_a, ReceiveTask { frames: turns, faults: 0 });
    assert_eq!(receive_b, ReceiveTask { frames: turns, faults: 0 });
}

#[test]
fn slow_receiver_loses_frames_and_is_told() {
    let (mut tx, mut rx) = looped(1, 1_000_000);
    let mut sender = TransmitTask::new(standard(0x123, 1), &[1], 250).unwrap();
    let mut receiver = ReceiveTask::new();
    for _ in 0..5 {
        sender.poll(&mut tx);
        let out = tx.next_transmission().unwrap();
        rx.on_frame(FrameSource::Loopback(out.origin), &out.element);
    }
    assert_eq!(receiver.poll(&mut rx), Observation::Fault(RxError::Overrun));
    for _ in 0..3 {
        assert!(matches!(receiver.poll(&mut rx), Observation::Frame { .. }));
    }
    assert_eq!(receiver.poll(&mut rx), Observation::Nothing);
    assert_eq!(receiver, ReceiveTask { frames: 3, faults: 1 });
}
