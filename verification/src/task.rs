//! The bodies of the two loops that keep a controller busy.
//!
//! A transmit task sends one frame again and again, with a pause between;
//! a receive task takes whatever arrives. Each `poll` is one turn of the
//! loop: it works on the handle and says what the loop has to do before the
//! next turn. Waiting itself (for the pause to pass, for an interrupt) is
//! left to the executor that runs the loop.
//!
//! A fault does not end a task. It is counted and reported, and the next
//! turn goes on as if nothing had happened.

use vstd::prelude::*;
use vstd::slice::slice_to_vec;
use crate::frame::{
    decode_spec,
    FrameError,
    RxFrameHeader,
    RxFrameModel,
    TxFrame,
    TxFrameHeader,
    TxFrameModel,
};
use crate::mode::{Operational, Transmitting};
use crate::transceiver::{ReceiveHandle, RxError, TransmitHandle, TxError};

verus! {

/// A count raised by one, unless it has reached the largest value.
pub open spec fn bumped(count: u64) -> u64 {
    if count < u64::MAX {
        (count + 1) as u64
    } else {
        count
    }
}

fn bump(count: u64) -> (next: u64)
    ensures
        next == bumped(count),
{
    if count < u64::MAX {
        count + 1
    } else {
        count
    }
}

/// What a transmit task holds.
pub struct TransmitTaskModel {
    /// The frame it sends.
    pub frame: TxFrameModel,
    /// The pause between two sends, in milliseconds.
    pub period_ms: u32,
    /// How often the mailbox took the frame.
    pub sent: u64,
    /// How often the mailbox was full.
    pub refused: u64,
}

/// One turn of a transmit task.
#[derive(Clone, Copy, Debug, PartialEq, Eq)]
pub struct TransmitOutcome {
    /// What the mailbox said to the frame.
    pub result: Result<(), TxError>,
    /// How long to pause before the next turn, in milliseconds.
    pub sleep_ms: u32,
}

/// Sends one frame periodically.
#[derive(Debug, PartialEq, Eq)]
pub struct TransmitTask {
    frame: TxFrame,
    period_ms: u32,
    sent: u64,
    refused: u64,
}

impl View for TransmitTask {
    type V = TransmitTaskModel;

    closed spec fn view(&self) -> TransmitTaskModel {
        TransmitTaskModel {
            frame: self.frame@,
            period_ms: self.period_ms,
            sent: self.sent,
            refused: self.refused,
        }
    }
}

impl TransmitTask {
    /// A task that sends the frame made of `header` and `payload` every
    /// `period_ms` milliseconds. Fails as `TxFrame::new` does.
    pub fn new(header: TxFrameHeader, payload: &[u8], period_ms: u32) -> (r: Result<
        TransmitTask,
        FrameError,
    >)
        ensures
            match r {
                Ok(task) => {
                    &&& task@ == (TransmitTaskModel {
                        frame: TxFrameModel { header, payload: payload@ },
                        period_ms,
                        sent: 0,
                        refused: 0,
                    })
                    &&& task@.frame.refusal() is None
                },
                Err(e) => (TxFrameModel { header, payload: payload@ }).refusal() == Some(e),
            },
    {
        match TxFrame::new(header, payload) {
            Ok(frame) => Ok(TransmitTask { frame, period_ms, sent: 0, refused: 0 }),
            Err(e) => Err(e),
        }
    }

    /// The frame the task sends.
    pub fn frame(&self) -> (frame: &TxFrame)
        ensures
            frame@ == self@.frame,
    {
        &self.frame
    }

    /// The pause between two sends, in milliseconds.
    pub fn period_ms(&self) -> (period: u32)
        ensures
            period == self@.period_ms,
    {
        self.period_ms
    }

    /// How often the mailbox took the frame.
    pub fn sent(&self) -> (count: u64)
        ensures
            count == self@.sent,
    {
        self.sent
    }

    /// How often the mailbox was full.
    pub fn refused(&self) -> (count: u64)
        ensures
            count == self@.refused,
    {
        self.refused
    }

    /// One turn: sends the frame through `tx`, counts the outcome and asks
    /// for the pause. A full mailbox costs this turn's frame, no more.
    pub fn poll<M: Transmitting>(&mut self, tx: &mut TransmitHandle<M>) -> (outcome:
        TransmitOutcome)
        ensures
            final(tx)@ == old(tx)@.after_send(old(self)@.frame),
            outcome.sleep_ms == old(self)@.period_ms,
            outcome.result is Ok <==> !old(tx)@.full(),
            outcome.result is Err ==> outcome.result == Err::<(), TxError>(TxError::QueueFull),
            final(self)@ == (if old(tx)@.full() {
                TransmitTaskModel { refused: bumped(old(self)@.refused), ..old(self)@ }
            } else {
                TransmitTaskModel { sent: bumped(old(self)@.sent), ..old(self)@ }
            }),
    {
        let result = tx.send(self.frame.clone());
        match result {
            Ok(()) => {
                self.sent = bump(self.sent);
            },
            Err(_) => {
                self.refused = bump(self.refused);
            },
        }
        TransmitOutcome { result, sleep_ms: self.period_ms }
    }
}

/// What one turn of a receive task saw.
#[derive(Debug, PartialEq, Eq)]
pub enum Observation {
    /// Nothing has arrived: the task may sleep until the next interrupt.
    Nothing,
    /// A frame, with a copy of its payload.
    Frame { header: RxFrameHeader, payload: Vec<u8> },
    /// A fault that the hardware reported.
    Fault(RxError),
}

/// Takes what arrives and keeps count.
#[derive(Clone, Copy, Debug, PartialEq, Eq, Structural)]
pub struct ReceiveTask {
    /// Frames seen so far.
    pub frames: u64,
    /// Faults seen so far.
    pub faults: u64,
}

impl ReceiveTask {
    /// A task that has seen nothing yet.
    pub fn new() -> (task: ReceiveTask)
        ensures
            task == (ReceiveTask { frames: 0, faults: 0 }),
    {
        ReceiveTask { frames: 0, faults: 0 }
    }

    /// One turn: asks `rx` for what has come, counts it and passes it on.
    pub fn poll<M: Operational>(&mut self, rx: &mut ReceiveHandle<M>) -> (seen: Observation)
        ensures
            final(rx)@ == old(rx)@.after_receive(),
            match old(rx)@.fault() {
                Some(fault) => {
                    &&& seen matches Observation::Fault(e)
                    &&& e == fault
                    &&& *final(self) == (ReceiveTask {
                        faults: bumped(old(self).faults),
                        ..*old(self)
                    })
                },
                None => if old(rx)@.queued.len() == 0 {
                    &&& seen matches Observation::Nothing
                    &&& *final(self) == *old(self)
                } else {
                    &&& seen matches Observation::Frame { header, payload }
                    &&& decode_spec(old(rx)@.queued[0]) == Ok::<RxFrameModel, FrameError>(
                        RxFrameModel { header, payload: payload@ },
                    )
                    &&& *final(self) == (ReceiveTask {
                        frames: bumped(old(self).frames),
                        ..*old(self)
                    })
                },
            },
    {
        match rx.receive() {
            Err(e) => {
                self.faults = bump(self.faults);
                Observation::Fault(e)
            },
            Ok(None) => Observation::Nothing,
            Ok(Some(frame)) => {
                self.frames = bump(self.frames);
                Observation::Frame { header: frame.header(), payload: slice_to_vec(frame.payload()) }
            },
        }
    }
}

} // verus!
