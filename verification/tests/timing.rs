use canfd_driver::clock::{ClockConfig, ClockSource};
use canfd_driver::timing::{
    BitTimingCalculator, DataBitTiming, NominalBitTiming, TimingError, DEFAULT_SAMPLE_POINT,
    MAX_DATA_PRESCALER, MAX_DATA_QUANTA, MAX_DATA_SEG1, MAX_DATA_SEG2, MAX_PRESCALER, MAX_QUANTA,
    MAX_SEG1, MAX_SEG2,
};

fn nominal(sync_jump_width: u8, prescaler: u16, seg1: u8, seg2: u8) -> NominalBitTiming {
    NominalBitTiming { sync_jump_width, prescaler, seg1, seg2 }
}

fn data(sync_jump_width: u8, prescaler: u16, seg1: u8, seg2: u8) -> DataBitTiming {
    DataBitTiming { sync_jump_width, prescaler, seg1, seg2 }
}

fn rate_of(clock_hz: u32, timing: &NominalBitTiming) -> u32 {
    let periods: u32 = timing.prescaler as u32 * (1 + timing.seg1 as u32 + timing.seg2 as u32);
    clock_hz / periods
}

#[test]
fn documented_limits() {
    assert_eq!(MAX_PRESCALER, 512);
    assert_eq!(MAX_SEG1, 16);
    assert_eq!(MAX_SEG2, 8);
    assert_eq!(MAX_QUANTA, 25);
    assert_eq!(MAX_DATA_PRESCALER, 32);
    assert_eq!(MAX_DATA_SEG1, 32);
    assert_eq!(MAX_DATA_SEG2, 16);
    assert_eq!(MAX_DATA_QUANTA, 49);
    assert_eq!(DEFAULT_SAMPLE_POINT, 875);
}

#[test]
fn validate_accepts_ordinary_timing() {
    assert_eq!(nominal(1, 1, 13, 2).validate(), Ok(()));
    assert_eq!(nominal(4, 1, 11, 4).validate(), Ok(()));
    assert_eq!(nominal(2, 10, 2, 2).validate(), Ok(()));
}

#[test]
fn validate_rejects_zero_fields() {
    assert_eq!(nominal(0, 1, 13, 2).validate(), Err(TimingError::Unachievable));
    assert_eq!(nominal(1, 0, 13, 2).validate(), Err(TimingError::Unachievable));
    assert_eq!(nominal(1, 1, 0, 2).validate(), Err(TimingError::Unachievable));
    assert_eq!(nominal(1, 1, 13, 0).validate(), Err(TimingError::Unachievable));
}

#[test]
fn validate_rejects_jump_wider_than_second_segment() {
    assert_eq!(nominal(2, 1, 13, 2).validate(), Ok(()));
    assert_eq!(nominal(3, 1, 13, 2).validate(), Err(TimingError::Unachievable));
    assert_eq!(nominal(10, 10, 2, 2).validate(), Err(TimingError::Unachievable));
}

#[test]
fn validate_prescaler_boundary() {
    assert_eq!(nominal(1, 512, 13, 2).validate(), Ok(()));
    assert_eq!(nominal(1, 513, 13, 2).validate(), Err(TimingError::Unachievable));
}

#[test]
fn validate_seg1_boundary() {
    assert_eq!(nominal(1, 1, 16, 2).validate(), Ok(()));
    assert_eq!(nominal(1, 1, 17, 2).validate(), Err(TimingError::Unachievable));
}

#[test]
fn validate_seg2_boundary() {
    assert_eq!(nominal(1, 1, 13, 8).validate(), Ok(()));
    assert_eq!(nominal(1, 1, 13, 9).validate(), Err(TimingError::Unachievable));
}

#[test]
fn validate_all_fields_at_maximum() {
    assert_eq!(nominal(8, 512, 16, 8).validate(), Ok(()));
}

#[test]
fn validate_agrees_with_the_rule_on_every_small_timing() {
    for sync_jump_width in 0u8..=10 {
        for prescaler in [0u16, 1, 2, 511, 512] {
            for seg1 in 0u8..=16 {
                for seg2 in 0u8..=8 {
                    let expected = sync_jump_width >= 1
                        && sync_jump_width <= seg2
                        && prescaler >= 1
                        && seg1 >= 1
                        && seg2 >= 1
                        && 1 + seg1 as u16 + seg2 as u16 <= 25;
                    let got = nominal(sync_jump_width, prescaler, seg1, seg2).validate().is_ok();
                    assert_eq!(got, expected);
                }
            }
        }
    }
}

#[test]
fn validate_data_timing() {
    assert_eq!(data(4, 1, 11, 4).validate(), Ok(()));
    assert_eq!(data(16, 32, 32, 16).validate(), Ok(()));
    assert_eq!(data(1, 33, 32, 16).validate(), Err(TimingError::Unachievable));
    assert_eq!(data(1, 32, 33, 16).validate(), Err(TimingError::Unachievable));
    assert_eq!(data(1, 32, 32, 17).validate(), Err(TimingError::Unachievable));
    assert_eq!(data(5, 1, 11, 4).validate(), Err(TimingError::Unachievable));
    assert_eq!(data(0, 1, 11, 4).validate(), Err(TimingError::Unachievable));
}

#[test]
fn calculator_default_sample_point() {
    let calculator = BitTimingCalculator::new(8_000_000);
    assert_eq!(calculator.nominal(500_000, None), Ok(nominal(1, 1, 13, 2)));
    assert_eq!(calculator.nominal(250_000, None), Ok(nominal(1, 2, 13, 2)));
    assert_eq!(calculator.nominal(125_000, None), Ok(nominal(1, 4, 13, 2)));
    assert_eq!(calculator.nominal(1_000_000, None), Ok(nominal(1, 1, 6, 1)));
}

#[test]
fn calculator_prefers_most_quanta() {
    let calculator = BitTimingCalculator::new(50_000_000);
    assert_eq!(calculator.nominal(1_000_000, None), Ok(nominal(1, 2, 16, 8)));
    assert_eq!(calculator.nominal(500_000, None), Ok(nominal(1, 4, 16, 8)));
    let calculator = BitTimingCalculator::new(64_000_000);
    assert_eq!(calculator.nominal(500_000, None), Ok(nominal(1, 8, 13, 2)));
}

#[test]
fn calculator_named_sample_point() {
    let calculator = BitTimingCalculator::new(8_000_000);
    assert_eq!(calculator.nominal(500_000, Some(875)), Ok(nominal(1, 1, 13, 2)));
    assert_eq!(calculator.nominal(500_000, Some(800)), Ok(nominal(1, 1, 12, 3)));
    assert_eq!(calculator.nominal(500_000, Some(500)), Ok(nominal(1, 1, 7, 8)));
    assert_eq!(calculator.nominal(500_000, Some(0)), Ok(nominal(1, 1, 7, 8)));
    assert_eq!(calculator.nominal(500_000, Some(1000)), Ok(nominal(1, 1, 14, 1)));
    assert_eq!(calculator.nominal(500_000, Some(u16::MAX)), Ok(nominal(1, 1, 14, 1)));
}

#[test]
fn calculator_takes_later_sample_point_on_a_tie() {
    let calculator = BitTimingCalculator::new(10_000_000);
    assert_eq!(calculator.nominal(1_000_000, Some(750)), Ok(nominal(1, 1, 7, 2)));
}

#[test]
fn calculator_at_the_limits() {
    let calculator = BitTimingCalculator::new(12_800);
    assert_eq!(calculator.nominal(1, None), Ok(nominal(1, 512, 16, 8)));
    let calculator = BitTimingCalculator::new(12_825);
    assert_eq!(calculator.nominal(1, None), Err(TimingError::Unachievable));
    let calculator = BitTimingCalculator::new(3);
    assert_eq!(calculator.nominal(1, None), Ok(nominal(1, 1, 1, 1)));
    let calculator = BitTimingCalculator::new(2);
    assert_eq!(calculator.nominal(1, None), Err(TimingError::Unachievable));
    let calculator = BitTimingCalculator::new(u32::MAX);
    assert_eq!(calculator.nominal(u32::MAX, None), Err(TimingError::Unachievable));
    let calculator = BitTimingCalculator::new(4_294_967_295);
    assert_eq!(calculator.nominal(858_993_459, None), Ok(nominal(1, 1, 3, 1)));
}

#[test]
fn calculator_unachievable() {
    let calculator = BitTimingCalculator::new(8_000_000);
    assert_eq!(calculator.nominal(3_000_000, None), Err(TimingError::Unachievable));
    assert_eq!(calculator.nominal(0, None), Err(TimingError::Unachievable));
    assert_eq!(calculator.nominal(8_000_000, None), Err(TimingError::Unachievable));
    assert_eq!(calculator.nominal(1, None), Err(TimingError::Unachievable));
    let calculator = BitTimingCalculator::new(0);
    assert_eq!(calculator.nominal(500_000, None), Err(TimingError::Unachievable));
    assert_eq!(calculator.nominal(0, None), Err(TimingError::Unachievable));
}

#[test]
fn calculator_result_gives_the_rate_exactly() {
    let clocks: [u32; 6] = [8_000_000, 16_000_000, 40_000_000, 50_000_000, 64_000_000, 80_000_000];
    let rates: [u32; 8] =
        [10_000, 20_000, 50_000, 100_000, 125_000, 250_000, 500_000, 1_000_000];
    let mut found: u32 = 0;
    for clock in clocks {
        let calculator = BitTimingCalculator::new(clock);
        for rate in rates {
            match calculator.nominal(rate, None) {
                Ok(timing) => {
                    found += 1;
                    assert_eq!(timing.validate(), Ok(()));
                    assert_eq!(rate_of(clock, &timing), rate);
                    let periods: u64 = timing.prescaler as u64
                        * (1 + timing.seg1 as u64 + timing.seg2 as u64);
                    assert_eq!(periods * rate as u64, clock as u64);
                    assert_eq!(timing.sync_jump_width, 1);
                }
                Err(e) => {
                    assert_eq!(e, TimingError::Unachievable);
                    for prescaler in 1u64..=512 {
                        for quanta in 3u64..=25 {
                            assert_ne!(prescaler * quanta * rate as u64, clock as u64);
                        }
                    }
                }
            }
        }
    }
    assert!(found >= 40);
}

#[test]
fn clock_chain() {
    let clock = ClockConfig {
        source: ClockSource::External,
        frequency_hz: 25_000_000,
        pll_prediv: 2,
        pll_mul: 12,
        pll_div: 3,
    };
    assert_eq!(clock.peripheral_clock_hz(), Some(50_000_000));
    let calculator = BitTimingCalculator::for_clock(&clock).unwrap();
    assert_eq!(calculator.clock_hz, 50_000_000);
    assert_eq!(calculator.nominal(1_000_000, None), Ok(nominal(1, 2, 16, 8)));
}

#[test]
fn clock_chain_refuses_fractions_and_zero_dividers() {
    let base = ClockConfig {
        source: ClockSource::Internal,
        frequency_hz: 64_000_000,
        pll_prediv: 1,
        pll_mul: 1,
        pll_div: 1,
    };
    assert_eq!(base.peripheral_clock_hz(), Some(64_000_000));
    assert_eq!(ClockConfig { pll_prediv: 0, ..base }.peripheral_clock_hz(), None);
    assert_eq!(ClockConfig { pll_div: 0, ..base }.peripheral_clock_hz(), None);
    assert_eq!(ClockConfig { pll_div: 3, ..base }.peripheral_clock_hz(), None);
    assert_eq!(ClockConfig { pll_mul: 3, pll_div: 3, ..base }.peripheral_clock_hz(), Some(64_000_000));
    assert_eq!(ClockConfig { pll_mul: 0, ..base }.peripheral_clock_hz(), Some(0));
    assert_eq!(ClockConfig { pll_mul: 68, ..base }.peripheral_clock_hz(), None);
    assert_eq!(
        BitTimingCalculator::for_clock(&ClockConfig { pll_div: 3, ..base }),
        Err(TimingError::Unachievable)
    );
}
