//! The clock that feeds the controller.
//!
//! The controller's clock comes from an oscillator through a phase-locked
//! loop: the oscillator's frequency is divided, multiplied, and divided
//! again. Bit timings count periods of that clock, so it has to be a whole
//! number of hertz.

use vstd::prelude::*;
use crate::timing::{BitTimingCalculator, TimingError};

verus! {

/// Where the oscillator is.
#[derive(Clone, Copy, Debug, PartialEq, Eq, Structural)]
pub enum ClockSource {
    /// On the chip.
    Internal,
    /// On the board.
    External,
}

/// The oscillator and the divider chain behind it.
#[derive(Clone, Copy, Debug, PartialEq, Eq, Structural)]
pub struct ClockConfig {
    /// Where the oscillator is.
    pub source: ClockSource,
    /// The oscillator's frequency, in hertz.
    pub frequency_hz: u32,
    /// Divides the oscillator's frequency before the loop.
    pub pll_prediv: u8,
    /// Multiplies it inside the loop.
    pub pll_mul: u16,
    /// Divides the loop's output for the controller.
    pub pll_div: u8,
}

impl ClockConfig {
    /// The frequency of the controller's clock in hertz: the oscillator's,
    /// times the multiplier, by both dividers. `None` where a divider is
    /// zero, the division leaves a remainder, or the result is beyond
    /// `u32`.
    pub open spec fn peripheral_clock(self) -> Option<int> {
        let product = self.frequency_hz * self.pll_mul;
        let divisor = self.pll_prediv * self.pll_div;
        if divisor == 0 || product % divisor != 0 || product / divisor > u32::MAX {
            None
        } else {
            Some(product / divisor)
        }
    }

    /// The frequency of the controller's clock, as `peripheral_clock` has
    /// it.
    pub fn peripheral_clock_hz(&self) -> (clock: Option<u32>)
        ensures
            match clock {
                Some(hz) => self.peripheral_clock() == Some(hz as int),
                None => self.peripheral_clock() is None,
            },
    {
        assert(self.frequency_hz * self.pll_mul <= 0xffff_ffff * 0xffff) by (nonlinear_arith)
            requires
                self.frequency_hz <= 0xffff_ffff,
                self.pll_mul <= 0xffff,
        ;
        assert(self.pll_prediv * self.pll_div <= 255 * 255) by (nonlinear_arith)
            requires
                self.pll_prediv <= 255,
                self.pll_div <= 255,
        ;
        let product: u64 = self.frequency_hz as u64 * self.pll_mul as u64;
        let divisor: u64 = self.pll_prediv as u64 * self.pll_div as u64;
        if divisor == 0 || product % divisor != 0 {
            return None;
        }
        let clock: u64 = product / divisor;
        if clock > u32::MAX as u64 {
            None
        } else {
            Some(clock as u32)
        }
    }
}

impl BitTimingCalculator {
    /// A calculator for the controller that `clock` feeds. `Unachievable`
    /// where the clock is no whole number of hertz that fits `u32`.
    pub fn for_clock(clock: &ClockConfig) -> (r: Result<BitTimingCalculator, TimingError>)
        ensures
            match r {
                Ok(calculator) => clock.peripheral_clock() == Some(calculator.clock_hz as int),
                Err(e) => clock.peripheral_clock() is None && e == TimingError::Unachievable,
            },
    {
        match clock.peripheral_clock_hz() {
            Some(hz) => Ok(BitTimingCalculator::new(hz)),
            None => Err(TimingError::Unachievable),
        }
    }
}

} // verus!
