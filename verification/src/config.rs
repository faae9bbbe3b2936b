//! The configuration of a controller: bit timings and operating flags.
//!
//! A configuration is a plain value. Each setter takes one and returns the
//! next, so configurations can be built up, kept and compared; nothing
//! reaches a controller before `apply`.

use vstd::prelude::*;
use crate::timing::{DataBitTiming, NominalBitTiming};

verus! {

/// Why a configuration was not applied.
#[derive(Clone, Copy, Debug, PartialEq, Eq, Structural)]
pub enum ConfigError {
    /// The controller has left configuration mode.
    WrongMode,
    /// A bit timing of the configuration is not valid.
    InvalidTiming,
}

/// Everything that is written to a controller before it goes on the bus.
#[derive(Clone, Copy, Debug, PartialEq, Eq, Structural)]
pub struct ControllerConfig {
    /// Timing of the arbitration phase.
    pub nominal_bit_timing: NominalBitTiming,
    /// Timing of the data phase; `None` keeps the controller to classic
    /// frames.
    pub data_bit_timing: Option<DataBitTiming>,
    /// Send a frame again when it lost arbitration or was disturbed.
    pub automatic_retransmit: bool,
    /// Pause for two bit times after each frame sent, to let others in.
    pub transmit_pause: bool,
    /// Treat a reserved bit seen recessive as a protocol exception, not as
    /// an error.
    pub protocol_exception_handling: bool,
}

impl ControllerConfig {
    /// The configuration of a controller after reset: 500 kbit/s from an
    /// 8 MHz clock, classic frames only, retransmission and protocol
    /// exception handling on, transmit pause off.
    pub open spec fn reset() -> ControllerConfig {
        ControllerConfig {
            nominal_bit_timing: NominalBitTiming {
                sync_jump_width: 4,
                prescaler: 1,
                seg1: 11,
                seg2: 4,
            },
            data_bit_timing: None,
            automatic_retransmit: true,
            transmit_pause: false,
            protocol_exception_handling: true,
        }
    }

    /// Every bit timing that the configuration holds is valid.
    pub open spec fn timing_valid(self) -> bool {
        &&& self.nominal_bit_timing.valid()
        &&& self.data_bit_timing matches Some(data) ==> data.valid()
    }

    /// The configuration with another nominal bit timing.
    #[must_use]
    pub fn set_nominal_bit_timing(self, timing: NominalBitTiming) -> (next: Self)
        ensures
            next == (ControllerConfig { nominal_bit_timing: timing, ..self }),
    {
        ControllerConfig { nominal_bit_timing: timing, ..self }
    }

    /// The configuration with another data bit timing, or with none.
    #[must_use]
    pub fn set_data_bit_timing(self, timing: Option<DataBitTiming>) -> (next: Self)
        ensures
            next == (ControllerConfig { data_bit_timing: timing, ..self }),
    {
        ControllerConfig { data_bit_timing: timing, ..self }
    }

    /// The configuration with automatic retransmission on or off.
    #[must_use]
    pub fn set_automatic_retransmit(self, enabled: bool) -> (next: Self)
        ensures
            next == (ControllerConfig { automatic_retransmit: enabled, ..self }),
    {
        ControllerConfig { automatic_retransmit: enabled, ..self }
    }

    /// The configuration with the transmit pause on or off.
    #[must_use]
    pub fn set_transmit_pause(self, enabled: bool) -> (next: Self)
        ensures
            next == (ControllerConfig { transmit_pause: enabled, ..self }),
    {
        ControllerConfig { transmit_pause: enabled, ..self }
    }

    /// The configuration with protocol exception handling on or off.
    #[must_use]
    pub fn set_protocol_exception_handling(self, enabled: bool) -> (next: Self)
        ensures
            next == (ControllerConfig { protocol_exception_handling: enabled, ..self }),
    {
        ControllerConfig { protocol_exception_handling: enabled, ..self }
    }

    /// Accepts the configuration exactly when its timings are valid.
    pub fn validate(&self) -> (r: Result<(), ConfigError>)
        ensures
            r is Ok <==> self.timing_valid(),
            r is Err ==> r == Err::<(), ConfigError>(ConfigError::InvalidTiming),
    {
        if self.nominal_bit_timing.validate().is_err() {
            return Err(ConfigError::InvalidTiming);
        }
        match self.data_bit_timing {
            Some(data) => {
                if data.validate().is_err() {
                    Err(ConfigError::InvalidTiming)
                } else {
                    Ok(())
                }
            },
            None => Ok(()),
        }
    }
}

impl Default for ControllerConfig {
    /// The configuration of a controller after reset.
    fn default() -> (config: Self)
        ensures
            config == ControllerConfig::reset(),
    {
        ControllerConfig {
            nominal_bit_timing: NominalBitTiming {
                sync_jump_width: 4,
                prescaler: 1,
                seg1: 11,
                seg2: 4,
            },
            data_bit_timing: None,
            automatic_retransmit: true,
            transmit_pause: false,
            protocol_exception_handling: true,
        }
    }
}

/// The configuration after reset can be applied as it stands.
pub proof fn lemma_reset_is_valid()
    ensures
        ControllerConfig::reset().timing_valid(),
{
}

} // verus!
