//! Operating modes, and the types that stand for them.
//!
//! A controller's mode is part of its type: `Controller<Configuration>`,
//! `Controller<Normal>` and so on. What a mode allows is then settled when
//! the program is compiled: a configuration-mode controller has no `split`,
//! and the transmit handle of a monitoring controller has no `send`.

use vstd::prelude::*;
use crate::sealed::Sealed;

verus! {

/// How a controller takes part in bus traffic.
#[derive(Clone, Copy, Debug, PartialEq, Eq, Structural)]
pub enum Mode {
    /// After reset: takes a configuration, moves no frames.
    Configuration,
    /// Sends to the bus and receives from it.
    Normal,
    /// Sends to its own receiver only; the bus sees nothing.
    InternalLoopback,
    /// Sends to the bus and to its own receiver.
    ExternalLoopback,
    /// Receives from the bus; never sends, not even an acknowledgement.
    Monitoring,
}

/// Frames can be received in `mode`.
pub open spec fn operational(mode: Mode) -> bool {
    mode != Mode::Configuration
}

/// Frames can be sent in `mode`.
pub open spec fn transmits(mode: Mode) -> bool {
    mode == Mode::Normal || mode == Mode::InternalLoopback || mode == Mode::ExternalLoopback
}

/// A frame sent in `mode` appears on the bus.
pub open spec fn drives_bus(mode: Mode) -> bool {
    mode == Mode::Normal || mode == Mode::ExternalLoopback
}

/// A frame sent in `mode` comes back to the sender's own receiver.
pub open spec fn loops_back(mode: Mode) -> bool {
    mode == Mode::InternalLoopback || mode == Mode::ExternalLoopback
}

/// Frames on the bus reach the receiver in `mode`. In the loopback modes
/// the receive pin is cut off.
pub open spec fn hears_bus(mode: Mode) -> bool {
    mode == Mode::Normal || mode == Mode::Monitoring
}

impl Mode {
    /// Whether a frame sent in this mode appears on the bus.
    pub fn drives_bus(self) -> (yes: bool)
        ensures
            yes == drives_bus(self),
    {
        match self {
            Mode::Normal | Mode::ExternalLoopback => true,
            _ => false,
        }
    }

    /// Whether a frame sent in this mode comes back to the sender.
    pub fn loops_back(self) -> (yes: bool)
        ensures
            yes == loops_back(self),
    {
        match self {
            Mode::InternalLoopback | Mode::ExternalLoopback => true,
            _ => false,
        }
    }

    /// Whether frames on the bus reach the receiver in this mode.
    pub fn hears_bus(self) -> (yes: bool)
        ensures
            yes == hears_bus(self),
    {
        match self {
            Mode::Normal | Mode::Monitoring => true,
            _ => false,
        }
    }
}

/// A type that stands for one mode. There are five, and no more can be
/// added from outside.
pub trait OperatingMode: Sized + Sealed {
    /// The mode the type stands for.
    spec fn mode_spec() -> Mode;

    /// The mode the type stands for.
    fn mode() -> (mode: Mode)
        ensures
            mode == Self::mode_spec(),
    ;
}

/// A mode in which frames can be received.
pub trait Operational: OperatingMode {
    proof fn lemma_operational()
        ensures
            operational(Self::mode_spec()),
    ;
}

/// A mode in which frames can be sent.
pub trait Transmitting: Operational {
    proof fn lemma_transmits()
        ensures
            transmits(Self::mode_spec()),
    ;
}

/// Stands for `Mode::Configuration`.
#[derive(Clone, Copy, Debug, PartialEq, Eq)]
pub struct Configuration;

/// Stands for `Mode::Normal`.
#[derive(Clone, Copy, Debug, PartialEq, Eq)]
pub struct Normal;

/// Stands for `Mode::InternalLoopback`.
#[derive(Clone, Copy, Debug, PartialEq, Eq)]
pub struct InternalLoopback;

/// Stands for `Mode::ExternalLoopback`.
#[derive(Clone, Copy, Debug, PartialEq, Eq)]
pub struct ExternalLoopback;

/// Stands for `Mode::Monitoring`.
#[derive(Clone, Copy, Debug, PartialEq, Eq)]
pub struct Monitoring;

impl Sealed for Configuration {

}

impl Sealed for Normal {

}

impl Sealed for InternalLoopback {

}

impl Sealed for ExternalLoopback {

}

impl Sealed for Monitoring {

}

impl OperatingMode for Configuration {
    open spec fn mode_spec() -> Mode {
        Mode::Configuration
    }

    fn mode() -> (mode: Mode) {
        Mode::Configuration
    }
}

impl OperatingMode for Normal {
    open spec fn mode_spec() -> Mode {
        Mode::Normal
    }

    fn mode() -> (mode: Mode) {
        Mode::Normal
    }
}

impl OperatingMode for InternalLoopback {
    open spec fn mode_spec() -> Mode {
        Mode::InternalLoopback
    }

    fn mode() -> (mode: Mode) {
        Mode::InternalLoopback
    }
}

impl OperatingMode for ExternalLoopback {
    open spec fn mode_spec() -> Mode {
        Mode::ExternalLoopback
    }

    fn mode() -> (mode: Mode) {
        Mode::ExternalLoopback
    }
}

impl OperatingMode for Monitoring {
    open spec fn mode_spec() -> Mode {
        Mode::Monitoring
    }

    fn mode() -> (mode: Mode) {
        Mode::Monitoring
    }
}

impl Operational for Normal {
    proof fn lemma_operational() {
    }
}

impl Operational for InternalLoopback {
    proof fn lemma_operational() {
    }
}

impl Operational for ExternalLoopback {
    proof fn lemma_operational() {
    }
}

impl Operational for Monitoring {
    proof fn lemma_operational() {
    }
}

impl Transmitting for Normal {
    proof fn lemma_transmits() {
    }
}

impl Transmitting for InternalLoopback {
    proof fn lemma_transmits() {
    }
}

impl Transmitting for ExternalLoopback {
    proof fn lemma_transmits() {
    }
}

} // verus!
