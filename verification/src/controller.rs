//! The controller and its way from reset to the bus.
//!
//! A controller starts in configuration mode, where it takes a
//! configuration and moves no frames. One of the `into_..._mode` functions
//! then consumes it and returns it in an operational mode, for good: no
//! function leads back. `split` consumes the operational controller in
//! turn, so each controller yields one transmit handle and one receive
//! handle, once.

use vstd::prelude::*;
use core::marker::PhantomData;
use crate::config::{ConfigError, ControllerConfig};
use crate::mode::{
    operational,
    Configuration,
    ExternalLoopback,
    InternalLoopback,
    Mode,
    Monitoring,
    Normal,
    OperatingMode,
    Operational,
};
use crate::transceiver::{ReceiveHandle, ReceiveModel, TransmitHandle, TransmitModel};

verus! {

/// Which of the chip's controllers: 1 for the first.
#[derive(Clone, Copy, Debug, PartialEq, Eq, Structural)]
pub struct Peripheral {
    pub index: u8,
}

/// A pin of the chip: its port, as a letter, and its number in the port.
#[derive(Clone, Copy, Debug, PartialEq, Eq, Structural)]
pub struct Pin {
    pub port: char,
    pub number: u8,
}

/// The two interrupt lines that a controller's events are bound to.
#[derive(Clone, Copy, Debug, PartialEq, Eq, Structural)]
pub struct InterruptBinding {
    pub line0: u16,
    pub line1: u16,
}

/// What a controller holds.
pub struct ControllerModel {
    /// Which controller it is.
    pub peripheral: Peripheral,
    /// The pin it receives on.
    pub rx_pin: Pin,
    /// The pin it sends on.
    pub tx_pin: Pin,
    /// The interrupt lines it reports on.
    pub interrupts: InterruptBinding,
    /// Its mode.
    pub mode: Mode,
    /// The configuration in effect.
    pub config: ControllerConfig,
}

/// A controller in the mode that `M` stands for.
///
/// That each peripheral and pin is handed to one controller only is the
/// business of whoever owns the chip's peripherals.
pub struct Controller<M: OperatingMode> {
    peripheral: Peripheral,
    rx_pin: Pin,
    tx_pin: Pin,
    interrupts: InterruptBinding,
    config: ControllerConfig,
    _mode: PhantomData<M>,
}

impl<M: OperatingMode> View for Controller<M> {
    type V = ControllerModel;

    closed spec fn view(&self) -> ControllerModel {
        ControllerModel {
            peripheral: self.peripheral,
            rx_pin: self.rx_pin,
            tx_pin: self.tx_pin,
            interrupts: self.interrupts,
            mode: M::mode_spec(),
            config: self.config,
        }
    }
}

impl<M: OperatingMode> Controller<M> {
    #[verifier::type_invariant]
    spec fn well_formed(self) -> bool {
        self.config.timing_valid()
    }

    /// Which controller this is.
    pub fn peripheral(&self) -> (peripheral: Peripheral)
        ensures
            peripheral == self@.peripheral,
    {
        self.peripheral
    }

    /// The pin the controller receives on.
    pub fn rx_pin(&self) -> (pin: Pin)
        ensures
            pin == self@.rx_pin,
    {
        self.rx_pin
    }

    /// The pin the controller sends on.
    pub fn tx_pin(&self) -> (pin: Pin)
        ensures
            pin == self@.tx_pin,
    {
        self.tx_pin
    }

    /// The interrupt lines the controller reports on.
    pub fn interrupts(&self) -> (interrupts: InterruptBinding)
        ensures
            interrupts == self@.interrupts,
    {
        self.interrupts
    }

    /// The controller's mode.
    pub fn mode(&self) -> (mode: Mode)
        ensures
            mode == self@.mode,
            mode == M::mode_spec(),
    {
        M::mode()
    }

    /// The configuration in effect. It is always valid.
    pub fn config(&self) -> (config: ControllerConfig)
        ensures
            config == self@.config,
            config.timing_valid(),
    {
        proof {
            use_type_invariant(self);
        }
        self.config
    }

    fn enter<N: OperatingMode>(self) -> (next: Controller<N>)
        ensures
            next@ == (ControllerModel { mode: N::mode_spec(), ..self@ }),
    {
        proof {
            use_type_invariant(&self);
        }
        Controller {
            peripheral: self.peripheral,
            rx_pin: self.rx_pin,
            tx_pin: self.tx_pin,
            interrupts: self.interrupts,
            config: self.config,
            _mode: PhantomData,
        }
    }
}

impl Controller<Configuration> {
    /// A controller as it is after reset: in configuration mode, with the
    /// reset configuration.
    pub fn new(
        peripheral: Peripheral,
        rx_pin: Pin,
        tx_pin: Pin,
        interrupts: InterruptBinding,
    ) -> (controller: Self)
        ensures
            controller@ == (ControllerModel {
                peripheral,
                rx_pin,
                tx_pin,
                interrupts,
                mode: Mode::Configuration,
                config: ControllerConfig::reset(),
            }),
    {
        Controller {
            peripheral,
            rx_pin,
            tx_pin,
            interrupts,
            config: ControllerConfig::default(),
            _mode: PhantomData,
        }
    }

    /// Puts the controller on the bus.
    pub fn into_normal_mode(self) -> (next: Controller<Normal>)
        ensures
            next@ == (ControllerModel { mode: Mode::Normal, ..self@ }),
    {
        self.enter()
    }

    /// Connects the controller's transmitter to its own receiver, and to
    /// nothing else.
    pub fn into_internal_loopback_mode(self) -> (next: Controller<InternalLoopback>)
        ensures
            next@ == (ControllerModel { mode: Mode::InternalLoopback, ..self@ }),
    {
        self.enter()
    }

    /// Connects the controller's transmitter to the bus and to its own
    /// receiver.
    pub fn into_external_loopback_mode(self) -> (next: Controller<ExternalLoopback>)
        ensures
            next@ == (ControllerModel { mode: Mode::ExternalLoopback, ..self@ }),
    {
        self.enter()
    }

    /// Lets the controller listen to the bus without ever sending.
    pub fn into_monitoring_mode(self) -> (next: Controller<Monitoring>)
        ensures
            next@ == (ControllerModel { mode: Mode::Monitoring, ..self@ }),
    {
        self.enter()
    }
}

impl<M: Operational> Controller<M> {
    /// Parts the controller into its transmitting and its receiving half.
    /// Both start empty and keep the controller's identity, mode and
    /// configuration.
    pub fn split(self) -> (halves: (TransmitHandle<M>, ReceiveHandle<M>))
        ensures
            operational(self@.mode),
            halves.0@ == (TransmitModel {
                peripheral: self@.peripheral,
                mode: self@.mode,
                config: self@.config,
                pending: Seq::empty(),
            }),
            halves.1@ == (ReceiveModel {
                peripheral: self@.peripheral,
                mode: self@.mode,
                config: self@.config,
                queued: Seq::empty(),
                overrun: false,
                bus_fault: false,
            }),
    {
        proof {
            use_type_invariant(&self);
            M::lemma_operational();
        }
        (
            TransmitHandle::new(self.peripheral, self.config),
            ReceiveHandle::new(self.peripheral, self.config),
        )
    }
}

impl ControllerConfig {
    /// Makes this configuration the controller's, all of it or none.
    ///
    /// `WrongMode` where the controller has left configuration mode; else
    /// `InvalidTiming` where a bit timing is not valid. On either error the
    /// controller keeps the configuration it had.
    pub fn apply<M: OperatingMode>(&self, controller: &mut Controller<M>) -> (r: Result<
        (),
        ConfigError,
    >)
        ensures
            r == (if old(controller)@.mode != Mode::Configuration {
                Err::<(), ConfigError>(ConfigError::WrongMode)
            } else if !self.timing_valid() {
                Err::<(), ConfigError>(ConfigError::InvalidTiming)
            } else {
                Ok::<(), ConfigError>(())
            }),
            final(controller)@ == (if r is Ok {
                ControllerModel { config: *self, ..old(controller)@ }
            } else {
                old(controller)@
            }),
    {
        match M::mode() {
            Mode::Configuration => {},
            _ => {
                return Err(ConfigError::WrongMode);
            },
        }
        let staged: ControllerConfig = *self;
        match staged.validate() {
            Err(e) => Err(e),
            Ok(()) => {
                controller.config = staged;
                Ok(())
            },
        }
    }
}

} // verus!
