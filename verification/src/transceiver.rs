//! The two halves of a running controller.
//!
//! `Controller::split` hands out a transmit handle and a receive handle, one
//! for each task. Each owns its own direction: the transmit handle the
//! mailbox of frames waiting for the bus, the receive handle the queue of
//! elements that arrived and the flags of faults not yet reported. What
//! both need of the controller (which peripheral it is, its mode and its
//! configuration) can no longer change once the controller runs, so each
//! half keeps its own copy.
//!
//! Neither half waits. Where a task would be suspended the handle says so
//! (`TxError::QueueFull`, `Ok(None)`), and the task's executor resumes it
//! when the interrupt handler has passed on what the hardware reported:
//! `next_transmission` when a mailbox slot is to go out, `on_frame` and
//! `on_bus_error` for what came in.

use vstd::prelude::*;
use core::marker::PhantomData;
use crate::config::ControllerConfig;
use crate::controller::Peripheral;
use crate::frame::{
    decode,
    decode_spec,
    FrameError,
    RxFrame,
    RxFrameModel,
    TxFrame,
    TxFrameModel,
};
use crate::mode::{drives_bus, hears_bus, loops_back, Mode, Operational, Transmitting};

verus! {

/// Frames that can wait for the bus at one time.
pub const TX_MAILBOX_SLOTS: usize = 3;

/// Received elements that can wait to be read at one time.
pub const RX_FIFO_SLOTS: usize = 3;

/// Why a frame was not taken for transmission.
#[derive(Clone, Copy, Debug, PartialEq, Eq, Structural)]
pub enum TxError {
    /// Every mailbox slot holds a frame that has not left yet.
    QueueFull,
}

/// A fault that the hardware reported to the receiver.
#[derive(Clone, Copy, Debug, PartialEq, Eq, Structural)]
pub enum RxError {
    /// A frame arrived while the receive queue was full, and is lost.
    Overrun,
    /// The controller saw an error on the bus.
    BusError,
}

/// A frame that leaves the mailbox, and where it goes.
#[derive(Debug, PartialEq, Eq)]
pub struct Transmission {
    /// The frame's element.
    pub element: Vec<u8>,
    /// Whether the frame needs the flexible-data-rate format.
    pub flexible: bool,
    /// The controller that sends it.
    pub origin: Peripheral,
    /// Whether it appears on the bus.
    pub to_bus: bool,
    /// Whether it comes back to the sender's own receiver.
    pub loops_back: bool,
}

/// Where an arriving element comes from.
#[derive(Clone, Copy, Debug, PartialEq, Eq, Structural)]
pub enum FrameSource {
    /// From another node, over the bus.
    Bus,
    /// From the transmitter of the named controller, looped back.
    Loopback(Peripheral),
}

/// What became of an arriving element.
#[derive(Clone, Copy, Debug, PartialEq, Eq, Structural)]
pub enum Delivery {
    /// It waits in the receive queue.
    Queued,
    /// The receiver does not listen to that source in its mode.
    Ignored,
    /// The receive queue was full: the element is lost and an overrun is
    /// on record.
    Lost,
    /// It holds no frame, for the reason given.
    Rejected(FrameError),
}

/// The frame at `k` goes out first: no waiting frame has a lower
/// identifier, and none with the same identifier was sent earlier.
pub open spec fn wins(pending: Seq<TxFrameModel>, k: int) -> bool {
    &&& 0 <= k < pending.len()
    &&& forall|j: int|
        0 <= j < pending.len() ==> {
            &&& pending[k].header.id <= (#[trigger] pending[j]).header.id
            &&& pending[j].header.id == pending[k].header.id ==> k <= j
        }
}

/// The position of the frame that goes out first.
pub open spec fn winner(pending: Seq<TxFrameModel>) -> int {
    choose|k: int| wins(pending, k)
}

/// At most one frame goes out first.
pub proof fn lemma_winner_is_unique(pending: Seq<TxFrameModel>, a: int, b: int)
    requires
        wins(pending, a),
        wins(pending, b),
    ensures
        a == b,
        winner(pending) == a,
{
    assert(pending[a].header.id <= pending[b].header.id);
    assert(pending[b].header.id <= pending[a].header.id);
    let w = winner(pending);
    assert(wins(pending, w));
    assert(pending[a].header.id <= pending[w].header.id);
    assert(pending[w].header.id <= pending[a].header.id);
}

/// The receiver of `peripheral` in `mode` takes elements from `source`:
/// from the bus where the mode hears it, from a loopback where the mode
/// loops back and the sender is the receiver's own controller.
pub open spec fn accepts(peripheral: Peripheral, mode: Mode, source: FrameSource) -> bool {
    match source {
        FrameSource::Bus => hears_bus(mode),
        FrameSource::Loopback(sender) => loops_back(mode) && sender == peripheral,
    }
}

/// What a controller in a loopback mode sends, its own receiver takes and
/// reads as the frame that was sent.
pub proof fn lemma_loopback_returns_frame(frame: TxFrameModel, peripheral: Peripheral, mode: Mode)
    requires
        frame.valid(),
        loops_back(mode),
    ensures
        accepts(peripheral, mode, FrameSource::Loopback(peripheral)),
        decode_spec(frame.element()) == Ok::<RxFrameModel, FrameError>(frame.received()),
{
    crate::frame::lemma_decode_inverts_encode(frame);
}

/// A receiver never takes what another controller looped back, and in
/// internal loopback mode it takes nothing from the bus either, nor does
/// its controller put anything there.
pub proof fn lemma_loopback_is_private(peripheral: Peripheral, other: Peripheral, mode: Mode)
    requires
        other != peripheral,
    ensures
        !accepts(peripheral, mode, FrameSource::Loopback(other)),
        !accepts(peripheral, Mode::InternalLoopback, FrameSource::Bus),
        !drives_bus(Mode::InternalLoopback),
{
}

/// What a transmit handle holds.
pub struct TransmitModel {
    /// The controller the handle belongs to.
    pub peripheral: Peripheral,
    /// The controller's mode.
    pub mode: Mode,
    /// The configuration the controller runs with.
    pub config: ControllerConfig,
    /// The frames waiting for the bus, in the order they were sent.
    pub pending: Seq<TxFrameModel>,
}

impl TransmitModel {
    /// Every mailbox slot is taken.
    pub open spec fn full(self) -> bool {
        self.pending.len() >= TX_MAILBOX_SLOTS
    }

    /// The handle after `frame` was sent: the frame waits behind the
    /// others, unless the mailbox was full.
    pub open spec fn after_send(self, frame: TxFrameModel) -> TransmitModel {
        if self.full() {
            self
        } else {
            TransmitModel { pending: self.pending.push(frame), ..self }
        }
    }
}

/// The transmitting half of a controller.
pub struct TransmitHandle<M: Operational> {
    peripheral: Peripheral,
    config: ControllerConfig,
    pending: Vec<TxFrame>,
    _mode: PhantomData<M>,
}

impl<M: Operational> View for TransmitHandle<M> {
    type V = TransmitModel;

    closed spec fn view(&self) -> TransmitModel {
        TransmitModel {
            peripheral: self.peripheral,
            mode: M::mode_spec(),
            config: self.config,
            pending: Seq::new(self.pending@.len(), |i: int| self.pending@[i]@),
        }
    }
}

impl<M: Operational> TransmitHandle<M> {
    #[verifier::type_invariant]
    spec fn well_formed(self) -> bool {
        &&& self.pending@.len() <= TX_MAILBOX_SLOTS
        &&& self.config.timing_valid()
    }

    pub(crate) fn new(peripheral: Peripheral, config: ControllerConfig) -> (handle: Self)
        requires
            config.timing_valid(),
        ensures
            handle@ == (TransmitModel {
                peripheral,
                mode: M::mode_spec(),
                config,
                pending: Seq::empty(),
            }),
    {
        let handle = TransmitHandle { peripheral, config, pending: Vec::new(), _mode: PhantomData };
        assert(handle@.pending =~= Seq::empty());
        handle
    }

    /// The controller the handle belongs to.
    pub fn peripheral(&self) -> (peripheral: Peripheral)
        ensures
            peripheral == self@.peripheral,
    {
        self.peripheral
    }

    /// The controller's mode.
    pub fn mode(&self) -> (mode: Mode)
        ensures
            mode == self@.mode,
            mode == M::mode_spec(),
    {
        M::mode()
    }

    /// The configuration the controller runs with. It is always valid.
    pub fn config(&self) -> (config: ControllerConfig)
        ensures
            config == self@.config,
            config.timing_valid(),
    {
        proof {
            use_type_invariant(self);
        }
        self.config
    }

    /// How many frames wait for the bus: never more than
    /// `TX_MAILBOX_SLOTS`.
    pub fn pending(&self) -> (count: usize)
        ensures
            count == self@.pending.len(),
            count <= TX_MAILBOX_SLOTS,
    {
        proof {
            use_type_invariant(self);
        }
        self.pending.len()
    }

    /// Takes the frame that goes out next from the mailbox: the one with
    /// the lowest identifier, the earliest sent among equals. Returns its
    /// element and where the mode sends it, or `None` where no frame waits.
    pub fn next_transmission(&mut self) -> (r: Option<Transmission>)
        ensures
            old(self)@.pending.len() == 0 ==> r is None && final(self)@ == old(self)@,
            old(self)@.pending.len() > 0 ==> {
                let k = winner(old(self)@.pending);
                &&& wins(old(self)@.pending, k)
                &&& r matches Some(sent)
                &&& sent.element@ == old(self)@.pending[k].element()
                &&& sent.flexible == old(self)@.pending[k].header.flexible()
                &&& sent.origin == old(self)@.peripheral
                &&& sent.to_bus == drives_bus(old(self)@.mode)
                &&& sent.loops_back == loops_back(old(self)@.mode)
                &&& final(self)@ == (TransmitModel {
                    pending: old(self)@.pending.remove(k),
                    ..old(self)@
                })
            },
    {
        proof {
            use_type_invariant(&*self);
        }
        if self.pending.len() == 0 {
            return None;
        }
        let ghost before = self@.pending;
        let mut pending: Vec<TxFrame> = Vec::new();
        core::mem::swap(&mut pending, &mut self.pending);
        let mut best: usize = 0;
        let mut lowest: u32 = pending[0].header().id;
        let mut i: usize = 1;
        while i < pending.len()
            invariant
                0 <= best < i <= pending@.len(),
                before.len() == pending@.len(),
                forall|j: int| 0 <= j < before.len() ==> before[j] == (#[trigger] pending@[j])@,
                lowest == before[best as int].header.id,
                forall|j: int|
                    0 <= j < i ==> {
                        &&& lowest <= (#[trigger] before[j]).header.id
                        &&& before[j].header.id == lowest ==> best <= j
                    },
            decreases pending@.len() - i,
        {
            let id: u32 = pending[i].header().id;
            if id < lowest {
                lowest = id;
                best = i;
            }
            i = i + 1;
        }
        proof {
            assert(wins(before, best as int));
            lemma_winner_is_unique(before, best as int, best as int);
        }
        let frame: TxFrame = pending.remove(best);
        let element: Vec<u8> = frame.encode();
        let flexible: bool = frame.header().is_flexible();
        self.pending = pending;
        proof {
            assert(self@.pending =~= before.remove(best as int));
        }
        let mode = M::mode();
        Some(
            Transmission {
                element,
                flexible,
                origin: self.peripheral,
                to_bus: mode.drives_bus(),
                loops_back: mode.loops_back(),
            },
        )
    }
}

impl<M: Transmitting> TransmitHandle<M> {
    /// Puts `frame` into the mailbox, behind the frames sent before it.
    /// Where every slot is taken nothing changes and the answer is
    /// `QueueFull`: the task tries again when a frame has left.
    pub fn send(&mut self, frame: TxFrame) -> (r: Result<(), TxError>)
        ensures
            r is Ok <==> !old(self)@.full(),
            r is Err ==> r == Err::<(), TxError>(TxError::QueueFull),
            final(self)@ == old(self)@.after_send(frame@),
    {
        proof {
            use_type_invariant(&*self);
        }
        if self.pending.len() >= TX_MAILBOX_SLOTS {
            return Err(TxError::QueueFull);
        }
        let ghost before = self@.pending;
        let ghost model = frame@;
        let mut pending: Vec<TxFrame> = Vec::new();
        core::mem::swap(&mut pending, &mut self.pending);
        pending.push(frame);
        self.pending = pending;
        proof {
            assert(self@.pending =~= before.push(model));
        }
        Ok(())
    }
}

/// What a receive handle holds.
pub struct ReceiveModel {
    /// The controller the handle belongs to.
    pub peripheral: Peripheral,
    /// The controller's mode.
    pub mode: Mode,
    /// The configuration the controller runs with.
    pub config: ControllerConfig,
    /// The elements waiting to be read, oldest first. Each holds a frame.
    pub queued: Seq<Seq<u8>>,
    /// An element was lost and the task has not been told yet.
    pub overrun: bool,
    /// A bus error was seen and the task has not been told yet.
    pub bus_fault: bool,
}

impl ReceiveModel {
    /// The fault that the next `receive` reports: an overrun before a bus
    /// error, `None` where neither is on record.
    pub open spec fn fault(self) -> Option<RxError> {
        if self.overrun {
            Some(RxError::Overrun)
        } else if self.bus_fault {
            Some(RxError::BusError)
        } else {
            None
        }
    }

    /// The handle after a `receive`: the reported fault is off the record,
    /// or else the oldest element has left the queue.
    pub open spec fn after_receive(self) -> ReceiveModel {
        if self.overrun {
            ReceiveModel { overrun: false, ..self }
        } else if self.bus_fault {
            ReceiveModel { bus_fault: false, ..self }
        } else if self.queued.len() == 0 {
            self
        } else {
            ReceiveModel { queued: self.queued.drop_first(), ..self }
        }
    }
}

/// The receiving half of a controller.
pub struct ReceiveHandle<M: Operational> {
    peripheral: Peripheral,
    config: ControllerConfig,
    fifo: Vec<Vec<u8>>,
    current: Vec<u8>,
    overrun: bool,
    bus_fault: bool,
    _mode: PhantomData<M>,
}

impl<M: Operational> View for ReceiveHandle<M> {
    type V = ReceiveModel;

    closed spec fn view(&self) -> ReceiveModel {
        ReceiveModel {
            peripheral: self.peripheral,
            mode: M::mode_spec(),
            config: self.config,
            queued: Seq::new(self.fifo@.len(), |i: int| self.fifo@[i]@),
            overrun: self.overrun,
            bus_fault: self.bus_fault,
        }
    }
}

impl<M: Operational> ReceiveHandle<M> {
    #[verifier::type_invariant]
    spec fn well_formed(self) -> bool {
        &&& self.fifo@.len() <= RX_FIFO_SLOTS
        &&& self.config.timing_valid()
        &&& forall|i: int| 0 <= i < self.fifo@.len() ==> decode_spec(#[trigger] self.fifo@[i]@) is Ok
    }

    pub(crate) fn new(peripheral: Peripheral, config: ControllerConfig) -> (handle: Self)
        requires
            config.timing_valid(),
        ensures
            handle@ == (ReceiveModel {
                peripheral,
                mode: M::mode_spec(),
                config,
                queued: Seq::empty(),
                overrun: false,
                bus_fault: false,
            }),
    {
        let handle = ReceiveHandle {
            peripheral,
            config,
            fifo: Vec::new(),
            current: Vec::new(),
            overrun: false,
            bus_fault: false,
            _mode: PhantomData,
        };
        assert(handle@.queued =~= Seq::empty());
        handle
    }

    /// The controller the handle belongs to.
    pub fn peripheral(&self) -> (peripheral: Peripheral)
        ensures
            peripheral == self@.peripheral,
    {
        self.peripheral
    }

    /// The controller's mode.
    pub fn mode(&self) -> (mode: Mode)
        ensures
            mode == self@.mode,
            mode == M::mode_spec(),
    {
        M::mode()
    }

    /// The configuration the controller runs with. It is always valid.
    pub fn config(&self) -> (config: ControllerConfig)
        ensures
            config == self@.config,
            config.timing_valid(),
    {
        proof {
            use_type_invariant(self);
        }
        self.config
    }

    /// How many elements wait to be read: never more than `RX_FIFO_SLOTS`,
    /// and each of them holds a frame.
    pub fn queued(&self) -> (count: usize)
        ensures
            count == self@.queued.len(),
            count <= RX_FIFO_SLOTS,
            forall|i: int| 0 <= i < self@.queued.len() ==> decode_spec(#[trigger] self@.queued[i]) is Ok,
    {
        proof {
            use_type_invariant(self);
        }
        self.fifo.len()
    }

    /// Takes in an element that the hardware reports.
    ///
    /// It is `Ignored` where the receiver does not take elements from
    /// `source` (see `accepts`), `Rejected` where it holds no frame, and
    /// `Lost`, with an overrun put on record, where the queue is full.
    /// Otherwise it is `Queued` behind the elements that came before.
    pub fn on_frame(&mut self, source: FrameSource, element: &[u8]) -> (d: Delivery)
        ensures
            d == (if !accepts(old(self)@.peripheral, old(self)@.mode, source) {
                Delivery::Ignored
            } else if decode_spec(element@) is Err {
                Delivery::Rejected(decode_spec(element@)->Err_0)
            } else if old(self)@.queued.len() >= RX_FIFO_SLOTS {
                Delivery::Lost
            } else {
                Delivery::Queued
            }),
            final(self)@ == (match d {
                Delivery::Queued => ReceiveModel {
                    queued: old(self)@.queued.push(element@),
                    ..old(self)@
                },
                Delivery::Lost => ReceiveModel { overrun: true, ..old(self)@ },
                _ => old(self)@,
            }),
    {
        proof {
            use_type_invariant(&*self);
        }
        let mode = M::mode();
        let accepted = match source {
            FrameSource::Bus => mode.hears_bus(),
            FrameSource::Loopback(sender) => mode.loops_back() && sender == self.peripheral,
        };
        if !accepted {
            return Delivery::Ignored;
        }
        match decode(element) {
            Err(e) => {
                return Delivery::Rejected(e);
            },
            Ok(_) => {},
        }
        if self.fifo.len() >= RX_FIFO_SLOTS {
            self.overrun = true;
            return Delivery::Lost;
        }
        let ghost before = self@.queued;
        let mut fifo: Vec<Vec<u8>> = Vec::new();
        core::mem::swap(&mut fifo, &mut self.fifo);
        fifo.push(vstd::slice::slice_to_vec(element));
        self.fifo = fifo;
        proof {
            assert(self@.queued =~= before.push(element@));
        }
        Delivery::Queued
    }

    /// Puts a bus error that the hardware reports on record.
    pub fn on_bus_error(&mut self)
        ensures
            final(self)@ == (ReceiveModel { bus_fault: true, ..old(self)@ }),
    {
        proof {
            use_type_invariant(&*self);
        }
        self.bus_fault = true;
    }

    /// Reports what the hardware has brought since the last call: first an
    /// overrun on record, then a bus error on record, then the oldest
    /// element in the queue, decoded. `Ok(None)` says that nothing has come
    /// yet and the task may be suspended.
    ///
    /// A fault is taken off the record as it is reported. A frame borrows
    /// its payload from the handle, so it has to be let go before the next
    /// call.
    pub fn receive<'a>(&'a mut self) -> (r: Result<Option<RxFrame<'a>>, RxError>)
        ensures
            final(self)@ == old(self)@.after_receive(),
            match old(self)@.fault() {
                Some(fault) => r matches Err(e) && e == fault,
                None => if old(self)@.queued.len() == 0 {
                    r matches Ok(None)
                } else {
                    &&& r matches Ok(Some(frame))
                    &&& decode_spec(old(self)@.queued[0]) == Ok::<RxFrameModel, FrameError>(frame@)
                },
            },
    {
        proof {
            use_type_invariant(&*self);
        }
        if self.overrun {
            self.overrun = false;
            return Err(RxError::Overrun);
        }
        if self.bus_fault {
            self.bus_fault = false;
            return Err(RxError::BusError);
        }
        if self.fifo.len() == 0 {
            return Ok(None);
        }
        let ghost before = self@.queued;
        let mut fifo: Vec<Vec<u8>> = Vec::new();
        core::mem::swap(&mut fifo, &mut self.fifo);
        let element: Vec<u8> = fifo.remove(0);
        self.fifo = fifo;
        self.current = element;
        proof {
            assert(self@.queued =~= before.drop_first());
            assert(self.current@ == before[0]);
        }
        match decode(self.current.as_slice()) {
            Ok(frame) => Ok(Some(frame)),
            Err(_) => Ok(None),
        }
    }
}

} // verus!
