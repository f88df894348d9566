//! The descriptor of one controller, its wake cell, and the events that a
//! higher layer may listen for.

use vstd::prelude::*;
use crate::registers::{InterruptFlags, RegisterWrite, Status};
use crate::variant::Variant;

verus! {

/// Event of the controller that a wait can park on.
#[derive(Debug, Clone, Copy, PartialEq, Eq, Hash, Structural)]
pub enum Event {
    /// The command list reached an END command.
    EndDetect,
    /// The controller detected a STOP bit.
    TxComplete,
    /// The transmit FIFO fell below its watermark. FIFO-limited families
    /// have no such event.
    TxFifoWatermark,
}

/// A set of events.
#[derive(Debug, Clone, Copy, PartialEq, Eq, Structural)]
pub struct EventSet {
    end_detect: bool,
    tx_complete: bool,
    tx_fifo_watermark: bool,
}

impl View for EventSet {
    type V = Set<Event>;

    closed spec fn view(&self) -> Set<Event> {
        Set::new(
            |event: Event|
                match event {
                    Event::EndDetect => self.end_detect,
                    Event::TxComplete => self.tx_complete,
                    Event::TxFifoWatermark => self.tx_fifo_watermark,
                },
        )
    }
}

impl EventSet {
    /// The empty set.
    pub fn new() -> (set: EventSet)
        ensures
            set@ == Set::<Event>::empty(),
    {
        let set = EventSet { end_detect: false, tx_complete: false, tx_fifo_watermark: false };
        assert(set@ =~= Set::<Event>::empty());
        set
    }

    /// The set of every event.
    pub fn all() -> (set: EventSet)
        ensures
            forall|event: Event| set@.contains(event),
    {
        EventSet { end_detect: true, tx_complete: true, tx_fifo_watermark: true }
    }

    /// Adds an event.
    pub fn insert(&mut self, event: Event)
        ensures
            final(self)@ == old(self)@.insert(event),
    {
        match event {
            Event::EndDetect => {
                self.end_detect = true;
            },
            Event::TxComplete => {
                self.tx_complete = true;
            },
            Event::TxFifoWatermark => {
                self.tx_fifo_watermark = true;
            },
        }
        assert(self@ =~= old(self)@.insert(event));
    }

    /// Whether the set holds the event.
    pub fn contains(&self, event: Event) -> (r: bool)
        ensures
            r == self@.contains(event),
    {
        match event {
            Event::EndDetect => self.end_detect,
            Event::TxComplete => self.tx_complete,
            Event::TxFifoWatermark => self.tx_fifo_watermark,
        }
    }
}

/// The interrupt flags of a set of events on a family. The watermark event
/// has a flag only where the family has the event.
pub open spec fn event_flags(variant: Variant, events: Set<Event>) -> InterruptFlags {
    InterruptFlags {
        end_detect: events.contains(Event::EndDetect),
        trans_complete: events.contains(Event::TxComplete),
        txfifo_wm: events.contains(Event::TxFifoWatermark) && !variant.fifo_limited(),
        ..InterruptFlags::none()
    }
}

/// The events that a snapshot shows as raised.
pub open spec fn raised_events(variant: Variant, status: Status) -> Set<Event> {
    Set::new(
        |event: Event|
            match event {
                Event::EndDetect => status.raw.end_detect,
                Event::TxComplete => status.raw.trans_complete,
                Event::TxFifoWatermark => status.raw.txfifo_wm && !variant.fifo_limited(),
            },
    )
}

/// Which of the controllers of a chip.
#[derive(Debug, Clone, Copy, PartialEq, Eq, Hash, Structural)]
pub enum Peripheral {
    I2cExt0,
    I2cExt1,
}

/// Peripheral data describing a particular I2C instance.
#[derive(Debug, Clone, Copy, PartialEq, Eq, Structural)]
#[non_exhaustive]
pub struct Info {
    /// Chip family of the controller.
    pub variant: Variant,
    /// System peripheral marker.
    pub peripheral: Peripheral,
}

/// Whether a waiter has been notified since it last registered.
#[derive(Debug, Clone, Copy, PartialEq, Eq, Structural)]
pub enum Wake {
    /// A waiter may be parked; nothing has fired since it registered.
    Pending,
    /// The interrupt handler has fired.
    Ready,
}

/// Peripheral state for an I2C instance: the one slot through which the
/// interrupt handler wakes a parked wait.
#[derive(Debug)]
#[non_exhaustive]
pub struct State {
    /// Wake slot for the asynchronous operations.
    pub waker: Wake,
}

impl State {
    /// A state in which nothing has fired.
    pub fn new() -> (state: State)
        ensures
            state.waker == Wake::Pending,
    {
        State { waker: Wake::Pending }
    }

    /// Takes the slot for a wait that is about to park. A notification from
    /// before is dropped.
    pub fn register(&mut self)
        ensures
            final(self).waker == Wake::Pending,
    {
        self.waker = Wake::Pending;
    }

    /// Notifies the waiter.
    pub fn wake(&mut self)
        ensures
            final(self).waker == Wake::Ready,
    {
        self.waker = Wake::Ready;
    }

    /// Whether the waiter has been notified.
    pub fn is_ready(&self) -> (ready: bool)
        ensures
            ready == (self.waker == Wake::Ready),
    {
        match self.waker {
            Wake::Ready => true,
            Wake::Pending => false,
        }
    }
}

/// The flags that the interrupt handler disables: every event a wait can
/// park on, and every fault.
pub open spec fn handled_flags(variant: Variant) -> InterruptFlags {
    InterruptFlags {
        end_detect: true,
        trans_complete: true,
        arbitration_lost: true,
        time_out: true,
        nack: true,
        txfifo_wm: !variant.fifo_limited(),
        ..InterruptFlags::none()
    }
}

/// The interrupt handler of the asynchronous operations: disables what
/// fired, so that the wait finds its event bit cleared, and wakes the wait.
pub fn async_handler(info: &Info, state: &mut State, regs: &mut Vec<RegisterWrite>)
    ensures
        final(regs)@ == old(regs)@.push(
            RegisterWrite::InterruptDisable(handled_flags(info.variant)),
        ),
        final(state).waker == Wake::Ready,
{
    regs.push(
        RegisterWrite::InterruptDisable(
            InterruptFlags {
                end_detect: true,
                trans_complete: true,
                arbitration_lost: true,
                time_out: true,
                nack: true,
                txfifo_wm: !info.variant.fifo_limited(),
                ..InterruptFlags::none()
            },
        ),
    );
    state.wake();
}

impl Info {
    /// The descriptor of a controller.
    pub fn new(variant: Variant, peripheral: Peripheral) -> (info: Info)
        ensures
            info.variant == variant,
            info.peripheral == peripheral,
    {
        Info { variant, peripheral }
    }

    /// The interrupt flags of a set of events.
    fn flags(&self, interrupts: EventSet) -> (flags: InterruptFlags)
        ensures
            flags == event_flags(self.variant, interrupts@),
    {
        InterruptFlags {
            end_detect: interrupts.contains(Event::EndDetect),
            trans_complete: interrupts.contains(Event::TxComplete),
            txfifo_wm: interrupts.contains(Event::TxFifoWatermark) && !self.variant.fifo_limited(),
            ..InterruptFlags::none()
        }
    }

    /// Queues the enabling or disabling of the interrupts of the given
    /// events. Other interrupts stay as they are.
    pub fn enable_listen(&self, interrupts: EventSet, enable: bool, regs: &mut Vec<RegisterWrite>)
        ensures
            final(regs)@ == old(regs)@.push(
                if enable {
                    RegisterWrite::InterruptEnable(event_flags(self.variant, interrupts@))
                } else {
                    RegisterWrite::InterruptDisable(event_flags(self.variant, interrupts@))
                },
            ),
    {
        let flags = self.flags(interrupts);
        if enable {
            regs.push(RegisterWrite::InterruptEnable(flags));
        } else {
            regs.push(RegisterWrite::InterruptDisable(flags));
        }
    }

    /// The events that the snapshot shows as raised.
    pub fn interrupts(&self, status: &Status) -> (events: EventSet)
        ensures
            events@ == raised_events(self.variant, *status),
    {
        let mut res = EventSet::new();
        if status.raw.end_detect {
            res.insert(Event::EndDetect);
        }
        if status.raw.trans_complete {
            res.insert(Event::TxComplete);
        }
        if !self.variant.fifo_limited() && status.raw.txfifo_wm {
            res.insert(Event::TxFifoWatermark);
        }
        assert(res@ =~= raised_events(self.variant, *status));
        res
    }

    /// Queues the clearing of the interrupts of the given events.
    pub fn clear_interrupts(&self, interrupts: EventSet, regs: &mut Vec<RegisterWrite>)
        ensures
            final(regs)@ == old(regs)@.push(
                RegisterWrite::InterruptClear(event_flags(self.variant, interrupts@)),
            ),
    {
        let flags = self.flags(interrupts);
        regs.push(RegisterWrite::InterruptClear(flags));
    }

    /// Queues what precedes the binding of an interrupt handler: every
    /// event is unlistened and cleared. Binding and enabling the handler is
    /// the interrupt controller's part.
    pub fn set_interrupt_handler(&self, regs: &mut Vec<RegisterWrite>)
        ensures
            final(regs)@ == old(regs)@ + seq![
                RegisterWrite::InterruptDisable(event_flags(self.variant, Set::full())),
                RegisterWrite::InterruptClear(event_flags(self.variant, Set::full())),
            ],
    {
        let all = EventSet::all();
        assert(event_flags(self.variant, all@) == event_flags(self.variant, Set::full()));
        self.enable_listen(all, false, regs);
        self.clear_interrupts(all, regs);
        assert(regs@ =~= old(regs)@ + seq![
            RegisterWrite::InterruptDisable(event_flags(self.variant, Set::full())),
            RegisterWrite::InterruptClear(event_flags(self.variant, Set::full())),
        ]);
    }
}

/// A controller instance: its descriptor and its state.
pub trait Instance {
    /// The peripheral data and state describing this instance.
    fn parts(&self) -> (&Info, &State);
}

/// Any controller, by its descriptor and state.
#[derive(Debug)]
pub struct AnyI2c {
    pub info: Info,
    pub state: State,
}

impl Instance for AnyI2c {
    fn parts(&self) -> (parts: (&Info, &State))
        ensures
            *parts.0 == self.info,
            *parts.1 == self.state,
    {
        (&self.info, &self.state)
    }
}

impl AnyI2c {
    /// The peripheral data describing this instance.
    pub fn info(&self) -> (info: &Info)
        ensures
            *info == self.info,
    {
        &self.info
    }

    /// The peripheral state for this instance.
    pub fn state(&self) -> (state: &State)
        ensures
            *state == self.state,
    {
        &self.state
    }
}

} // verus!
