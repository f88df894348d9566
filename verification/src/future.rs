//! A wait for one event of the controller that parks on its interrupt.

use vstd::prelude::*;
use crate::driver::{estimate_ack_failed_reason, fault};
use crate::error::{AcknowledgeCheckFailedReason, Error};
use crate::info::{Event, Info, State, Wake};
use crate::registers::{InterruptFlags, RegisterWrite, Status};
use crate::variant::Variant;

verus! {

/// Whether a wait has its result.
#[derive(Debug, Clone, Copy, PartialEq, Eq, Structural)]
pub enum Poll<T> {
    Ready(T),
    Pending,
}

/// A wait for `event` that parks until the interrupt handler wakes it.
///
/// The shell polls it once at once, and again after each wake. The handler
/// disables the interrupt of what fired, so the wait sees its event in the
/// cleared enable bit.
#[derive(Debug, Clone, Copy, PartialEq, Eq, Structural)]
#[must_use]
pub struct I2cFuture {
    pub event: Event,
    pub variant: Variant,
}

/// The interrupts that a wait for `event` enables: the event's own, and the
/// three faults.
pub open spec fn listen_flags(event: Event) -> InterruptFlags {
    InterruptFlags {
        end_detect: event is EndDetect,
        trans_complete: event is TxComplete,
        txfifo_wm: event is TxFifoWatermark,
        arbitration_lost: true,
        time_out: true,
        nack: true,
        ..InterruptFlags::none()
    }
}

/// Whether the interrupt of `event` is enabled in the snapshot.
pub open spec fn event_enabled(event: Event, status: Status) -> bool {
    match event {
        Event::EndDetect => status.enabled.end_detect,
        Event::TxComplete => status.enabled.trans_complete,
        Event::TxFifoWatermark => status.enabled.txfifo_wm,
    }
}

/// What a poll of a wait for `event` returns on a snapshot: a fault if
/// there is one, success if the handler has disabled the event's interrupt,
/// and else nothing yet.
pub open spec fn poll_spec(variant: Variant, event: Event, status: Status) -> Poll<
    Result<(), Error>,
> {
    match fault(variant, status) {
        Some(e) => Poll::Ready(Err(e)),
        None => if event_enabled(event, status) {
            Poll::Pending
        } else {
            Poll::Ready(Ok(()))
        },
    }
}

impl I2cFuture {
    /// Begins a wait for `event`: queues the enabling of its interrupt and
    /// of the fault interrupts.
    pub fn new(event: Event, info: &Info, regs: &mut Vec<RegisterWrite>) -> (future: I2cFuture)
        ensures
            future.event == event,
            future.variant == info.variant,
            final(regs)@ == old(regs)@.push(RegisterWrite::InterruptEnable(listen_flags(event))),
    {
        let flags = InterruptFlags {
            arbitration_lost: true,
            time_out: true,
            nack: true,
            ..InterruptFlags::none()
        };
        let flags = match event {
            Event::EndDetect => InterruptFlags { end_detect: true, ..flags },
            Event::TxComplete => InterruptFlags { trans_complete: true, ..flags },
            Event::TxFifoWatermark => InterruptFlags { txfifo_wm: true, ..flags },
        };
        regs.push(RegisterWrite::InterruptEnable(flags));
        I2cFuture { event, variant: info.variant }
    }

    /// Whether the handler has disabled the interrupt of the event, which
    /// it does when the event fires.
    pub fn event_bit_is_clear(&self, status: &Status) -> (clear: bool)
        ensures
            clear == !event_enabled(self.event, *status),
    {
        match self.event {
            Event::EndDetect => !status.enabled.end_detect,
            Event::TxComplete => !status.enabled.trans_complete,
            Event::TxFifoWatermark => !status.enabled.txfifo_wm,
        }
    }

    /// Checks a snapshot for a fault, in the order of
    /// [`crate::driver::fault`]: a bus timeout first, then a missing
    /// acknowledge, then a lost arbitration. Nothing is queued here; the
    /// transfer that the wait belongs to recovers the controller.
    pub fn check_error(&self, status: &Status) -> (r: Result<(), Error>)
        ensures
            r == match fault(self.variant, *status) {
                Some(e) => Err::<(), Error>(e),
                None => Ok::<(), Error>(()),
            },
    {
        if status.raw.time_out {
            return Err(Error::Timeout);
        }
        if status.raw.nack {
            return Err(
                Error::AcknowledgeCheckFailed(estimate_ack_failed_reason(self.variant, status)),
            );
        }
        if status.raw.arbitration_lost {
            return Err(Error::ArbitrationLost);
        }
        if !self.variant.is_esp32() && status.raw.trans_complete && !status.response_received {
            return Err(Error::AcknowledgeCheckFailed(AcknowledgeCheckFailedReason::Data));
        }
        Ok(())
    }

    /// Polls the wait on a snapshot taken after the last wake.
    ///
    /// The wake slot is taken before the snapshot is judged, so a wake
    /// between this poll and the parking is not lost.
    pub fn poll(&self, status: &Status, state: &mut State) -> (r: Poll<Result<(), Error>>)
        ensures
            r == poll_spec(self.variant, self.event, *status),
            final(state).waker == Wake::Pending,
    {
        state.register();
        let error = self.check_error(status);
        if error.is_err() {
            return Poll::Ready(error);
        }
        if self.event_bit_is_clear(status) {
            Poll::Ready(Ok(()))
        } else {
            Poll::Pending
        }
    }
}

} // verus!
