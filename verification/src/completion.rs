//! Waiting for the controller to finish the programmed commands.

use vstd::prelude::*;
use crate::driver::{commands_unfinished, fault, reset_writes, Driver};
use crate::encode::Stepped;
use crate::error::Error;
use crate::future::{listen_flags, poll_spec, I2cFuture, Poll};
use crate::info::{Event, State, Wake};
use crate::registers::{RegisterWrite, Status};
use crate::variant::Variant;

verus! {

/// Whether the snapshot shows the transmission as finished. The controller
/// reports the end of a transmission by a STOP and the processing of an END
/// command apart; with `end_only` the first does not count.
pub open spec fn completed(end_only: bool, status: Status) -> bool {
    (!end_only && status.raw.trans_complete) || status.raw.end_detect
}

/// The result of a finished transmission: whether every command ran.
pub open spec fn commands_done(status: Status) -> Result<(), Error> {
    if commands_unfinished(status) {
        Err(Error::ExecutionIncomplete)
    } else {
        Ok(())
    }
}

/// One poll of a blocking wait with `remaining` polls left.
///
/// A fault ends the wait, with the controller reset. A finished
/// transmission ends it with the check of the commands. Else a poll is used
/// up, and with the last one the wait ends with `Timeout`.
pub open spec fn wait_spec(variant: Variant, end_only: bool, remaining: u32, status: Status) -> Stepped<
    Poll<Result<(), Error>>,
> {
    match fault(variant, status) {
        Some(e) => Stepped { value: Poll::Ready(Err(e)), writes: reset_writes(variant) },
        None => Stepped {
            value: if completed(end_only, status) {
                Poll::Ready(commands_done(status))
            } else if remaining <= 1 {
                Poll::Ready(Err(Error::Timeout))
            } else {
                Poll::Pending
            },
            writes: Seq::empty(),
        },
    }
}

/// The events that a parked wait for completion listens for.
pub open spec fn completion_events(end_only: bool) -> Seq<Event> {
    if end_only {
        seq![Event::EndDetect]
    } else {
        seq![Event::TxComplete, Event::EndDetect]
    }
}

/// The writes that begin the waits for the events.
pub open spec fn listen_writes(events: Seq<Event>) -> Seq<RegisterWrite> {
    Seq::new(
        events.len(),
        |i: int| RegisterWrite::InterruptEnable(listen_flags(events[i])),
    )
}

/// What a parked wait for completion begins with: a fault ends it, with the
/// controller reset; else the waits for its events begin.
pub open spec fn park_spec(variant: Variant, end_only: bool, status: Status) -> Stepped<
    Result<(), Error>,
> {
    match fault(variant, status) {
        Some(e) => Stepped { value: Err(e), writes: reset_writes(variant) },
        None => Stepped { value: Ok(()), writes: listen_writes(completion_events(end_only)) },
    }
}

/// One poll of a parked wait for completion: the first of its events to be
/// ready decides, the end of a transmission before the end of the command
/// list, and success is followed by the check of the commands.
pub open spec fn parked_spec(variant: Variant, end_only: bool, status: Status) -> Poll<
    Result<(), Error>,
> {
    let first = if end_only {
        Poll::Pending
    } else {
        poll_spec(variant, Event::TxComplete, status)
    };
    let decided = match first {
        Poll::Ready(r) => Poll::Ready(r),
        Poll::Pending => poll_spec(variant, Event::EndDetect, status),
    };
    match decided {
        Poll::Ready(Ok(())) => Poll::Ready(commands_done(status)),
        Poll::Ready(Err(e)) => Poll::Ready(Err(e)),
        Poll::Pending => Poll::Pending,
    }
}

impl Driver {
    /// Polls a blocking wait for the end of the transmission.
    ///
    /// `remaining` counts the polls that are left, the bound that stands in
    /// for a hardware timer; it goes down by one with each poll that finds
    /// nothing.
    pub fn wait_for_completion_blocking(
        &self,
        end_only: bool,
        remaining: &mut u32,
        status: &Status,
        regs: &mut Vec<RegisterWrite>,
    ) -> (r: Poll<Result<(), Error>>)
        ensures
            r == wait_spec(self.info.variant, end_only, *old(remaining), *status).value,
            final(regs)@ == old(regs)@ + wait_spec(
                self.info.variant,
                end_only,
                *old(remaining),
                *status,
            ).writes,
            *final(remaining) == if r is Pending {
                (*old(remaining) - 1) as u32
            } else {
                *old(remaining)
            },
    {
        match self.check_errors(status, regs) {
            Ok(()) => {},
            Err(e) => {
                return Poll::Ready(Err(e));
            },
        }
        assert(regs@ =~= old(regs)@ + Seq::<RegisterWrite>::empty());
        // A STOP condition or an END command was processed.
        if (!end_only && status.raw.trans_complete) || status.raw.end_detect {
            return Poll::Ready(self.check_all_commands_done(status));
        }
        if *remaining <= 1 {
            return Poll::Ready(Err(Error::Timeout));
        }
        *remaining = *remaining - 1;
        Poll::Pending
    }

    /// Begins a parked wait for the end of the transmission: checks the
    /// snapshot for a fault and queues the enabling of the interrupts.
    pub fn wait_for_completion(&self, end_only: bool, status: &Status, regs: &mut Vec<RegisterWrite>) -> (r:
        Result<(), Error>)
        ensures
            r == park_spec(self.info.variant, end_only, *status).value,
            final(regs)@ == old(regs)@ + park_spec(self.info.variant, end_only, *status).writes,
    {
        match self.check_errors(status, regs) {
            Ok(()) => {},
            Err(e) => {
                return Err(e);
            },
        }
        if !end_only {
            let _ = I2cFuture::new(Event::TxComplete, &self.info, regs);
        }
        let _ = I2cFuture::new(Event::EndDetect, &self.info, regs);
        assert(regs@ =~= old(regs)@ + listen_writes(completion_events(end_only)));
        Ok(())
    }

    /// Polls a parked wait for the end of the transmission on a snapshot
    /// taken after the last wake.
    pub fn poll_completion(&self, end_only: bool, status: &Status, state: &mut State) -> (r: Poll<
        Result<(), Error>,
    >)
        ensures
            r == parked_spec(self.info.variant, end_only, *status),
            final(state).waker == Wake::Pending,
    {
        let ended = I2cFuture { event: Event::EndDetect, variant: self.info.variant };
        let first = if end_only {
            Poll::Pending
        } else {
            let stopped = I2cFuture { event: Event::TxComplete, variant: self.info.variant };
            stopped.poll(status, state)
        };
        let decided = match first {
            Poll::Ready(r) => Poll::Ready(r),
            Poll::Pending => ended.poll(status, state),
        };
        match decided {
            Poll::Ready(Ok(())) => Poll::Ready(self.check_all_commands_done(status)),
            Poll::Ready(Err(e)) => Poll::Ready(Err(e)),
            Poll::Pending => Poll::Pending,
        }
    }
}

} // verus!
