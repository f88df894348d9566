//! Filling the transmit FIFO and draining the receive FIFO, one snapshot at
//! a time, on the families whose transfers can exceed the FIFO.

use vstd::prelude::*;
use crate::driver::{fault, reset_writes, Driver};
use crate::encode::Stepped;
use crate::error::Error;
use crate::future::{listen_flags, poll_spec, I2cFuture, Poll};
use crate::info::{Event, State, Wake};
use crate::registers::{InterruptFlags, RegisterWrite, Status};
use crate::variant::Variant;

verus! {

/// Where the streaming writer stands between two bytes. It waits for the
/// watermark twice before each byte, and clears it in between.
#[derive(Debug, Clone, Copy, PartialEq, Eq, Structural)]
pub enum Watermark {
    /// Before the first wait, at which the controller is checked for faults.
    Check,
    /// In the first wait.
    First,
    /// In the second wait.
    Second,
}

/// What the streaming writer does after a snapshot.
#[derive(Debug, Clone, Copy, PartialEq, Eq, Structural)]
pub enum Streaming {
    /// It waits on at `stage`, with `index` bytes pushed. `parked` says
    /// that it waits for the interrupt handler to wake it.
    Continue { stage: Watermark, index: usize, parked: bool },
    /// Every byte is pushed.
    Done,
}

/// The write that clears the transmit watermark flag.
pub open spec fn clear_watermark() -> RegisterWrite {
    RegisterWrite::InterruptClear(InterruptFlags { txfifo_wm: true, ..InterruptFlags::none() })
}

/// The write that clears the transmit overflow flag.
pub open spec fn clear_overflow() -> RegisterWrite {
    RegisterWrite::InterruptClear(InterruptFlags { txfifo_ovf: true, ..InterruptFlags::none() })
}

/// One step of priming the transmit FIFO, with `index` bytes pushed so far.
///
/// While bytes are left and the snapshot shows no overflow, the next byte
/// is pushed. Else priming ends and the transmission starts; after an
/// overflow the last byte counts as not pushed, and the flag is cleared.
/// The value is the count of bytes pushed and whether priming has ended.
pub open spec fn fill_spec(bytes: Seq<u8>, index: usize, status: Status) -> Stepped<(usize, bool)> {
    if index < bytes.len() && !status.raw.txfifo_ovf {
        Stepped {
            value: ((index + 1) as usize, false),
            writes: seq![RegisterWrite::FifoData(bytes[index as int])],
        }
    } else if status.raw.txfifo_ovf {
        Stepped {
            value: (
                if index > 0 {
                    (index - 1) as usize
                } else {
                    0
                },
                true,
            ),
            writes: seq![clear_overflow(), RegisterWrite::TransStart],
        }
    } else {
        Stepped { value: (index, true), writes: seq![RegisterWrite::TransStart] }
    }
}

/// What the second wait of the streaming writer ends with: the next byte
/// is pushed, or none is left.
pub open spec fn push_next(bytes: Seq<u8>, index: usize) -> Stepped<Result<Streaming, Error>> {
    if index >= bytes.len() {
        Stepped { value: Ok(Streaming::Done), writes: Seq::empty() }
    } else {
        Stepped {
            value: Ok(
                Streaming::Continue {
                    stage: Watermark::Check,
                    index: (index + 1) as usize,
                    parked: false,
                },
            ),
            writes: seq![RegisterWrite::FifoData(bytes[index as int])],
        }
    }
}

/// The streaming writer goes on waiting at `stage`, unless the snapshot
/// shows a fault, for which the controller is reset.
pub open spec fn keep_waiting(variant: Variant, stage: Watermark, index: usize, status: Status) -> Stepped<
    Result<Streaming, Error>,
> {
    match fault(variant, status) {
        Some(e) => Stepped { value: Err(e), writes: reset_writes(variant) },
        None => Stepped {
            value: Ok(Streaming::Continue { stage, index, parked: false }),
            writes: Seq::empty(),
        },
    }
}

/// One step of the polled streaming writer.
///
/// Before the first wait the snapshot is checked for a fault. A wait that
/// does not see the watermark checks for a fault and goes on. The first
/// wait ends by clearing the watermark, the second by pushing the next
/// byte, or by ending the stream when none is left.
pub open spec fn stream_spec(
    variant: Variant,
    stage: Watermark,
    bytes: Seq<u8>,
    index: usize,
    status: Status,
) -> Stepped<Result<Streaming, Error>> {
    let seen = status.raw.txfifo_wm;
    let cleared = Stepped {
        value: Ok::<Streaming, Error>(
            Streaming::Continue { stage: Watermark::Second, index, parked: false },
        ),
        writes: seq![clear_watermark()],
    };
    match stage {
        Watermark::Check => match fault(variant, status) {
            Some(e) => Stepped { value: Err(e), writes: reset_writes(variant) },
            None => if seen {
                cleared
            } else {
                Stepped {
                    value: Ok(Streaming::Continue { stage: Watermark::First, index, parked: false }),
                    writes: Seq::empty(),
                }
            },
        },
        Watermark::First => if seen {
            cleared
        } else {
            keep_waiting(variant, Watermark::First, index, status)
        },
        Watermark::Second => if seen {
            push_next(bytes, index)
        } else {
            keep_waiting(variant, Watermark::Second, index, status)
        },
    }
}

/// One step of the parked streaming writer.
///
/// Before the first wait the snapshot is checked for a fault, for which the
/// controller is reset, and the wait for the watermark begins. A wait that
/// finds a fault ends the stream with it. The first wait ends by clearing
/// the watermark and beginning the second, the second by pushing the next
/// byte, or by ending the stream when none is left.
pub open spec fn stream_parked_spec(
    variant: Variant,
    stage: Watermark,
    bytes: Seq<u8>,
    index: usize,
    status: Status,
) -> Stepped<Result<Streaming, Error>> {
    let listen = RegisterWrite::InterruptEnable(listen_flags(Event::TxFifoWatermark));
    match stage {
        Watermark::Check => match fault(variant, status) {
            Some(e) => Stepped { value: Err(e), writes: reset_writes(variant) },
            None => Stepped {
                value: Ok(Streaming::Continue { stage: Watermark::First, index, parked: false }),
                writes: seq![listen],
            },
        },
        _ => match poll_spec(variant, Event::TxFifoWatermark, status) {
            Poll::Ready(Err(e)) => Stepped { value: Err(e), writes: Seq::empty() },
            Poll::Pending => Stepped {
                value: Ok(Streaming::Continue { stage, index, parked: true }),
                writes: Seq::empty(),
            },
            Poll::Ready(Ok(())) => if stage is First {
                Stepped {
                    value: Ok(
                        Streaming::Continue { stage: Watermark::Second, index, parked: false },
                    ),
                    writes: seq![clear_watermark(), listen],
                }
            } else {
                push_next(bytes, index)
            },
        },
    }
}

/// One step of draining the receive FIFO: whether a byte is there to be
/// read. A fault ends the drain, with the controller reset.
pub open spec fn drain_spec(variant: Variant, status: Status) -> Stepped<Result<bool, Error>> {
    match fault(variant, status) {
        Some(e) => Stepped { value: Err(e), writes: reset_writes(variant) },
        None => Stepped {
            value: Ok(status.rx_fifo_read_pointer != status.rx_fifo_write_pointer),
            writes: Seq::empty(),
        },
    }
}

impl Driver {
    /// Primes the transmit FIFO by one step, on a fresh snapshot: pushes
    /// the byte at `index` unless none is left or the FIFO has overflowed,
    /// and then ends the priming and starts the transmission.
    ///
    /// The result is the count of bytes pushed, from which the streaming
    /// writer goes on, and whether priming has ended.
    pub fn fill_tx_fifo(&self, bytes: &[u8], index: usize, status: &Status, regs: &mut Vec<RegisterWrite>) -> (r:
        (usize, bool))
        ensures
            r == fill_spec(bytes@, index, *status).value,
            final(regs)@ == old(regs)@ + fill_spec(bytes@, index, *status).writes,
    {
        if index < bytes.len() && !status.raw.txfifo_ovf {
            regs.push(RegisterWrite::FifoData(bytes[index]));
            assert(regs@ =~= old(regs)@ + fill_spec(bytes@, index, *status).writes);
            return (index + 1, false);
        }
        let mut pushed = index;
        if status.raw.txfifo_ovf {
            // The byte that overflowed is not in the FIFO.
            if pushed > 0 {
                pushed = pushed - 1;
            }
            regs.push(
                RegisterWrite::InterruptClear(
                    InterruptFlags { txfifo_ovf: true, ..InterruptFlags::none() },
                ),
            );
        }
        self.start_transmission(regs);
        assert(regs@ =~= old(regs)@ + fill_spec(bytes@, index, *status).writes);
        (pushed, true)
    }

    /// Pushes the byte at `index`, or ends the stream when none is left.
    fn push_next_byte(&self, bytes: &[u8], index: usize, regs: &mut Vec<RegisterWrite>) -> (r:
        Result<Streaming, Error>)
        ensures
            r == push_next(bytes@, index).value,
            final(regs)@ == old(regs)@ + push_next(bytes@, index).writes,
    {
        if index >= bytes.len() {
            assert(regs@ =~= old(regs)@ + push_next(bytes@, index).writes);
            return Ok(Streaming::Done);
        }
        regs.push(RegisterWrite::FifoData(bytes[index]));
        assert(regs@ =~= old(regs)@ + push_next(bytes@, index).writes);
        Ok(Streaming::Continue { stage: Watermark::Check, index: index + 1, parked: false })
    }

    /// Goes on waiting at `stage` unless the snapshot shows a fault.
    fn keep_waiting_at(&self, stage: Watermark, index: usize, status: &Status, regs: &mut Vec<RegisterWrite>) -> (r:
        Result<Streaming, Error>)
        ensures
            r == keep_waiting(self.info.variant, stage, index, *status).value,
            final(regs)@ == old(regs)@ + keep_waiting(
                self.info.variant,
                stage,
                index,
                *status,
            ).writes,
    {
        match self.check_errors(status, regs) {
            Ok(()) => {
                assert(regs@ =~= old(regs)@ + Seq::<RegisterWrite>::empty());
                Ok(Streaming::Continue { stage, index, parked: false })
            },
            Err(e) => Err(e),
        }
    }

    /// Writes the bytes from `index` on into the transmit FIFO as it makes
    /// room, by one step on a fresh snapshot, polling for the watermark.
    pub fn write_remaining_tx_fifo_blocking(
        &self,
        stage: Watermark,
        bytes: &[u8],
        index: usize,
        status: &Status,
        regs: &mut Vec<RegisterWrite>,
    ) -> (r: Result<Streaming, Error>)
        ensures
            r == stream_spec(self.info.variant, stage, bytes@, index, *status).value,
            final(regs)@ == old(regs)@ + stream_spec(
                self.info.variant,
                stage,
                bytes@,
                index,
                *status,
            ).writes,
    {
        let seen = status.raw.txfifo_wm;
        match stage {
            Watermark::Check => {
                match self.check_errors(status, regs) {
                    Ok(()) => {},
                    Err(e) => {
                        return Err(e);
                    },
                }
                if !seen {
                    assert(regs@ =~= old(regs)@ + Seq::<RegisterWrite>::empty());
                    return Ok(Streaming::Continue { stage: Watermark::First, index, parked: false });
                }
            },
            Watermark::First => {
                if !seen {
                    return self.keep_waiting_at(Watermark::First, index, status, regs);
                }
            },
            Watermark::Second => {
                if !seen {
                    return self.keep_waiting_at(Watermark::Second, index, status, regs);
                }
                return self.push_next_byte(bytes, index, regs);
            },
        }
        regs.push(
            RegisterWrite::InterruptClear(
                InterruptFlags { txfifo_wm: true, ..InterruptFlags::none() },
            ),
        );
        assert(regs@ =~= old(regs)@ + seq![clear_watermark()]);
        Ok(Streaming::Continue { stage: Watermark::Second, index, parked: false })
    }

    /// Writes the bytes from `index` on into the transmit FIFO as it makes
    /// room, by one step on a fresh snapshot, parking on the watermark
    /// interrupt.
    pub fn write_remaining_tx_fifo(
        &self,
        stage: Watermark,
        bytes: &[u8],
        index: usize,
        status: &Status,
        state: &mut State,
        regs: &mut Vec<RegisterWrite>,
    ) -> (r: Result<Streaming, Error>)
        ensures
            r == stream_parked_spec(self.info.variant, stage, bytes@, index, *status).value,
            final(regs)@ == old(regs)@ + stream_parked_spec(
                self.info.variant,
                stage,
                bytes@,
                index,
                *status,
            ).writes,
            stage is Check ==> final(state).waker == old(state).waker,
            !(stage is Check) ==> final(state).waker == Wake::Pending,
    {
        match stage {
            Watermark::Check => {
                match self.check_errors(status, regs) {
                    Ok(()) => {},
                    Err(e) => {
                        return Err(e);
                    },
                }
                let _ = I2cFuture::new(Event::TxFifoWatermark, &self.info, regs);
                assert(regs@ =~= old(regs)@ + seq![
                    RegisterWrite::InterruptEnable(listen_flags(Event::TxFifoWatermark)),
                ]);
                Ok(Streaming::Continue { stage: Watermark::First, index, parked: false })
            },
            _ => {
                let wait = I2cFuture { event: Event::TxFifoWatermark, variant: self.info.variant };
                match wait.poll(status, state) {
                    Poll::Ready(Err(e)) => {
                        assert(regs@ =~= old(regs)@ + Seq::<RegisterWrite>::empty());
                        Err(e)
                    },
                    Poll::Pending => {
                        assert(regs@ =~= old(regs)@ + Seq::<RegisterWrite>::empty());
                        Ok(Streaming::Continue { stage, index, parked: true })
                    },
                    Poll::Ready(Ok(())) => {
                        match stage {
                            Watermark::First => {
                                regs.push(
                                    RegisterWrite::InterruptClear(
                                        InterruptFlags { txfifo_wm: true, ..InterruptFlags::none() },
                                    ),
                                );
                                let _ = I2cFuture::new(Event::TxFifoWatermark, &self.info, regs);
                                assert(regs@ =~= old(regs)@ + seq![
                                    clear_watermark(),
                                    RegisterWrite::InterruptEnable(
                                        listen_flags(Event::TxFifoWatermark),
                                    ),
                                ]);
                                Ok(
                                    Streaming::Continue {
                                        stage: Watermark::Second,
                                        index,
                                        parked: false,
                                    },
                                )
                            },
                            _ => self.push_next_byte(bytes, index, regs),
                        }
                    },
                }
            },
        }
    }

    /// Checks on a fresh snapshot whether the receive FIFO holds a byte to
    /// read: its read and write pointers differ.
    pub fn read_all_from_fifo_blocking(&self, status: &Status, regs: &mut Vec<RegisterWrite>) -> (r:
        Result<bool, Error>)
        ensures
            r == drain_spec(self.info.variant, *status).value,
            final(regs)@ == old(regs)@ + drain_spec(self.info.variant, *status).writes,
    {
        match self.check_errors(status, regs) {
            Ok(()) => {},
            Err(e) => {
                return Err(e);
            },
        }
        assert(regs@ =~= old(regs)@ + Seq::<RegisterWrite>::empty());
        Ok(status.rx_fifo_read_pointer != status.rx_fifo_write_pointer)
    }
}

} // verus!
