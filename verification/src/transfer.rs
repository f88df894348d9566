//! The sequencer: runs the physical operations of a plan one after another,
//! from the programming of each to the end of its transmission, and stops
//! at the first that fails.
//!
//! A transfer never touches the peripheral. It queues register writes, and
//! says through [`Transfer::awaiting`] what it needs next: a snapshot of the
//! status registers, at once or after a wake, or a byte popped from the
//! receive FIFO. The shell performs the queued writes, gets what is awaited
//! and hands it to [`Transfer::on_status`] or [`Transfer::on_byte`], until
//! nothing is awaited.

use vstd::prelude::*;
use crate::completion::{park_spec, parked_spec, wait_spec};
use crate::driver::{reset_writes, Driver};
use crate::encode::{start_read_spec, start_write_spec, Stepped, FIFO_DEPTH};
use crate::error::Error;
use crate::fifo::{drain_spec, fill_spec, stream_parked_spec, stream_spec, Streaming, Watermark};
use crate::future::Poll;
use crate::info::{State, Wake};
use crate::operation::{I2cAddress, OpKind};
use crate::plan::{
    all_active, read_chunks, read_segments, views, write_chunks, write_segments, Segment,
};
use crate::registers::{RegisterWrite, Status};
use crate::variant::{Variant, MAX_ITERATIONS};

verus! {

/// How a transfer waits for the controller.
#[derive(Debug, Clone, Copy, PartialEq, Eq, Structural)]
pub enum DriverMode {
    /// It polls the status registers.
    Blocking,
    /// It parks until the interrupt handler wakes it.
    Async,
}

/// What a transfer needs from the shell to go on.
#[derive(Debug, Clone, Copy, PartialEq, Eq, Structural)]
pub enum Awaiting {
    /// Nothing: the transfer has ended.
    Nothing,
    /// A snapshot of the status registers, taken after the queued writes.
    Status,
    /// A snapshot taken after the interrupt handler has woken the wait.
    Wake,
    /// A snapshot taken after other tasks had their turn.
    Yield,
    /// The next byte of the receive FIFO.
    Byte,
}

/// Where a transfer stands within its current physical operation.
#[derive(Debug, Clone, Copy, PartialEq, Eq)]
pub enum Phase {
    /// Priming the transmit FIFO.
    Fill,
    /// Streaming the rest of the payload as the FIFO makes room.
    Stream(Watermark),
    /// Waiting for a byte to arrive in the receive FIFO.
    Drain,
    /// A byte is there to be read.
    Receive,
    /// About to park until the transmission ends. `reading` marks the wait
    /// of a FIFO-limited family before it reads what has arrived.
    Park { reading: bool },
    /// Waiting for the transmission to end.
    Wait { reading: bool },
    /// The transfer has ended, with this result.
    Finished(Result<(), Error>),
}

/// The moving part of a transfer.
#[derive(Debug, Clone, Copy, PartialEq, Eq)]
pub struct Control {
    /// Index of the current physical operation.
    pub cursor: usize,
    pub phase: Phase,
    /// Bytes of the current operation pushed or read so far.
    pub index: usize,
    /// Polls that a blocking wait has left.
    pub remaining: u32,
    /// Whether the last poll found nothing, so that the next one follows a
    /// wake or a yield.
    pub parked: bool,
}

impl Control {
    pub open spec fn spec_at(cursor: usize, phase: Phase) -> Control {
        Control { cursor, phase, index: 0, remaining: 0, parked: false }
    }

    /// The beginning of `phase` in operation `cursor`.
    #[verifier::when_used_as_spec(spec_at)]
    pub fn at(cursor: usize, phase: Phase) -> (control: Control)
        ensures
            control == Self::spec_at(cursor, phase),
    {
        Control { cursor, phase, index: 0, remaining: 0, parked: false }
    }
}

/// A transaction in flight.
#[derive(Debug)]
pub struct Transfer {
    pub driver: Driver,
    pub mode: DriverMode,
    pub address: I2cAddress,
    /// The physical operations, in order.
    pub segments: Vec<Segment>,
    /// The writes that bring the peripheral back after a failure.
    pub recovery: Vec<RegisterWrite>,
    /// The bytes read so far, in order.
    pub received: Vec<u8>,
    pub control: Control,
}

/// Queues every write of `writes`.
fn queue_all(regs: &mut Vec<RegisterWrite>, writes: &Vec<RegisterWrite>)
    ensures
        final(regs)@ == old(regs)@ + writes@,
{
    let mut index: usize = 0;
    assert(regs@ =~= old(regs)@ + writes@.take(0));
    while index < writes.len()
        invariant
            index <= writes@.len(),
            regs@ == old(regs)@ + writes@.take(index as int),
        decreases writes@.len() - index,
    {
        regs.push(writes[index]);
        index = index + 1;
        assert(regs@ =~= old(regs)@ + writes@.take(index as int));
    }
    assert(writes@.take(index as int) =~= writes@);
}

impl Transfer {
    /// Chip family of the controller.
    pub open spec fn variant(&self) -> Variant {
        self.driver.info.variant
    }

    /// Whether waits park on the interrupt: in `Async` mode, on a family
    /// that can.
    pub open spec fn parks(&self) -> bool {
        self.mode is Async && !(self.variant() is Esp32)
    }

    /// The current physical operation.
    pub open spec fn segment(&self) -> Segment {
        self.segments@[self.control.cursor as int]
    }

    /// Whether the wait of the current phase takes the end of the command
    /// list alone for the end of the transmission.
    pub open spec fn end_only(&self, reading: bool) -> bool {
        !reading && !self.segment().stop
    }

    /// The invariant of a transfer: every operation asks something of the
    /// bus; until the end the cursor is on one; and while bytes are read,
    /// some are left to read.
    pub open spec fn wf(&self) -> bool {
        &&& all_active(self.segments@)
        &&& match self.control.phase {
            Phase::Finished(_) => true,
            Phase::Drain | Phase::Receive => self.control.cursor < self.segments@.len()
                && self.control.index < self.segment().len,
            Phase::Park { reading } | Phase::Wait { reading } => self.control.cursor
                < self.segments@.len() && (reading ==> self.segment().len > 0),
            _ => self.control.cursor < self.segments@.len(),
        }
    }

    /// What the transfer needs next.
    pub open spec fn spec_awaiting(&self) -> Awaiting {
        match self.control.phase {
            Phase::Finished(_) => Awaiting::Nothing,
            Phase::Receive => Awaiting::Byte,
            _ => if !self.control.parked {
                Awaiting::Status
            } else if self.variant() is Esp32 {
                Awaiting::Yield
            } else {
                Awaiting::Wake
            },
        }
    }

    /// Whether the transfer awaits a snapshot.
    pub open spec fn awaits_status(&self) -> bool {
        !(self.control.phase is Finished) && !(self.control.phase is Receive)
    }

    /// The result, once the transfer has ended.
    pub open spec fn spec_outcome(&self) -> Option<Result<(), Error>> {
        match self.control.phase {
            Phase::Finished(result) => Some(result),
            _ => None,
        }
    }

    /// Whether `other` runs the same plan.
    pub open spec fn same_plan(&self, other: Transfer) -> bool {
        &&& self.driver == other.driver
        &&& self.mode == other.mode
        &&& self.address == other.address
        &&& self.segments == other.segments
        &&& self.recovery == other.recovery
    }

    /// The transfer fails with `e` after `writes`: the recovery follows
    /// them.
    pub open spec fn failed(&self, e: Error, writes: Seq<RegisterWrite>) -> Stepped<Control> {
        Stepped {
            value: Control::at(self.control.cursor, Phase::Finished(Err(e))),
            writes: writes + self.recovery@,
        }
    }

    /// The beginning of a wait for the end of the transmission of operation
    /// `cursor`. A polled wait has its full count of polls, and a tenth of
    /// it where it yields between them.
    pub open spec fn wait_control(&self, cursor: usize, reading: bool) -> Control {
        if self.parks() {
            Control::at(cursor, Phase::Park { reading })
        } else {
            Control {
                remaining: if self.mode is Async {
                    MAX_ITERATIONS / 10
                } else {
                    MAX_ITERATIONS
                },
                ..Control::at(cursor, Phase::Wait { reading })
            }
        }
    }

    /// What the start of operation `cursor` queues and leads to.
    ///
    /// After the last operation the transfer ends with success. Else every
    /// interrupt is cleared and the operation is programmed. A write on a
    /// FIFO-limited family is then under way and awaits its end; on the
    /// others its payload is primed. A read on a FIFO-limited family must
    /// fit the FIFO, and awaits the end of the transmission to read it; on
    /// the others it is drained byte by byte.
    pub open spec fn begin_spec(&self, cursor: usize) -> Stepped<Control> {
        if cursor >= self.segments@.len() {
            Stepped { value: Control::at(cursor, Phase::Finished(Ok(()))), writes: Seq::empty() }
        } else {
            let at = Transfer { control: Control::at(cursor, Phase::Fill), ..*self };
            let segment = self.segments@[cursor as int];
            let variant = self.variant();
            let clear = seq![RegisterWrite::InterruptClearMask(variant.interrupt_mask())];
            match segment.kind {
                OpKind::Write => {
                    let started = start_write_spec(
                        variant,
                        self.address,
                        segment.data@,
                        segment.start,
                        segment.stop,
                    );
                    match started.value {
                        Err(e) => at.failed(e, clear + started.writes),
                        Ok(_) => Stepped {
                            value: if variant.fifo_limited() {
                                self.wait_control(cursor, false)
                            } else {
                                Control::at(cursor, Phase::Fill)
                            },
                            writes: clear + started.writes,
                        },
                    }
                },
                OpKind::Read => {
                    let started = start_read_spec(
                        variant,
                        self.address,
                        segment.len as nat,
                        segment.start,
                        segment.stop,
                        segment.will_continue,
                    );
                    match started.value {
                        Err(e) => at.failed(e, clear + started.writes),
                        Ok(_) => if !variant.fifo_limited() {
                            Stepped {
                                value: Control::at(cursor, Phase::Drain),
                                writes: clear + started.writes,
                            }
                        } else if segment.len > FIFO_DEPTH {
                            at.failed(Error::FifoExceeded, clear + started.writes)
                        } else {
                            Stepped {
                                value: self.wait_control(cursor, true),
                                writes: clear + started.writes,
                            }
                        },
                    }
                },
            }
        }
    }

    /// A snapshot while the transmit FIFO is primed.
    pub open spec fn fill_step(&self, status: Status) -> Stepped<Control> {
        let filled = fill_spec(self.segment().data@, self.control.index, status);
        Stepped {
            value: Control {
                phase: if filled.value.1 {
                    Phase::Stream(Watermark::Check)
                } else {
                    Phase::Fill
                },
                index: filled.value.0,
                ..self.control
            },
            writes: filled.writes,
        }
    }

    /// A snapshot while the payload is streamed.
    pub open spec fn stream_step(&self, stage: Watermark, status: Status) -> Stepped<Control> {
        let streamed = if self.mode is Blocking {
            stream_spec(self.variant(), stage, self.segment().data@, self.control.index, status)
        } else {
            stream_parked_spec(
                self.variant(),
                stage,
                self.segment().data@,
                self.control.index,
                status,
            )
        };
        match streamed.value {
            Err(e) => self.failed(e, streamed.writes),
            Ok(Streaming::Done) => Stepped {
                value: self.wait_control(self.control.cursor, false),
                writes: streamed.writes,
            },
            Ok(Streaming::Continue { stage, index, parked }) => Stepped {
                value: Control { phase: Phase::Stream(stage), index, parked, ..self.control },
                writes: streamed.writes,
            },
        }
    }

    /// A snapshot while the receive FIFO is drained.
    pub open spec fn drain_step(&self, status: Status) -> Stepped<Control> {
        let drained = drain_spec(self.variant(), status);
        match drained.value {
            Err(e) => self.failed(e, drained.writes),
            Ok(ready) => Stepped {
                value: if ready {
                    Control { phase: Phase::Receive, ..self.control }
                } else {
                    self.control
                },
                writes: drained.writes,
            },
        }
    }

    /// A snapshot before the transfer parks for the end of the
    /// transmission.
    pub open spec fn park_step(&self, reading: bool, status: Status) -> Stepped<Control> {
        let parked = park_spec(self.variant(), self.end_only(reading), status);
        match parked.value {
            Err(e) => self.failed(e, parked.writes),
            Ok(_) => Stepped {
                value: Control::at(self.control.cursor, Phase::Wait { reading }),
                writes: parked.writes,
            },
        }
    }

    /// A snapshot while the transfer waits for the end of the transmission.
    ///
    /// When the transmission has ended well, a FIFO-limited read goes on to
    /// read what has arrived, and every other operation is done: the next
    /// one begins.
    pub open spec fn wait_step(&self, reading: bool, status: Status) -> Stepped<Control> {
        let waited = if self.parks() {
            Stepped {
                value: parked_spec(self.variant(), self.end_only(reading), status),
                writes: Seq::empty(),
            }
        } else {
            wait_spec(self.variant(), self.end_only(reading), self.control.remaining, status)
        };
        match waited.value {
            Poll::Pending => Stepped {
                value: Control {
                    remaining: if self.parks() {
                        self.control.remaining
                    } else {
                        (self.control.remaining - 1) as u32
                    },
                    parked: self.mode is Async,
                    ..self.control
                },
                writes: waited.writes,
            },
            Poll::Ready(Err(e)) => self.failed(e, waited.writes),
            Poll::Ready(Ok(_)) => if reading {
                Stepped {
                    value: Control::at(self.control.cursor, Phase::Receive),
                    writes: waited.writes,
                }
            } else {
                let next = self.begin_spec((self.control.cursor + 1) as usize);
                Stepped { value: next.value, writes: waited.writes + next.writes }
            },
        }
    }

    /// What a snapshot leads to and queues.
    pub open spec fn status_spec(&self, status: Status) -> Stepped<Control> {
        match self.control.phase {
            Phase::Fill => self.fill_step(status),
            Phase::Stream(stage) => self.stream_step(stage, status),
            Phase::Drain => self.drain_step(status),
            Phase::Park { reading } => self.park_step(reading, status),
            Phase::Wait { reading } => self.wait_step(reading, status),
            _ => Stepped { value: self.control, writes: Seq::empty() },
        }
    }

    /// Whether a snapshot is judged by a parked wait, which takes the wake
    /// slot.
    pub open spec fn takes_wake_slot(&self) -> bool {
        match self.control.phase {
            Phase::Stream(stage) => self.mode is Async && !(stage is Check),
            Phase::Wait { .. } => self.parks(),
            _ => false,
        }
    }

    /// What a byte from the receive FIFO leads to: the next byte, or after
    /// the last one the wait for the end of the transmission.
    pub open spec fn byte_spec(&self) -> Control {
        let index = (self.control.index + 1) as usize;
        if index < self.segment().len {
            Control {
                phase: if self.variant().fifo_limited() {
                    Phase::Receive
                } else {
                    Phase::Drain
                },
                index,
                ..self.control
            }
        } else {
            self.wait_control(self.control.cursor, false)
        }
    }

    /// What the transfer needs next.
    #[verifier::when_used_as_spec(spec_awaiting)]
    pub fn awaiting(&self) -> (awaiting: Awaiting)
        ensures
            awaiting == self.spec_awaiting(),
    {
        match self.control.phase {
            Phase::Finished(_) => Awaiting::Nothing,
            Phase::Receive => Awaiting::Byte,
            _ => if !self.control.parked {
                Awaiting::Status
            } else if self.driver.info.variant.is_esp32() {
                Awaiting::Yield
            } else {
                Awaiting::Wake
            },
        }
    }

    /// The result, once the transfer has ended.
    #[verifier::when_used_as_spec(spec_outcome)]
    pub fn outcome(&self) -> (outcome: Option<Result<(), Error>>)
        ensures
            outcome == self.spec_outcome(),
    {
        match self.control.phase {
            Phase::Finished(result) => Some(result),
            _ => None,
        }
    }

    /// The bytes read, in order: those of every read operation, one after
    /// another.
    pub fn into_received(self) -> (received: Vec<u8>)
        ensures
            received == self.received,
    {
        self.received
    }

    /// Ends the transfer with `e`, and queues the recovery.
    fn fail(&mut self, e: Error, regs: &mut Vec<RegisterWrite>)
        ensures
            final(self).same_plan(*old(self)),
            final(self).received == old(self).received,
            final(self).control == Control::at(old(self).control.cursor, Phase::Finished(Err(e))),
            final(regs)@ == old(regs)@ + old(self).recovery@,
    {
        self.control = Control::at(self.control.cursor, Phase::Finished(Err(e)));
        queue_all(regs, &self.recovery);
    }

    /// Begins the wait for the end of the transmission of operation
    /// `cursor`.
    fn enter_wait(&mut self, cursor: usize, reading: bool)
        ensures
            final(self).same_plan(*old(self)),
            final(self).received == old(self).received,
            final(self).control == old(self).wait_control(cursor, reading),
    {
        let parks = match self.mode {
            DriverMode::Async => !self.driver.info.variant.is_esp32(),
            DriverMode::Blocking => false,
        };
        if parks {
            self.control = Control::at(cursor, Phase::Park { reading });
        } else {
            let remaining: u32 = match self.mode {
                // The wait yields between polls, so it gets fewer of them.
                DriverMode::Async => MAX_ITERATIONS / 10,
                DriverMode::Blocking => MAX_ITERATIONS,
            };
            self.control = Control {
                cursor,
                phase: Phase::Wait { reading },
                index: 0,
                remaining,
                parked: false,
            };
        }
    }

    /// Begins operation `cursor`, or ends the transfer after the last one.
    fn begin(&mut self, cursor: usize, regs: &mut Vec<RegisterWrite>)
        requires
            all_active(old(self).segments@),
        ensures
            final(self).same_plan(*old(self)),
            final(self).received == old(self).received,
            final(self).control == old(self).begin_spec(cursor).value,
            final(regs)@ == old(regs)@ + old(self).begin_spec(cursor).writes,
            final(self).wf(),
    {
        if cursor >= self.segments.len() {
            self.control = Control::at(cursor, Phase::Finished(Ok(())));
            assert(regs@ =~= old(regs)@ + Seq::<RegisterWrite>::empty());
            return ;
        }
        self.control = Control::at(cursor, Phase::Fill);
        let driver = self.driver;
        let limited = driver.info.variant.fifo_limited();
        let ghost clear = seq![
            RegisterWrite::InterruptClearMask(driver.info.variant.interrupt_mask()),
        ];
        driver.clear_all_interrupts(regs);
        assert(regs@ =~= old(regs)@ + clear);
        let segment = &self.segments[cursor];
        assert(segment@.active());
        match segment.kind {
            OpKind::Write => {
                let ghost started = start_write_spec(
                    driver.info.variant,
                    self.address,
                    segment.data@,
                    segment.start,
                    segment.stop,
                );
                let result = driver.start_write_operation(
                    self.address,
                    segment.data.as_slice(),
                    segment.start,
                    segment.stop,
                    regs,
                );
                proof {
                    lemma_joined(old(regs)@, clear, started.writes);
                }
                match result {
                    Err(e) => {
                        self.fail(e, regs);
                        proof {
                            lemma_joined(old(regs)@, clear + started.writes, self.recovery@);
                        }
                    },
                    Ok(_) => {
                        if limited {
                            self.enter_wait(cursor, false);
                        }
                    },
                }
            },
            OpKind::Read => {
                let len = segment.len;
                let ghost started = start_read_spec(
                    driver.info.variant,
                    self.address,
                    segment.len as nat,
                    segment.start,
                    segment.stop,
                    segment.will_continue,
                );
                let result = driver.start_read_operation(
                    self.address,
                    segment.len,
                    segment.start,
                    segment.stop,
                    segment.will_continue,
                    regs,
                );
                proof {
                    lemma_joined(old(regs)@, clear, started.writes);
                }
                match result {
                    Err(e) => {
                        self.fail(e, regs);
                        proof {
                            lemma_joined(old(regs)@, clear + started.writes, self.recovery@);
                        }
                    },
                    Ok(()) => {
                        if !limited {
                            self.control = Control::at(cursor, Phase::Drain);
                        } else if len > FIFO_DEPTH {
                            // The FIFO is all there is: a longer transfer
                            // would need the controller's non-FIFO mode.
                            self.fail(Error::FifoExceeded, regs);
                            proof {
                                lemma_joined(old(regs)@, clear + started.writes, self.recovery@);
                            }
                        } else {
                            self.enter_wait(cursor, true);
                        }
                    },
                }
            },
        }
    }

    /// Takes a snapshot while the transmit FIFO is primed.
    fn step_fill(&mut self, status: &Status, regs: &mut Vec<RegisterWrite>)
        requires
            old(self).wf(),
            old(self).control.phase is Fill,
        ensures
            final(self).same_plan(*old(self)),
            final(self).received == old(self).received,
            final(self).control == old(self).fill_step(*status).value,
            final(regs)@ == old(regs)@ + old(self).fill_step(*status).writes,
            final(self).wf(),
    {
        let driver = self.driver;
        let segment = &self.segments[self.control.cursor];
        let (index, done) = driver.fill_tx_fifo(
            segment.data.as_slice(),
            self.control.index,
            status,
            regs,
        );
        self.control.index = index;
        if done {
            self.control.phase = Phase::Stream(Watermark::Check);
        }
    }

    /// Takes a snapshot while the payload is streamed.
    fn step_stream(
        &mut self,
        stage: Watermark,
        status: &Status,
        state: &mut State,
        regs: &mut Vec<RegisterWrite>,
    )
        requires
            old(self).wf(),
            old(self).control.phase == Phase::Stream(stage),
        ensures
            final(self).same_plan(*old(self)),
            final(self).received == old(self).received,
            final(self).control == old(self).stream_step(stage, *status).value,
            final(regs)@ == old(regs)@ + old(self).stream_step(stage, *status).writes,
            final(self).wf(),
            final(state).waker == if old(self).takes_wake_slot() {
                Wake::Pending
            } else {
                old(state).waker
            },
    {
        let driver = self.driver;
        let segment = &self.segments[self.control.cursor];
        let streamed = match self.mode {
            DriverMode::Blocking => driver.write_remaining_tx_fifo_blocking(
                stage,
                segment.data.as_slice(),
                self.control.index,
                status,
                regs,
            ),
            DriverMode::Async => driver.write_remaining_tx_fifo(
                stage,
                segment.data.as_slice(),
                self.control.index,
                status,
                state,
                regs,
            ),
        };
        match streamed {
            Err(e) => {
                self.fail(e, regs);
            },
            Ok(Streaming::Done) => {
                self.enter_wait(self.control.cursor, false);
            },
            Ok(Streaming::Continue { stage, index, parked }) => {
                self.control.phase = Phase::Stream(stage);
                self.control.index = index;
                self.control.parked = parked;
            },
        }
    }

    /// Takes a snapshot while the receive FIFO is drained.
    fn step_drain(&mut self, status: &Status, regs: &mut Vec<RegisterWrite>)
        requires
            old(self).wf(),
            old(self).control.phase is Drain,
        ensures
            final(self).same_plan(*old(self)),
            final(self).received == old(self).received,
            final(self).control == old(self).drain_step(*status).value,
            final(regs)@ == old(regs)@ + old(self).drain_step(*status).writes,
            final(self).wf(),
    {
        let driver = self.driver;
        match driver.read_all_from_fifo_blocking(status, regs) {
            Err(e) => {
                self.fail(e, regs);
            },
            Ok(ready) => {
                if ready {
                    self.control.phase = Phase::Receive;
                }
            },
        }
    }

    /// Takes a snapshot before the transfer parks for the end of the
    /// transmission.
    fn step_park(&mut self, reading: bool, status: &Status, regs: &mut Vec<RegisterWrite>)
        requires
            old(self).wf(),
            old(self).control.phase == (Phase::Park { reading }),
        ensures
            final(self).same_plan(*old(self)),
            final(self).received == old(self).received,
            final(self).control == old(self).park_step(reading, *status).value,
            final(regs)@ == old(regs)@ + old(self).park_step(reading, *status).writes,
            final(self).wf(),
    {
        let driver = self.driver;
        let end_only = !reading && !self.segments[self.control.cursor].stop;
        match driver.wait_for_completion(end_only, status, regs) {
            Err(e) => {
                self.fail(e, regs);
            },
            Ok(()) => {
                self.control = Control::at(self.control.cursor, Phase::Wait { reading });
            },
        }
    }

    /// Takes a snapshot while the transfer waits for the end of the
    /// transmission.
    fn step_wait(
        &mut self,
        reading: bool,
        status: &Status,
        state: &mut State,
        regs: &mut Vec<RegisterWrite>,
    )
        requires
            old(self).wf(),
            old(self).control.phase == (Phase::Wait { reading }),
        ensures
            final(self).same_plan(*old(self)),
            final(self).received == old(self).received,
            final(self).control == old(self).wait_step(reading, *status).value,
            final(regs)@ == old(regs)@ + old(self).wait_step(reading, *status).writes,
            final(self).wf(),
            final(state).waker == if old(self).takes_wake_slot() {
                Wake::Pending
            } else {
                old(state).waker
            },
    {
        let driver = self.driver;
        let end_only = !reading && !self.segments[self.control.cursor].stop;
        let parks = match self.mode {
            DriverMode::Async => !driver.info.variant.is_esp32(),
            DriverMode::Blocking => false,
        };
        let mut remaining = self.control.remaining;
        let ghost waited_writes = if parks {
            Seq::<RegisterWrite>::empty()
        } else {
            wait_spec(
                driver.info.variant,
                end_only,
                self.control.remaining,
                *status,
            ).writes
        };
        let waited = if parks {
            assert(regs@ =~= old(regs)@ + waited_writes);
            driver.poll_completion(end_only, status, state)
        } else {
            driver.wait_for_completion_blocking(end_only, &mut remaining, status, regs)
        };
        match waited {
            Poll::Pending => {
                self.control.remaining = remaining;
                self.control.parked = match self.mode {
                    DriverMode::Async => true,
                    DriverMode::Blocking => false,
                };
            },
            Poll::Ready(Err(e)) => {
                self.fail(e, regs);
            },
            Poll::Ready(Ok(())) => {
                if reading {
                    // The transmission has ended: what was read is in the
                    // FIFO.
                    self.control = Control::at(self.control.cursor, Phase::Receive);
                } else {
                    assert(self.control.cursor < self.segments.len());
                    let cursor = self.control.cursor + 1;
                    let ghost next = self.begin_spec(cursor);
                    self.begin(cursor, regs);
                    proof {
                        lemma_joined(old(regs)@, waited_writes, next.writes);
                    }
                }
            },
        }
    }

    /// Begins a transfer of `segments` to the device at `address`.
    ///
    /// The writes that program the first operation are queued at once. The
    /// writes of `recovery` are queued whenever the transfer fails.
    pub fn new(
        driver: Driver,
        mode: DriverMode,
        address: I2cAddress,
        segments: Vec<Segment>,
        recovery: Vec<RegisterWrite>,
        regs: &mut Vec<RegisterWrite>,
    ) -> (transfer: Transfer)
        requires
            all_active(segments@),
        ensures
            transfer.driver == driver,
            transfer.mode == mode,
            transfer.address == address,
            transfer.segments == segments,
            transfer.recovery == recovery,
            transfer.received@ == Seq::<u8>::empty(),
            transfer.control == transfer.begin_spec(0).value,
            final(regs)@ == old(regs)@ + transfer.begin_spec(0).writes,
            transfer.wf(),
    {
        let mut transfer = Transfer {
            driver,
            mode,
            address,
            segments,
            recovery,
            received: Vec::new(),
            control: Control::at(0, Phase::Fill),
        };
        let ghost initial = transfer;
        transfer.begin(0, regs);
        assert(initial.begin_spec(0) == transfer.begin_spec(0));
        transfer
    }

    /// Hands the transfer the snapshot that it awaits.
    ///
    /// The transfer moves as [`Transfer::status_spec`] says and queues its
    /// writes. A parked wait takes the wake slot of `state` before it
    /// judges the snapshot.
    pub fn on_status(&mut self, status: &Status, state: &mut State, regs: &mut Vec<RegisterWrite>)
        requires
            old(self).wf(),
            old(self).awaits_status(),
        ensures
            final(self).same_plan(*old(self)),
            final(self).received == old(self).received,
            final(self).control == old(self).status_spec(*status).value,
            final(regs)@ == old(regs)@ + old(self).status_spec(*status).writes,
            final(self).wf(),
            final(state).waker == if old(self).takes_wake_slot() {
                Wake::Pending
            } else {
                old(state).waker
            },
    {
        match self.control.phase {
            Phase::Fill => self.step_fill(status, regs),
            Phase::Stream(stage) => self.step_stream(stage, status, state, regs),
            Phase::Drain => self.step_drain(status, regs),
            Phase::Park { reading } => self.step_park(reading, status, regs),
            Phase::Wait { reading } => self.step_wait(reading, status, state, regs),
            _ => {},
        }
    }

    /// Hands the transfer the byte that it awaits from the receive FIFO.
    ///
    /// The byte is the next of the bytes read. After the last byte of the
    /// operation the transfer waits for the end of the transmission.
    pub fn on_byte(&mut self, byte: u8)
        requires
            old(self).wf(),
            old(self).control.phase is Receive,
        ensures
            final(self).same_plan(*old(self)),
            final(self).received@ == old(self).received@.push(byte),
            final(self).control == old(self).byte_spec(),
            final(self).wf(),
    {
        self.received.push(byte);
        let index = self.control.index + 1;
        if index < self.segments[self.control.cursor].len {
            self.control.index = index;
            if !self.driver.info.variant.fifo_limited() {
                self.control.phase = Phase::Drain;
            }
        } else {
            self.enter_wait(self.control.cursor, false);
        }
    }
}

/// Joining is associative.
proof fn lemma_joined<T>(a: Seq<T>, b: Seq<T>, c: Seq<T>)
    ensures
        a + b + c == a + (b + c),
{
    assert(a + b + c =~= a + (b + c));
}

/// Whether `writes` ends with `tail`.
pub open spec fn ends_with(writes: Seq<RegisterWrite>, tail: Seq<RegisterWrite>) -> bool {
    writes.len() >= tail.len() && writes.subrange(writes.len() - tail.len(), writes.len() as int)
        == tail
}

/// What is joined last is the end.
pub proof fn lemma_ends_with_joined(head: Seq<RegisterWrite>, tail: Seq<RegisterWrite>)
    ensures
        ends_with(head + tail, tail),
{
    let joined = head + tail;
    assert(joined.subrange(joined.len() - tail.len(), joined.len() as int) =~= tail);
}

/// A transfer that fails at its start has queued its recovery last.
pub proof fn lemma_failed_start_ends_with_recovery(transfer: Transfer, cursor: usize)
    requires
        transfer.begin_spec(cursor).value.phase matches Phase::Finished(Err(_)),
    ensures
        ends_with(transfer.begin_spec(cursor).writes, transfer.recovery@),
{
    let at = Transfer { control: Control::at(cursor, Phase::Fill), ..transfer };
    let begun = transfer.begin_spec(cursor);
    let variant = transfer.variant();
    let clear = seq![RegisterWrite::InterruptClearMask(variant.interrupt_mask())];
    let segment = transfer.segments@[cursor as int];
    match segment.kind {
        OpKind::Write => {
            let started = start_write_spec(
                variant,
                transfer.address,
                segment.data@,
                segment.start,
                segment.stop,
            );
            lemma_ends_with_joined(clear + started.writes, transfer.recovery@);
        },
        OpKind::Read => {
            let started = start_read_spec(
                variant,
                transfer.address,
                segment.len as nat,
                segment.start,
                segment.stop,
                segment.will_continue,
            );
            lemma_ends_with_joined(clear + started.writes, transfer.recovery@);
        },
    }
}

/// An operation of at most one chunk of the family begins without an
/// error, on every family: what the plans of this crate cut is accepted.
pub proof fn lemma_chunk_begins(transfer: Transfer, cursor: usize)
    requires
        cursor < transfer.segments@.len(),
        transfer.segments@[cursor as int]@.wf(),
        transfer.segments@[cursor as int]@.active(),
        transfer.segments@[cursor as int].len <= transfer.variant().chunk_size(),
    ensures
        !(transfer.begin_spec(cursor).value.phase is Finished),
{
}

/// A transfer that a snapshot makes fail has queued its recovery last:
/// whatever the fault and wherever it strikes, the writes that bring the
/// peripheral back are the last before the error is reported.
pub proof fn lemma_failure_ends_with_recovery(transfer: Transfer, status: Status)
    requires
        transfer.awaits_status(),
        transfer.status_spec(status).value.phase matches Phase::Finished(Err(_)),
    ensures
        ends_with(transfer.status_spec(status).writes, transfer.recovery@),
{
    let stepped = transfer.status_spec(status);
    match transfer.control.phase {
        Phase::Fill => {},
        Phase::Stream(stage) => {
            let streamed = if transfer.mode is Blocking {
                stream_spec(
                    transfer.variant(),
                    stage,
                    transfer.segment().data@,
                    transfer.control.index,
                    status,
                )
            } else {
                stream_parked_spec(
                    transfer.variant(),
                    stage,
                    transfer.segment().data@,
                    transfer.control.index,
                    status,
                )
            };
            lemma_ends_with_joined(streamed.writes, transfer.recovery@);
        },
        Phase::Drain => {
            lemma_ends_with_joined(drain_spec(transfer.variant(), status).writes, transfer.recovery@);
        },
        Phase::Park { reading } => {
            lemma_ends_with_joined(
                park_spec(transfer.variant(), transfer.end_only(reading), status).writes,
                transfer.recovery@,
            );
        },
        Phase::Wait { reading } => {
            let waited = if transfer.parks() {
                Stepped {
                    value: parked_spec(transfer.variant(), transfer.end_only(reading), status),
                    writes: Seq::empty(),
                }
            } else {
                wait_spec(
                    transfer.variant(),
                    transfer.end_only(reading),
                    transfer.control.remaining,
                    status,
                )
            };
            match waited.value {
                Poll::Ready(Ok(_)) => {
                    if !reading {
                        let cursor = (transfer.control.cursor + 1) as usize;
                        let next = transfer.begin_spec(cursor);
                        lemma_failed_start_ends_with_recovery(transfer, cursor);
                        let tail = transfer.recovery@;
                        let head = next.writes.subrange(0, next.writes.len() - tail.len());
                        assert(next.writes =~= head + tail);
                        assert(waited.writes + next.writes =~= (waited.writes + head) + tail);
                        lemma_ends_with_joined(waited.writes + head, tail);
                    }
                },
                _ => {
                    lemma_ends_with_joined(waited.writes, transfer.recovery@);
                },
            }
        },
        _ => {},
    }
}

impl Driver {
    /// Begins a write of `buffer` to the device at `address`, in chunks of
    /// the family's size.
    ///
    /// With `start` the write begins with a START condition and the
    /// address, with `stop` it ends with a STOP condition. A write of
    /// nothing with neither is no operation: the transfer has ended with
    /// success, and nothing is queued. Where the transfer fails, the full
    /// reset of the controller is queued before the error is reported.
    pub fn write(
        &self,
        mode: DriverMode,
        address: I2cAddress,
        buffer: &[u8],
        start: bool,
        stop: bool,
        regs: &mut Vec<RegisterWrite>,
    ) -> (transfer: Transfer)
        ensures
            transfer.driver == *self,
            transfer.mode == mode,
            transfer.address == address,
            views(transfer.segments@) == write_chunks(
                self.info.variant.chunk_size() as nat,
                buffer@,
                start,
                stop,
            ),
            transfer.recovery@ == reset_writes(self.info.variant),
            transfer.received@ == Seq::<u8>::empty(),
            transfer.control == transfer.begin_spec(0).value,
            final(regs)@ == old(regs)@ + transfer.begin_spec(0).writes,
            transfer.wf(),
            buffer@.len() == 0 && !start && !stop ==> transfer.outcome() == Some(
                Ok::<(), Error>(()),
            ) && final(regs)@ == old(regs)@,
    {
        let segments = write_segments(self.info.variant, buffer, start, stop);
        let ghost planned = segments@;
        let mut recovery: Vec<RegisterWrite> = Vec::new();
        self.reset(&mut recovery);
        assert(recovery@ =~= reset_writes(self.info.variant));
        let transfer = Transfer::new(*self, mode, address, segments, recovery, regs);
        proof {
            if buffer@.len() == 0 && !start && !stop {
                assert(views(planned).len() == 0);
                assert(regs@ =~= old(regs)@);
            }
        }
        transfer
    }

    /// Begins a read of `len` bytes from the device at `address`, in chunks
    /// of the family's size.
    ///
    /// With `start` the read begins with a START condition and the address,
    /// with `stop` it ends with a STOP condition, and with `will_continue`
    /// its last byte is acknowledged, as another read follows. A read of
    /// nothing is no operation: the transfer has ended with success, and
    /// nothing is queued. Where the transfer fails, the full reset of the
    /// controller is queued before the error is reported.
    pub fn read(
        &self,
        mode: DriverMode,
        address: I2cAddress,
        len: usize,
        start: bool,
        stop: bool,
        will_continue: bool,
        regs: &mut Vec<RegisterWrite>,
    ) -> (transfer: Transfer)
        ensures
            transfer.driver == *self,
            transfer.mode == mode,
            transfer.address == address,
            views(transfer.segments@) == read_chunks(
                self.info.variant.chunk_size() as nat,
                len as nat,
                start,
                stop,
                will_continue,
            ),
            transfer.recovery@ == reset_writes(self.info.variant),
            transfer.received@ == Seq::<u8>::empty(),
            transfer.control == transfer.begin_spec(0).value,
            final(regs)@ == old(regs)@ + transfer.begin_spec(0).writes,
            transfer.wf(),
            len == 0 ==> transfer.outcome() == Some(Ok::<(), Error>(())) && final(regs)@ == old(
                regs,
            )@,
    {
        let segments = read_segments(self.info.variant, len, start, stop, will_continue);
        let ghost planned = segments@;
        let mut recovery: Vec<RegisterWrite> = Vec::new();
        self.reset(&mut recovery);
        assert(recovery@ =~= reset_writes(self.info.variant));
        let transfer = Transfer::new(*self, mode, address, segments, recovery, regs);
        proof {
            if len == 0 {
                vstd::arithmetic::div_mod::lemma_basic_div(
                    (self.info.variant.chunk_size() - 1) as int,
                    self.info.variant.chunk_size() as int,
                );
                assert(views(planned).len() == 0);
                assert(regs@ =~= old(regs)@);
            }
        }
        transfer
    }
}

} // verus!
