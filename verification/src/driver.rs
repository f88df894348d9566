//! The lower level of the driver: what to write to the peripheral to set it
//! up, to reset it and to program one operation, and how to read its faults.

use vstd::prelude::*;
use crate::command::{add_cmd, command_writes, Ack, Command, CommandList};
use crate::config::{BusTimeout, Config};
use crate::error::{AcknowledgeCheckFailedReason, ConfigError, Error};
use crate::info::Info;
use crate::operation::{I2cAddress, OperationType};
use crate::registers::{InterruptFlags, RegisterWrite, Status};
use crate::timing::{
    bus_timings, configure_clock, derived_timeout, frequency_fits, half_cycle,
    lemma_fitting_frequency_is_accepted, set_frequency_spec,
};
use crate::variant::Variant;

verus! {

/// Threshold, in clock cycles, of both input filters. The high period of
/// the first family is corrected for this value.
pub const FILTER_THRESHOLD: u8 = 7;

/// The driver of one controller.
#[derive(Debug, Clone, Copy, PartialEq, Eq, Structural)]
pub struct Driver {
    pub info: Info,
}

/// The write that latches the configuration, where the family needs one.
pub open spec fn update_config_writes(variant: Variant) -> Seq<RegisterWrite> {
    if variant.fifo_limited() {
        Seq::empty()
    } else {
        seq![RegisterWrite::ConfigUpdate]
    }
}

/// The writes that set the two input filters.
pub open spec fn set_filter_writes(
    variant: Variant,
    sda_threshold: Option<u8>,
    scl_threshold: Option<u8>,
) -> Seq<RegisterWrite> {
    if variant.fifo_limited() {
        seq![RegisterWrite::SdaFilter(sda_threshold), RegisterWrite::SclFilter(scl_threshold)]
    } else {
        seq![RegisterWrite::Filter { sda: sda_threshold, scl: scl_threshold }]
    }
}

/// The flags that a FIFO reset clears.
pub open spec fn fifo_flags(variant: Variant) -> InterruptFlags {
    if variant is Esp32 {
        InterruptFlags { rxfifo_full: true, ..InterruptFlags::none() }
    } else {
        InterruptFlags { rxfifo_wm: true, txfifo_wm: true, ..InterruptFlags::none() }
    }
}

/// The writes that reset both FIFOs.
pub open spec fn reset_fifo_writes(variant: Variant) -> Seq<RegisterWrite> {
    let reset = if variant is Esp32 {
        RegisterWrite::FifoReset { protect: false, rx_threshold: 1, tx_threshold: 32 }
    } else {
        RegisterWrite::FifoReset { protect: true, rx_threshold: 1, tx_threshold: 8 }
    };
    let cleared = seq![reset, RegisterWrite::FifoRelease, RegisterWrite::InterruptClear(fifo_flags(variant))];
    if variant is Esp32 {
        cleared
    } else {
        cleared + update_config_writes(variant)
    }
}

/// The writes that reset every command register.
pub open spec fn reset_command_list_writes(variant: Variant) -> Seq<RegisterWrite> {
    Seq::new(variant.command_slots() as nat, |i: int| RegisterWrite::CommandReset(i as usize))
}

/// The writes of a full reset: state machine, interrupts, FIFOs and command
/// list.
pub open spec fn reset_writes(variant: Variant) -> Seq<RegisterWrite> {
    let fsm = if variant is Esp32 {
        Seq::<RegisterWrite>::empty()
    } else {
        seq![RegisterWrite::FsmReset]
    };
    fsm + seq![RegisterWrite::InterruptClearMask(variant.interrupt_mask())] + reset_fifo_writes(
        variant,
    ) + reset_command_list_writes(variant)
}

/// What [`Driver::setup`] queues or fails with.
pub open spec fn setup_spec(variant: Variant, config: Config, source_clk: u32) -> Result<
    Seq<RegisterWrite>,
    ConfigError,
> {
    match set_frequency_spec(variant, source_clk, config.frequency, config.timeout) {
        Err(e) => Err(e),
        Ok(clock) => {
            let always_on = if variant is Esp32S2 {
                seq![RegisterWrite::RefAlwaysOn]
            } else {
                Seq::<RegisterWrite>::empty()
            };
            Ok(
                seq![RegisterWrite::MasterMode] + always_on + set_filter_writes(
                    variant,
                    Some(FILTER_THRESHOLD),
                    Some(FILTER_THRESHOLD),
                ) + clock + update_config_writes(variant) + reset_writes(variant),
            )
        },
    }
}

/// The setup succeeds for every configuration whose bus frequency derives
/// register values that exist and fit their fields, and whose timeout its
/// register can hold.
pub proof fn lemma_fitting_configuration_is_accepted(
    variant: Variant,
    config: Config,
    source_clk: u32,
)
    requires
        frequency_fits(variant, source_clk, config.frequency),
        derived_timeout(
            variant,
            config.timeout,
            half_cycle(variant, source_clk, config.frequency),
        ) is Some,
    ensures
        setup_spec(variant, config, source_clk) is Ok,
{
    lemma_fitting_frequency_is_accepted(variant, source_clk, config.frequency, config.timeout);
}

/// The reason that the hardware lets the driver estimate for a missing
/// acknowledge.
pub open spec fn estimated_reason(variant: Variant, status: Status) -> AcknowledgeCheckFailedReason {
    if !variant.locates_missing_acknowledge() {
        AcknowledgeCheckFailedReason::Unknown
    } else if status.tx_fifo_read_pointer <= 1 {
        AcknowledgeCheckFailedReason::Address
    } else {
        AcknowledgeCheckFailedReason::Data
    }
}

/// Estimates why an acknowledge check failed, on a best effort basis.
///
/// Only some families expose the read pointer of the transmit FIFO. There a
/// pointer of at most one means that the address byte went unacknowledged,
/// a larger one that a data byte did. This rests on observation, not on
/// documented behaviour. The other families report `Unknown`.
pub fn estimate_ack_failed_reason(variant: Variant, status: &Status) -> (reason:
    AcknowledgeCheckFailedReason)
    ensures
        reason == estimated_reason(variant, *status),
{
    if !variant.locates_missing_acknowledge() {
        AcknowledgeCheckFailedReason::Unknown
    } else if status.tx_fifo_read_pointer <= 1 {
        AcknowledgeCheckFailedReason::Address
    } else {
        AcknowledgeCheckFailedReason::Data
    }
}

/// The fault that a snapshot shows, if any. A bus timeout comes first, then
/// a missing acknowledge, then a lost arbitration. Where the controller tells
/// whether a response was received, a completed transmission without one is
/// unacknowledged data.
pub open spec fn fault(variant: Variant, status: Status) -> Option<Error> {
    if status.raw.time_out {
        Some(Error::Timeout)
    } else if status.raw.nack {
        Some(Error::AcknowledgeCheckFailed(estimated_reason(variant, status)))
    } else if status.raw.arbitration_lost {
        Some(Error::ArbitrationLost)
    } else if !(variant is Esp32) && status.raw.trans_complete && !status.response_received {
        Some(Error::AcknowledgeCheckFailed(AcknowledgeCheckFailedReason::Data))
    } else {
        None
    }
}

/// Whether the controller has left a command unfinished: a command register
/// that is not zero, does not hold END and is not marked done. An END is
/// left out because the first family never marks it done.
pub open spec fn command_unfinished(status: Status, i: int) -> bool {
    let command = status.commands@[i];
    command.bits != 0 && !command.is_end && !command.done
}

/// Whether any command register shows an unfinished command.
pub open spec fn commands_unfinished(status: Status) -> bool {
    exists|i: int| 0 <= i < status.commands@.len() && command_unfinished(status, i)
}

/// The command that a write operation queues for `len` bytes of payload, if
/// it queues one. With `start` the address byte is counted in.
pub open spec fn setup_write_commands(len: nat, start: bool) -> Seq<Command> {
    let write_len = if start {
        len + 1
    } else {
        len
    };
    if write_len > 0 {
        seq![Command::Write { ack_exp: Ack::Ack, ack_check_en: true, length: write_len as u8 }]
    } else {
        Seq::empty()
    }
}

/// Longest payload of one write operation.
pub open spec fn max_write_len(start: bool) -> nat {
    if start {
        254
    } else {
        255
    }
}

/// The commands that a read operation queues for `len` bytes: with `start`
/// a write of the address byte; a read that acknowledges every byte, for all
/// bytes if another read follows and for all but the last if none does; and
/// in that case a read of one byte that does not acknowledge it.
pub open spec fn setup_read_commands(len: nat, start: bool, will_continue: bool) -> Seq<Command> {
    let address = if start {
        seq![Command::Write { ack_exp: Ack::Ack, ack_check_en: true, length: 1 }]
    } else {
        Seq::<Command>::empty()
    };
    let initial_len = if will_continue {
        len
    } else {
        (len - 1) as nat
    };
    let acknowledged = if initial_len > 0 {
        seq![Command::Read { ack_value: Ack::Ack, length: initial_len as u8 }]
    } else {
        Seq::<Command>::empty()
    };
    let last = if will_continue {
        Seq::<Command>::empty()
    } else {
        seq![Command::Read { ack_value: Ack::Nack, length: 1 }]
    };
    address + acknowledged + last
}

/// Longest buffer of one read operation.
pub open spec fn max_read_len(will_continue: bool) -> nat {
    if will_continue {
        255
    } else {
        254
    }
}

/// The address byte, where an operation starts with one.
pub open spec fn address_writes(address: I2cAddress, direction: OperationType, start: bool) -> Seq<
    RegisterWrite,
> {
    if start {
        seq![RegisterWrite::FifoData(address.wire_byte(direction))]
    } else {
        Seq::empty()
    }
}

/// The writes of [`Driver::setup_write`] where it succeeds: the command
/// from slot `base` on, the configuration latch and the address byte.
pub open spec fn setup_write_writes(
    variant: Variant,
    addr: I2cAddress,
    len: nat,
    start: bool,
    base: nat,
) -> Seq<RegisterWrite> {
    command_writes(base, setup_write_commands(len, start)) + update_config_writes(variant)
        + address_writes(addr, OperationType::Write, start)
}

/// The writes of [`Driver::setup_read`] where it succeeds: the commands
/// from slot `base` on, the configuration latch and the address byte.
pub open spec fn setup_read_writes(
    variant: Variant,
    addr: I2cAddress,
    len: nat,
    start: bool,
    will_continue: bool,
    base: nat,
) -> Seq<RegisterWrite> {
    command_writes(base, setup_read_commands(len, start, will_continue)) + update_config_writes(
        variant,
    ) + address_writes(addr, OperationType::Read, start)
}

impl Driver {
    /// Queues the write that latches the configuration, where the family
    /// needs one.
    pub fn update_config(&self, regs: &mut Vec<RegisterWrite>)
        ensures
            final(regs)@ == old(regs)@ + update_config_writes(self.info.variant),
    {
        if !self.info.variant.fifo_limited() {
            regs.push(RegisterWrite::ConfigUpdate);
        }
        assert(regs@ =~= old(regs)@ + update_config_writes(self.info.variant));
    }

    /// Queues the start of the programmed command list.
    pub fn start_transmission(&self, regs: &mut Vec<RegisterWrite>)
        ensures
            final(regs)@ == old(regs)@.push(RegisterWrite::TransStart),
    {
        regs.push(RegisterWrite::TransStart);
    }

    /// Queues the clearing of every interrupt.
    pub fn clear_all_interrupts(&self, regs: &mut Vec<RegisterWrite>)
        ensures
            final(regs)@ == old(regs)@.push(
                RegisterWrite::InterruptClearMask(self.info.variant.interrupt_mask()),
            ),
    {
        regs.push(RegisterWrite::InterruptClearMask(self.info.variant.interrupt_mask()));
    }

    /// Queues the reset of every command register.
    pub fn reset_command_list(&self, regs: &mut Vec<RegisterWrite>)
        ensures
            final(regs)@ == old(regs)@ + reset_command_list_writes(self.info.variant),
    {
        let slots = self.info.variant.command_slots();
        let mut index: usize = 0;
        while index < slots
            invariant
                index <= slots,
                slots == self.info.variant.command_slots(),
                regs@ == old(regs)@ + Seq::new(
                    index as nat,
                    |i: int| RegisterWrite::CommandReset(i as usize),
                ),
            decreases slots - index,
        {
            regs.push(RegisterWrite::CommandReset(index));
            index = index + 1;
            assert(regs@ =~= old(regs)@ + Seq::new(
                index as nat,
                |i: int| RegisterWrite::CommandReset(i as usize),
            ));
        }
    }

    /// Queues the reset of the transmit and receive FIFOs.
    pub fn reset_fifo(&self, regs: &mut Vec<RegisterWrite>)
        ensures
            final(regs)@ == old(regs)@ + reset_fifo_writes(self.info.variant),
    {
        if self.info.variant.is_esp32() {
            regs.push(RegisterWrite::FifoReset { protect: false, rx_threshold: 1, tx_threshold: 32 });
            regs.push(RegisterWrite::FifoRelease);
            regs.push(
                RegisterWrite::InterruptClear(
                    InterruptFlags { rxfifo_full: true, ..InterruptFlags::none() },
                ),
            );
            assert(regs@ =~= old(regs)@ + reset_fifo_writes(self.info.variant));
        } else {
            regs.push(RegisterWrite::FifoReset { protect: true, rx_threshold: 1, tx_threshold: 8 });
            regs.push(RegisterWrite::FifoRelease);
            regs.push(
                RegisterWrite::InterruptClear(
                    InterruptFlags { rxfifo_wm: true, txfifo_wm: true, ..InterruptFlags::none() },
                ),
            );
            self.update_config(regs);
            assert(regs@ =~= old(regs)@ + reset_fifo_writes(self.info.variant));
        }
    }

    /// Queues the reset of the controller: state machine, pending
    /// interrupts, FIFOs and command list. It is safe in any state.
    pub fn reset(&self, regs: &mut Vec<RegisterWrite>)
        ensures
            final(regs)@ == old(regs)@ + reset_writes(self.info.variant),
    {
        // The first family cannot reset its state machine.
        if !self.info.variant.is_esp32() {
            regs.push(RegisterWrite::FsmReset);
        }
        self.clear_all_interrupts(regs);
        self.reset_fifo(regs);
        self.reset_command_list(regs);
        assert(regs@ =~= old(regs)@ + reset_writes(self.info.variant));
    }

    /// Queues the programming of the timing registers for a bus frequency.
    ///
    /// `source_clk` and `bus_freq` are in hertz. On an error nothing is
    /// queued.
    pub fn set_frequency(
        &self,
        source_clk: u32,
        bus_freq: u32,
        timeout: BusTimeout,
        regs: &mut Vec<RegisterWrite>,
    ) -> (r: Result<(), ConfigError>)
        ensures
            match set_frequency_spec(self.info.variant, source_clk, bus_freq, timeout) {
                Ok(writes) => r is Ok && final(regs)@ == old(regs)@ + writes,
                Err(e) => r == Err::<(), ConfigError>(e) && final(regs)@ == old(regs)@,
            },
    {
        match bus_timings(self.info.variant, source_clk, bus_freq, timeout) {
            Ok(timings) => configure_clock(self.info.variant, regs, &timings),
            Err(e) => Err(e),
        }
    }

    /// Queues the configuration of the controller: master mode, input
    /// filters, bus timing, and a full reset.
    ///
    /// `source_clk` is the frequency in hertz of the clock that feeds the
    /// controller. A configuration that the registers cannot hold is
    /// rejected, and then nothing is queued.
    pub fn setup(&self, config: &Config, source_clk: u32, regs: &mut Vec<RegisterWrite>) -> (r:
        Result<(), ConfigError>)
        ensures
            match setup_spec(self.info.variant, *config, source_clk) {
                Ok(writes) => r is Ok && final(regs)@ == old(regs)@ + writes,
                Err(e) => r == Err::<(), ConfigError>(e) && final(regs)@ == old(regs)@,
            },
    {
        let mut clock: Vec<RegisterWrite> = Vec::new();
        match self.set_frequency(source_clk, config.frequency, config.timeout, &mut clock) {
            Ok(()) => {},
            Err(e) => {
                return Err(e);
            },
        }
        let ghost clock_writes = clock@;
        regs.push(RegisterWrite::MasterMode);
        if self.info.variant.is_esp32s2() {
            regs.push(RegisterWrite::RefAlwaysOn);
        }
        // The high period of the first family assumes this threshold.
        set_filter(self.info.variant, Some(FILTER_THRESHOLD), Some(FILTER_THRESHOLD), regs);
        regs.append(&mut clock);
        self.update_config(regs);
        // Reset the entire peripheral, the FIFOs with it.
        self.reset(regs);
        assert(regs@ =~= old(regs)@ + setup_spec(self.info.variant, *config, source_clk)->Ok_0);
        Ok(())
    }

    /// Checks a snapshot for a fault of the transfer.
    ///
    /// Where the snapshot shows one, a full reset of the controller is
    /// queued before the fault is returned.
    pub fn check_errors(&self, status: &Status, regs: &mut Vec<RegisterWrite>) -> (r: Result<
        (),
        Error,
    >)
        ensures
            match fault(self.info.variant, *status) {
                Some(e) => r == Err::<(), Error>(e) && final(regs)@ == old(regs)@ + reset_writes(
                    self.info.variant,
                ),
                None => r is Ok && final(regs)@ == old(regs)@,
            },
    {
        let retval = if status.raw.time_out {
            Err(Error::Timeout)
        } else if status.raw.nack {
            Err(Error::AcknowledgeCheckFailed(estimate_ack_failed_reason(self.info.variant, status)))
        } else if status.raw.arbitration_lost {
            Err(Error::ArbitrationLost)
        } else if !self.info.variant.is_esp32() && status.raw.trans_complete
            && !status.response_received {
            Err(Error::AcknowledgeCheckFailed(AcknowledgeCheckFailedReason::Data))
        } else {
            Ok(())
        };
        if retval.is_err() {
            self.reset(regs);
        }
        retval
    }

    /// Checks that the controller has executed every command of the list.
    ///
    /// Fails with `ExecutionIncomplete` exactly if a command register of the
    /// snapshot is not zero, does not hold END and is not marked done.
    pub fn check_all_commands_done(&self, status: &Status) -> (r: Result<(), Error>)
        ensures
            r == if commands_unfinished(*status) {
                Err::<(), Error>(Error::ExecutionIncomplete)
            } else {
                Ok::<(), Error>(())
            },
    {
        let mut index: usize = 0;
        while index < status.commands.len()
            invariant
                index <= status.commands@.len(),
                forall|i: int| 0 <= i < index ==> !command_unfinished(*status, i),
            decreases status.commands@.len() - index,
        {
            let command = &status.commands[index];
            if command.bits != 0 && !command.is_end && !command.done {
                assert(command_unfinished(*status, index as int));
                return Err(Error::ExecutionIncomplete);
            }
            index = index + 1;
        }
        Ok(())
    }

    /// Programs the commands of a write of `bytes`, and with `start` queues
    /// the address byte for the transmit FIFO.
    ///
    /// With `start` the payload may have up to 254 bytes, as the address byte
    /// is sent by the same command, and without it up to 255; a longer one
    /// fails with `FifoExceeded`. No command is issued where there is nothing
    /// to send. On an error nothing changes.
    pub fn setup_write(
        &self,
        addr: I2cAddress,
        bytes: &[u8],
        start: bool,
        cmd_iterator: &mut CommandList,
        regs: &mut Vec<RegisterWrite>,
    ) -> (r: Result<(), Error>)
        ensures
            final(cmd_iterator).depth() == old(cmd_iterator).depth(),
            ({
                let commands = setup_write_commands(bytes@.len(), start);
                if bytes@.len() > max_write_len(start) {
                    &&& r == Err::<(), Error>(Error::FifoExceeded)
                    &&& final(cmd_iterator)@ == old(cmd_iterator)@
                    &&& final(regs)@ == old(regs)@
                } else if commands.len() > old(cmd_iterator).room() {
                    &&& r == Err::<(), Error>(Error::CommandNumberExceeded)
                    &&& final(cmd_iterator)@ == old(cmd_iterator)@
                    &&& final(regs)@ == old(regs)@
                } else {
                    &&& r is Ok
                    &&& final(cmd_iterator)@ == old(cmd_iterator)@ + commands
                    &&& final(regs)@ == old(regs)@ + setup_write_writes(
                        self.info.variant,
                        addr,
                        bytes@.len(),
                        start,
                        old(cmd_iterator)@.len(),
                    )
                }
            }),
    {
        let max_len: usize = if start {
            254
        } else {
            255
        };
        if bytes.len() > max_len {
            return Err(Error::FifoExceeded);
        }
        let write_len: usize = if start {
            bytes.len() + 1
        } else {
            bytes.len()
        };
        // Nothing to send, no command.
        if write_len > 0 {
            match add_cmd(
                cmd_iterator,
                Command::Write { ack_exp: Ack::Ack, ack_check_en: true, length: write_len as u8 },
                regs,
            ) {
                Ok(()) => {},
                Err(e) => {
                    return Err(e);
                },
            }
        }
        self.update_config(regs);
        if start {
            regs.push(RegisterWrite::FifoData(addr.wire_byte(OperationType::Write)));
        }
        proof {
            let commands = setup_write_commands(bytes@.len(), start);
            assert(cmd_iterator@ =~= old(cmd_iterator)@ + commands);
            assert(regs@ =~= old(regs)@ + setup_write_writes(
                self.info.variant,
                addr,
                bytes@.len(),
                start,
                old(cmd_iterator)@.len(),
            ));
        }
        Ok(())
    }

    /// Programs the commands of a read of `len` bytes, and with `start`
    /// queues the address byte for the transmit FIFO.
    ///
    /// A read of no bytes fails with `ZeroLengthInvalid`. A read may have up
    /// to 255 bytes if another read follows it (`will_continue`) and up to
    /// 254 if none does; a longer one fails with `FifoExceeded`. In both
    /// cases nothing changes. The device learns that a read ends by the
    /// missing acknowledge of its last byte alone, so all bytes before it
    /// are acknowledged. Where the command list runs out of slots, the
    /// commands that fit stay in it.
    pub fn setup_read(
        &self,
        addr: I2cAddress,
        len: usize,
        start: bool,
        will_continue: bool,
        cmd_iterator: &mut CommandList,
        regs: &mut Vec<RegisterWrite>,
    ) -> (r: Result<(), Error>)
        ensures
            final(cmd_iterator).depth() == old(cmd_iterator).depth(),
            ({
                let commands = setup_read_commands(len as nat, start, will_continue);
                let room = old(cmd_iterator).room();
                if len == 0 {
                    &&& r == Err::<(), Error>(Error::ZeroLengthInvalid)
                    &&& final(cmd_iterator)@ == old(cmd_iterator)@
                    &&& final(regs)@ == old(regs)@
                } else if len > max_read_len(will_continue) {
                    &&& r == Err::<(), Error>(Error::FifoExceeded)
                    &&& final(cmd_iterator)@ == old(cmd_iterator)@
                    &&& final(regs)@ == old(regs)@
                } else if commands.len() > room {
                    &&& r == Err::<(), Error>(Error::CommandNumberExceeded)
                    &&& final(cmd_iterator)@ == old(cmd_iterator)@ + commands.take(room as int)
                    &&& final(regs)@ == old(regs)@ + command_writes(
                        old(cmd_iterator)@.len(),
                        commands.take(room as int),
                    )
                } else {
                    &&& r is Ok
                    &&& final(cmd_iterator)@ == old(cmd_iterator)@ + commands
                    &&& final(regs)@ == old(regs)@ + setup_read_writes(
                        self.info.variant,
                        addr,
                        len as nat,
                        start,
                        will_continue,
                        old(cmd_iterator)@.len(),
                    )
                }
            }),
    {
        if len == 0 {
            return Err(Error::ZeroLengthInvalid);
        }
        let (max_len, initial_len): (usize, usize) = if will_continue {
            (255, len)
        } else {
            (254, len - 1)
        };
        if len > max_len {
            return Err(Error::FifoExceeded);
        }
        let ghost base = old(cmd_iterator)@.len();
        let mut commands: Vec<Command> = Vec::new();
        if start {
            commands.push(Command::Write { ack_exp: Ack::Ack, ack_check_en: true, length: 1 });
        }
        if initial_len > 0 {
            commands.push(Command::Read { ack_value: Ack::Ack, length: initial_len as u8 });
        }
        if !will_continue {
            // The last read of all: its byte is not acknowledged.
            commands.push(Command::Read { ack_value: Ack::Nack, length: 1 });
        }
        assert(commands@ =~= setup_read_commands(len as nat, start, will_continue));
        match add_cmds(cmd_iterator, &commands, regs) {
            Ok(()) => {},
            Err(e) => {
                return Err(e);
            },
        }
        self.update_config(regs);
        if start {
            regs.push(RegisterWrite::FifoData(addr.wire_byte(OperationType::Read)));
        }
        assert(regs@ =~= old(regs)@ + setup_read_writes(
            self.info.variant,
            addr,
            len as nat,
            start,
            will_continue,
            base,
        ));
        Ok(())
    }
}

/// Writes commands into the next free slots of the command list, in order,
/// until all are written or the list is full.
fn add_cmds(cmd_iterator: &mut CommandList, commands: &Vec<Command>, regs: &mut Vec<RegisterWrite>) -> (r:
    Result<(), Error>)
    ensures
        final(cmd_iterator).depth() == old(cmd_iterator).depth(),
        ({
            let room = old(cmd_iterator).room();
            let written = if commands@.len() > room {
                commands@.take(room as int)
            } else {
                commands@
            };
            &&& final(cmd_iterator)@ == old(cmd_iterator)@ + written
            &&& final(regs)@ == old(regs)@ + command_writes(old(cmd_iterator)@.len(), written)
            &&& r == if commands@.len() > room {
                Err::<(), Error>(Error::CommandNumberExceeded)
            } else {
                Ok::<(), Error>(())
            }
        }),
{
    let ghost room = old(cmd_iterator).room();
    let ghost base = old(cmd_iterator)@.len();
    let mut index: usize = 0;
    assert(cmd_iterator@ =~= old(cmd_iterator)@ + commands@.take(0));
    assert(regs@ =~= old(regs)@ + command_writes(base, commands@.take(0)));
    while index < commands.len()
        invariant
            index <= commands@.len(),
            index <= room,
            room == old(cmd_iterator).room(),
            base == old(cmd_iterator)@.len(),
            cmd_iterator.depth() == old(cmd_iterator).depth(),
            cmd_iterator@ == old(cmd_iterator)@ + commands@.take(index as int),
            regs@ == old(regs)@ + command_writes(base, commands@.take(index as int)),
        decreases commands@.len() - index,
    {
        let ghost queued = cmd_iterator@;
        let ghost written = regs@;
        match add_cmd(cmd_iterator, commands[index], regs) {
            Ok(()) => {},
            Err(e) => {
                assert(index == room);
                return Err(e);
            },
        }
        index = index + 1;
        assert(cmd_iterator@ =~= old(cmd_iterator)@ + commands@.take(index as int));
        assert(regs@ =~= old(regs)@ + command_writes(base, commands@.take(index as int)));
    }
    assert(commands@.take(index as int) =~= commands@);
    Ok(())
}

/// Queues the setting of the input filters. A threshold is the number of
/// clock cycles for which a pulse must last to pass the filter; a line
/// without a threshold gets no filter.
pub fn set_filter(
    variant: Variant,
    sda_threshold: Option<u8>,
    scl_threshold: Option<u8>,
    regs: &mut Vec<RegisterWrite>,
)
    ensures
        final(regs)@ == old(regs)@ + set_filter_writes(variant, sda_threshold, scl_threshold),
{
    if variant.fifo_limited() {
        regs.push(RegisterWrite::SdaFilter(sda_threshold));
        regs.push(RegisterWrite::SclFilter(scl_threshold));
    } else {
        regs.push(RegisterWrite::Filter { sda: sda_threshold, scl: scl_threshold });
    }
    assert(regs@ =~= old(regs)@ + set_filter_writes(variant, sda_threshold, scl_threshold));
}

} // verus!
