//! The master: a configured controller and the transactions it begins.

use vstd::prelude::*;
use crate::config::Config;
use crate::driver::{reset_writes, setup_spec, Driver};
use crate::error::ConfigError;
use crate::info::{event_flags, raised_events, EventSet, Info};
use crate::operation::{I2cAddress, Operation};
use crate::plan::{
    all_active, read_chunks, read_segments, transaction_chunks, transaction_segments, views,
    write_chunks, write_segments, Segment, SegmentView,
};
use crate::registers::{RegisterWrite, Status};
use crate::transfer::{ends_with, DriverMode, Transfer};
use crate::variant::Variant;

verus! {

/// A controller with its configuration.
#[derive(Debug, Clone, Copy, PartialEq, Eq, Structural)]
pub struct I2c {
    pub info: Info,
    pub config: Config,
    /// Frequency in hertz of the clock that feeds the controller.
    pub source_clock: u32,
}

/// The writes that bring the controller back after a failed transfer: its
/// clock is switched off and on, it is reset, and it is set up again with
/// its configuration.
pub open spec fn recovery_writes(variant: Variant, config: Config, source_clock: u32) -> Seq<
    RegisterWrite,
> {
    let lifecycle = seq![
        RegisterWrite::PeripheralDisable,
        RegisterWrite::PeripheralEnable,
        RegisterWrite::PeripheralReset,
    ];
    match setup_spec(variant, config, source_clock) {
        Ok(writes) => lifecycle + writes,
        Err(_) => lifecycle,
    }
}

/// The segments of a write that a read follows in one transaction: the
/// write keeps the bus unless there is nothing to read.
pub open spec fn write_read_chunks(size: nat, bytes: Seq<u8>, read_len: nat) -> Seq<SegmentView> {
    write_chunks(size, bytes, true, read_len == 0) + read_chunks(size, read_len, true, true, false)
}

impl I2c {
    /// Chip family of the controller.
    pub open spec fn variant(&self) -> Variant {
        self.info.variant
    }

    /// Whether the registers can hold the configuration.
    pub open spec fn wf(&self) -> bool {
        setup_spec(self.variant(), self.config, self.source_clock) is Ok
    }

    /// The writes that bring this controller back after a failed transfer.
    pub open spec fn recovery(&self) -> Seq<RegisterWrite> {
        recovery_writes(self.variant(), self.config, self.source_clock)
    }

    pub open spec fn spec_driver(&self) -> Driver {
        Driver { info: self.info }
    }

    /// The driver of the controller.
    #[verifier::when_used_as_spec(spec_driver)]
    pub fn driver(&self) -> (driver: Driver)
        ensures
            driver == self.spec_driver(),
    {
        Driver { info: self.info }
    }

    /// Queues the recovery of the controller.
    pub fn internal_recover(&self, regs: &mut Vec<RegisterWrite>)
        ensures
            final(regs)@ == old(regs)@ + self.recovery(),
    {
        regs.push(RegisterWrite::PeripheralDisable);
        regs.push(RegisterWrite::PeripheralEnable);
        regs.push(RegisterWrite::PeripheralReset);
        // The configuration was accepted before, so the result has nothing
        // to tell.
        let _ = self.driver().setup(&self.config, self.source_clock, regs);
        assert(regs@ =~= old(regs)@ + self.recovery());
    }

    /// Applies a new configuration.
    ///
    /// One that the registers cannot hold is rejected: nothing is queued,
    /// and the controller keeps the configuration it has.
    pub fn apply_config(&mut self, config: &Config, regs: &mut Vec<RegisterWrite>) -> (r: Result<
        (),
        ConfigError,
    >)
        ensures
            final(self).info == old(self).info,
            final(self).source_clock == old(self).source_clock,
            match setup_spec(old(self).variant(), *config, old(self).source_clock) {
                Ok(writes) => {
                    &&& r is Ok
                    &&& final(self).config == *config
                    &&& final(regs)@ == old(regs)@ + writes
                },
                Err(e) => {
                    &&& r == Err::<(), ConfigError>(e)
                    &&& final(self).config == old(self).config
                    &&& final(regs)@ == old(regs)@
                },
            },
            r is Ok ==> final(self).wf(),
            old(self).wf() ==> final(self).wf(),
    {
        match self.driver().setup(config, self.source_clock, regs) {
            Ok(()) => {
                self.config = *config;
                Ok(())
            },
            Err(e) => Err(e),
        }
    }

    /// Begins a transfer of `segments`, with the recovery of this
    /// controller.
    fn run(
        &self,
        mode: DriverMode,
        address: I2cAddress,
        segments: Vec<Segment>,
        regs: &mut Vec<RegisterWrite>,
    ) -> (transfer: Transfer)
        requires
            all_active(segments@),
        ensures
            transfer.driver == self.driver(),
            transfer.mode == mode,
            transfer.address == address,
            transfer.segments == segments,
            transfer.recovery@ == self.recovery(),
            transfer.received@ == Seq::<u8>::empty(),
            transfer.control == transfer.begin_spec(0).value,
            final(regs)@ == old(regs)@ + transfer.begin_spec(0).writes,
            transfer.wf(),
    {
        let mut recovery: Vec<RegisterWrite> = Vec::new();
        self.internal_recover(&mut recovery);
        assert(recovery@ =~= self.recovery());
        Transfer::new(self.driver(), mode, address, segments, recovery, regs)
    }
}

/// The recovery of a controller whose configuration the registers can hold
/// ends with a full reset of the controller.
pub proof fn lemma_recovery_ends_with_reset(i2c: I2c)
    requires
        i2c.wf(),
    ensures
        ends_with(i2c.recovery(), reset_writes(i2c.variant())),
{
    let tail = reset_writes(i2c.variant());
    let recovery = i2c.recovery();
    assert(recovery.subrange(recovery.len() - tail.len(), recovery.len() as int) =~= tail);
}

/// I2C master.
#[derive(Debug, Clone, Copy, PartialEq, Eq, Structural)]
pub struct I2cMaster {
    pub i2c: I2c,
    pub mode: DriverMode,
}

impl I2cMaster {
    /// Whether the registers can hold the configuration of the master.
    pub open spec fn wf(&self) -> bool {
        self.i2c.wf()
    }

    /// Creates a blocking master and queues the setup of its controller.
    ///
    /// `source_clock` is the frequency in hertz of the clock that feeds the
    /// controller. A configuration that the registers cannot hold is
    /// rejected, with nothing queued.
    pub fn new(info: Info, config: Config, source_clock: u32, regs: &mut Vec<RegisterWrite>) -> (r:
        Result<I2cMaster, ConfigError>)
        ensures
            match setup_spec(info.variant, config, source_clock) {
                Ok(writes) => {
                    &&& r == Ok::<I2cMaster, ConfigError>(
                        I2cMaster {
                            i2c: I2c { info, config, source_clock },
                            mode: DriverMode::Blocking,
                        },
                    )
                    &&& r->Ok_0.wf()
                    &&& final(regs)@ == old(regs)@ + writes
                },
                Err(e) => r == Err::<I2cMaster, ConfigError>(e) && final(regs)@ == old(regs)@,
            },
    {
        let master = I2cMaster {
            i2c: I2c { info, config, source_clock },
            mode: DriverMode::Blocking,
        };
        match master.i2c.driver().setup(&master.i2c.config, source_clock, regs) {
            Ok(()) => Ok(master),
            Err(e) => Err(e),
        }
    }

    /// Applies a new configuration.
    pub fn apply_config(&mut self, config: &Config, regs: &mut Vec<RegisterWrite>) -> (r: Result<
        (),
        ConfigError,
    >)
        ensures
            final(self).mode == old(self).mode,
            final(self).i2c.info == old(self).i2c.info,
            final(self).i2c.source_clock == old(self).i2c.source_clock,
            match setup_spec(old(self).i2c.variant(), *config, old(self).i2c.source_clock) {
                Ok(writes) => {
                    &&& r is Ok
                    &&& final(self).i2c.config == *config
                    &&& final(regs)@ == old(regs)@ + writes
                },
                Err(e) => {
                    &&& r == Err::<(), ConfigError>(e)
                    &&& final(self).i2c.config == old(self).i2c.config
                    &&& final(regs)@ == old(regs)@
                },
            },
            r is Ok ==> final(self).wf(),
            old(self).wf() ==> final(self).wf(),
    {
        self.i2c.apply_config(config, regs)
    }

    /// Queues what precedes the binding of an interrupt handler: every
    /// event is unlistened and cleared.
    pub fn set_interrupt_handler(&mut self, regs: &mut Vec<RegisterWrite>)
        ensures
            *final(self) == *old(self),
            final(regs)@ == old(regs)@ + seq![
                RegisterWrite::InterruptDisable(event_flags(old(self).i2c.variant(), Set::full())),
                RegisterWrite::InterruptClear(event_flags(old(self).i2c.variant(), Set::full())),
            ],
    {
        self.i2c.info.set_interrupt_handler(regs);
    }

    /// Queues the enabling of the interrupts of the given events.
    pub fn listen(&mut self, interrupts: EventSet, regs: &mut Vec<RegisterWrite>)
        ensures
            *final(self) == *old(self),
            final(regs)@ == old(regs)@.push(
                RegisterWrite::InterruptEnable(event_flags(old(self).i2c.variant(), interrupts@)),
            ),
    {
        self.i2c.info.enable_listen(interrupts, true, regs)
    }

    /// Queues the disabling of the interrupts of the given events.
    pub fn unlisten(&mut self, interrupts: EventSet, regs: &mut Vec<RegisterWrite>)
        ensures
            *final(self) == *old(self),
            final(regs)@ == old(regs)@.push(
                RegisterWrite::InterruptDisable(event_flags(old(self).i2c.variant(), interrupts@)),
            ),
    {
        self.i2c.info.enable_listen(interrupts, false, regs)
    }

    /// The events that the snapshot shows as raised.
    pub fn interrupts(&mut self, status: &Status) -> (events: EventSet)
        ensures
            *final(self) == *old(self),
            events@ == raised_events(old(self).i2c.variant(), *status),
    {
        self.i2c.info.interrupts(status)
    }

    /// Queues the clearing of the interrupts of the given events.
    pub fn clear_interrupts(&mut self, interrupts: EventSet, regs: &mut Vec<RegisterWrite>)
        ensures
            *final(self) == *old(self),
            final(regs)@ == old(regs)@.push(
                RegisterWrite::InterruptClear(event_flags(old(self).i2c.variant(), interrupts@)),
            ),
    {
        self.i2c.info.clear_interrupts(interrupts, regs)
    }

    /// The master with waits that park on the interrupt. The writes that
    /// precede the binding of the handler are queued; the shell binds
    /// [`crate::info::async_handler`] after them.
    pub fn into_async(self, regs: &mut Vec<RegisterWrite>) -> (master: I2cMaster)
        ensures
            master == (I2cMaster { i2c: self.i2c, mode: DriverMode::Async }),
            final(regs)@ == old(regs)@ + seq![
                RegisterWrite::InterruptDisable(event_flags(self.i2c.variant(), Set::full())),
                RegisterWrite::InterruptClear(event_flags(self.i2c.variant(), Set::full())),
            ],
    {
        let mut master = self;
        master.set_interrupt_handler(regs);
        I2cMaster { i2c: master.i2c, mode: DriverMode::Async }
    }

    /// The master with waits that poll. The shell disables the interrupt of
    /// the controller.
    pub fn into_blocking(self) -> (master: I2cMaster)
        ensures
            master == (I2cMaster { i2c: self.i2c, mode: DriverMode::Blocking }),
    {
        I2cMaster { i2c: self.i2c, mode: DriverMode::Blocking }
    }

    /// Begins the writing of `buffer` to the device at `address`, from a
    /// START condition to a STOP condition.
    pub fn write(&self, address: I2cAddress, buffer: &[u8], regs: &mut Vec<RegisterWrite>) -> (transfer:
        Transfer)
        ensures
            transfer.driver == self.i2c.driver(),
            transfer.mode == self.mode,
            transfer.address == address,
            views(transfer.segments@) == write_chunks(
                self.i2c.variant().chunk_size() as nat,
                buffer@,
                true,
                true,
            ),
            transfer.recovery@ == self.i2c.recovery(),
            transfer.received@ == Seq::<u8>::empty(),
            transfer.control == transfer.begin_spec(0).value,
            final(regs)@ == old(regs)@ + transfer.begin_spec(0).writes,
            transfer.wf(),
    {
        let segments = write_segments(self.i2c.info.variant, buffer, true, true);
        self.i2c.run(self.mode, address, segments, regs)
    }

    /// Begins the reading of `len` bytes from the device at `address`, from
    /// a START condition to a STOP condition. The last byte is not
    /// acknowledged.
    pub fn read(&self, address: I2cAddress, len: usize, regs: &mut Vec<RegisterWrite>) -> (transfer:
        Transfer)
        ensures
            transfer.driver == self.i2c.driver(),
            transfer.mode == self.mode,
            transfer.address == address,
            views(transfer.segments@) == read_chunks(
                self.i2c.variant().chunk_size() as nat,
                len as nat,
                true,
                true,
                false,
            ),
            transfer.recovery@ == self.i2c.recovery(),
            transfer.received@ == Seq::<u8>::empty(),
            transfer.control == transfer.begin_spec(0).value,
            final(regs)@ == old(regs)@ + transfer.begin_spec(0).writes,
            transfer.wf(),
    {
        let segments = read_segments(self.i2c.info.variant, len, true, true, false);
        self.i2c.run(self.mode, address, segments, regs)
    }

    /// Begins the writing of `write_buffer` to the device at `address` and
    /// then the reading of `read_len` bytes from it, in one transaction: the
    /// write ends without a STOP condition unless there is nothing to read.
    pub fn write_read(
        &self,
        address: I2cAddress,
        write_buffer: &[u8],
        read_len: usize,
        regs: &mut Vec<RegisterWrite>,
    ) -> (transfer: Transfer)
        ensures
            transfer.driver == self.i2c.driver(),
            transfer.mode == self.mode,
            transfer.address == address,
            views(transfer.segments@) == write_read_chunks(
                self.i2c.variant().chunk_size() as nat,
                write_buffer@,
                read_len as nat,
            ),
            transfer.recovery@ == self.i2c.recovery(),
            transfer.received@ == Seq::<u8>::empty(),
            transfer.control == transfer.begin_spec(0).value,
            final(regs)@ == old(regs)@ + transfer.begin_spec(0).writes,
            transfer.wf(),
    {
        let variant = self.i2c.info.variant;
        let mut segments = write_segments(variant, write_buffer, true, read_len == 0);
        let mut reads = read_segments(variant, read_len, true, true, false);
        let ghost written = segments@;
        let ghost read = reads@;
        segments.append(&mut reads);
        assert(views(segments@) =~= views(written) + views(read));
        self.i2c.run(self.mode, address, segments, regs)
    }

    /// Begins the operations on the device at `address` as one transaction.
    ///
    /// - Before the first operation a START condition and the address are
    ///   sent.
    /// - Data of adjacent operations of the same kind is sent one after the
    ///   other, without a STOP or a repeated START condition.
    /// - Between adjacent operations of different kinds a repeated START
    ///   condition and the address are sent.
    /// - After the last operation a STOP condition is sent.
    /// - If the last operation is a read, its last byte is not
    ///   acknowledged.
    pub fn transaction(
        &self,
        address: I2cAddress,
        operations: &Vec<Operation>,
        regs: &mut Vec<RegisterWrite>,
    ) -> (transfer: Transfer)
        ensures
            transfer.driver == self.i2c.driver(),
            transfer.mode == self.mode,
            transfer.address == address,
            views(transfer.segments@) == transaction_chunks(
                self.i2c.variant().chunk_size() as nat,
                operations@,
            ),
            transfer.recovery@ == self.i2c.recovery(),
            transfer.received@ == Seq::<u8>::empty(),
            transfer.control == transfer.begin_spec(0).value,
            final(regs)@ == old(regs)@ + transfer.begin_spec(0).writes,
            transfer.wf(),
    {
        let segments = transaction_segments(self.i2c.info.variant, operations);
        self.i2c.run(self.mode, address, segments, regs)
    }
}

} // verus!
