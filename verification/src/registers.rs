//! The register file as the driver sees it: writes that it queues for the
//! shell, and the snapshot of the status registers that the shell hands back.

use vstd::prelude::*;
use crate::command::Command;

verus! {

/// One flag for each interrupt of the controller that the driver uses.
///
/// The same set of flags describes the raw interrupt register, the enable
/// register and a write to the clear register.
#[derive(Debug, Clone, Copy, PartialEq, Eq, Structural)]
pub struct InterruptFlags {
    /// An END command was processed.
    pub end_detect: bool,
    /// A STOP condition ended the transmission.
    pub trans_complete: bool,
    pub arbitration_lost: bool,
    pub time_out: bool,
    pub nack: bool,
    pub txfifo_wm: bool,
    pub rxfifo_wm: bool,
    pub txfifo_ovf: bool,
    pub rxfifo_full: bool,
}

impl InterruptFlags {
    pub open spec fn spec_none() -> InterruptFlags {
        InterruptFlags {
            end_detect: false,
            trans_complete: false,
            arbitration_lost: false,
            time_out: false,
            nack: false,
            txfifo_wm: false,
            rxfifo_wm: false,
            txfifo_ovf: false,
            rxfifo_full: false,
        }
    }

    /// No flag.
    #[verifier::when_used_as_spec(spec_none)]
    pub fn none() -> (flags: InterruptFlags)
        ensures
            flags == Self::spec_none(),
    {
        InterruptFlags {
            end_detect: false,
            trans_complete: false,
            arbitration_lost: false,
            time_out: false,
            nack: false,
            txfifo_wm: false,
            rxfifo_wm: false,
            txfifo_ovf: false,
            rxfifo_full: false,
        }
    }
}

/// A write to the peripheral, by register and named field. The shell performs
/// queued writes in the order of the queue.
#[derive(Debug, Clone, Copy, PartialEq, Eq, Structural)]
pub enum RegisterWrite {
    /// Control register, written whole: master mode, SDA and SCL driven open
    /// drain, most significant bit first in both directions, clock enabled.
    MasterMode,
    /// Control register: keep the reference clock always on.
    RefAlwaysOn,
    /// Control register: latch the written configuration.
    ConfigUpdate,
    /// Control register: reset the state machine.
    FsmReset,
    /// Control register: start executing the command list.
    TransStart,
    /// SDA filter register: set the threshold if one is given, and enable the
    /// filter exactly if one is given.
    SdaFilter(Option<u8>),
    /// SCL filter register, as for SDA.
    SclFilter(Option<u8>),
    /// The filter register that serves both lines, as above for each.
    Filter { sda: Option<u8>, scl: Option<u8> },
    /// Clock register: select the crystal clock and set the divider field.
    ClockDivider(u8),
    SclLowPeriod(u16),
    /// High period register of a controller without a wait-high field.
    SclHighPeriod(u16),
    /// High period register with its wait-high field.
    SclHighWaitPeriod { period: u16, wait_high: u16 },
    SdaHold(u16),
    SdaSample(u16),
    SclRstartSetup(u16),
    SclStopSetup(u16),
    SclStartHold(u16),
    SclStopHold(u16),
    /// Timeout register of a controller without an enable flag.
    TimeoutCycles(u32),
    /// Timeout register with its enable flag.
    Timeout { enable: bool, value: u32 },
    /// Interrupt clear register, written as raw bits.
    InterruptClearMask(u32),
    /// Interrupt clear register: clear the given flags.
    InterruptClear(InterruptFlags),
    /// Interrupt enable register: set the given flags, keep the others.
    InterruptEnable(InterruptFlags),
    /// Interrupt enable register: clear the given flags, keep the others.
    InterruptDisable(InterruptFlags),
    /// FIFO configuration register: hold both FIFOs in reset, select FIFO
    /// mode and set the two thresholds. `protect` sets the pointer
    /// protection bit where the controller has one.
    FifoReset { protect: bool, rx_threshold: u8, tx_threshold: u8 },
    /// FIFO configuration register: release both FIFOs from reset.
    FifoRelease,
    /// Command register `index`: back to its reset value.
    CommandReset(usize),
    /// Command register `index`, written whole.
    Command { index: usize, command: Command },
    /// Data register: push one byte into the transmit FIFO.
    FifoData(u8),
    /// Peripheral clock gate: off.
    PeripheralDisable,
    /// Peripheral clock gate: on.
    PeripheralEnable,
    /// Peripheral reset line: pulse.
    PeripheralReset,
}

/// What the driver reads of one command register.
#[derive(Debug, Clone, Copy, PartialEq, Eq, Structural)]
pub struct CommandStatus {
    /// The register as raw bits.
    pub bits: u32,
    /// Whether the opcode field holds END.
    pub is_end: bool,
    /// Whether the controller has marked the command done.
    pub done: bool,
}

/// Snapshot of the registers that the driver reads.
#[derive(Debug, Clone, PartialEq, Eq)]
pub struct Status {
    /// Raw interrupt register.
    pub raw: InterruptFlags,
    /// Interrupt enable register.
    pub enabled: InterruptFlags,
    /// Status register: a response was received.
    pub response_received: bool,
    /// FIFO status register: read pointer of the transmit FIFO.
    pub tx_fifo_read_pointer: u8,
    /// FIFO status register: read pointer of the receive FIFO.
    pub rx_fifo_read_pointer: u8,
    /// FIFO status register: write pointer of the receive FIFO.
    pub rx_fifo_write_pointer: u8,
    /// The command registers, in order.
    pub commands: Vec<CommandStatus>,
}

} // verus!
