//! Programming one physical operation: the command list from START to STOP
//! or END, the address byte, and the start of the transmission.

use vstd::prelude::*;
use crate::command::{add_cmd, command_writes, Ack, Command, CommandList};
use crate::driver::{
    max_read_len, max_write_len, reset_command_list_writes, reset_fifo_writes,
    setup_read_commands, setup_read_writes, setup_write_commands, setup_write_writes, Driver,
};
use crate::error::Error;
use crate::operation::I2cAddress;
use crate::registers::RegisterWrite;
use crate::variant::Variant;

verus! {

/// Bytes that one operation of a FIFO-limited family carries at most: the
/// depth of its FIFOs, which is the chunk size of these families.
pub const FIFO_DEPTH: usize = 32;

/// A result with the register writes queued on the way to it.
pub struct Stepped<T> {
    pub value: T,
    pub writes: Seq<RegisterWrite>,
}

/// The START command, where an operation begins with one.
pub open spec fn start_commands(start: bool) -> Seq<Command> {
    if start {
        seq![Command::Start]
    } else {
        Seq::empty()
    }
}

/// The command that ends an operation: STOP, or END to keep the bus.
pub open spec fn end_command(stop: bool) -> Command {
    if stop {
        Command::Stop
    } else {
        Command::End
    }
}

/// The command list of a write of `len` bytes.
pub open spec fn write_commands(len: nat, start: bool, stop: bool) -> Seq<Command> {
    start_commands(start) + setup_write_commands(len, start) + seq![end_command(stop)]
}

/// The command list of a read of `len` bytes.
pub open spec fn read_commands(len: nat, start: bool, stop: bool, will_continue: bool) -> Seq<
    Command,
> {
    start_commands(start) + setup_read_commands(len, start, will_continue) + seq![
        end_command(stop),
    ]
}

/// The writes that push `bytes` into the transmit FIFO.
pub open spec fn payload_writes(bytes: Seq<u8>) -> Seq<RegisterWrite> {
    Seq::new(bytes.len(), |i: int| RegisterWrite::FifoData(bytes[i]))
}

/// The writes that every operation begins with: both FIFOs and the command
/// list reset, and the START command where there is one.
pub open spec fn operation_head(variant: Variant, start: bool) -> Seq<RegisterWrite> {
    reset_fifo_writes(variant) + reset_command_list_writes(variant) + command_writes(
        0,
        start_commands(start),
    )
}

/// The write of the command that ends the list, in slot `index`.
pub open spec fn end_write(index: nat, stop: bool) -> Seq<RegisterWrite> {
    seq![RegisterWrite::Command { index: index as usize, command: end_command(stop) }]
}

/// The writes that program a write operation, from the reset of the FIFOs
/// to the command that ends the list.
pub open spec fn write_program(
    variant: Variant,
    address: I2cAddress,
    len: nat,
    start: bool,
    stop: bool,
) -> Seq<RegisterWrite> {
    let first = start_commands(start).len();
    operation_head(variant, start) + setup_write_writes(variant, address, len, start, first)
        + end_write(first + setup_write_commands(len, start).len(), stop)
}

/// The writes that program a read operation and start it.
pub open spec fn read_program(
    variant: Variant,
    address: I2cAddress,
    len: nat,
    start: bool,
    stop: bool,
    will_continue: bool,
) -> Seq<RegisterWrite> {
    let first = start_commands(start).len();
    operation_head(variant, start) + setup_read_writes(
        variant,
        address,
        len,
        start,
        will_continue,
        first,
    ) + end_write(first + setup_read_commands(len, start, will_continue).len(), stop)
        + seq![RegisterWrite::TransStart]
}

/// What [`Driver::start_write_operation`] returns and queues.
///
/// A payload over the limit of one command fails after the head. On a
/// FIFO-limited family the payload may be as long as a chunk of the family
/// and no longer; it is pushed whole and the transmission starts. On the
/// others nothing is pushed yet.
pub open spec fn start_write_spec(
    variant: Variant,
    address: I2cAddress,
    bytes: Seq<u8>,
    start: bool,
    stop: bool,
) -> Stepped<Result<usize, Error>> {
    if bytes.len() > max_write_len(start) {
        Stepped { value: Err(Error::FifoExceeded), writes: operation_head(variant, start) }
    } else {
        let program = write_program(variant, address, bytes.len(), start, stop);
        if !variant.fifo_limited() {
            Stepped { value: Ok(0), writes: program }
        } else if bytes.len() > FIFO_DEPTH {
            Stepped { value: Err(Error::FifoExceeded), writes: program }
        } else {
            Stepped {
                value: Ok(bytes.len() as usize),
                writes: program + payload_writes(bytes) + seq![RegisterWrite::TransStart],
            }
        }
    }
}

/// What [`Driver::start_read_operation`] returns and queues.
pub open spec fn start_read_spec(
    variant: Variant,
    address: I2cAddress,
    len: nat,
    start: bool,
    stop: bool,
    will_continue: bool,
) -> Stepped<Result<(), Error>> {
    if len == 0 {
        Stepped { value: Err(Error::ZeroLengthInvalid), writes: operation_head(variant, start) }
    } else if len > max_read_len(will_continue) {
        Stepped { value: Err(Error::FifoExceeded), writes: operation_head(variant, start) }
    } else {
        Stepped {
            value: Ok(()),
            writes: read_program(variant, address, len, start, stop, will_continue),
        }
    }
}

/// The commands of a write operation: a START first, exactly if the
/// operation begins with one; one write command for the address byte and
/// the payload, unless there is neither; and last a STOP, exactly if the
/// operation ends with one, and an END if not.
pub proof fn lemma_write_commands(len: nat, start: bool, stop: bool)
    requires
        len <= max_write_len(start),
    ensures
        write_commands(len, start, stop) == start_commands(start) + (if start || len > 0 {
            seq![
                Command::Write {
                    ack_exp: Ack::Ack,
                    ack_check_en: true,
                    length: (if start {
                        len + 1
                    } else {
                        len
                    }) as u8,
                },
            ]
        } else {
            Seq::<Command>::empty()
        }) + seq![end_command(stop)],
        forall|k: int|
            0 <= k < write_commands(len, start, stop).len() ==> {
                &&& (#[trigger] write_commands(len, start, stop)[k] is Start) == (start && k == 0)
                &&& (write_commands(len, start, stop)[k] is Stop) == (stop && k
                    == write_commands(len, start, stop).len() - 1)
            },
{
}

/// The commands of a read operation: with a START, the START and a write
/// of the address byte; then a read that acknowledges every byte, of all
/// bytes if another read follows and of all but the last if none does;
/// then, if none does, a read of the last byte that does not acknowledge
/// it; and last a STOP, exactly if the operation ends with one, and an END
/// if not. Only the last byte of the last read goes unacknowledged.
pub proof fn lemma_read_commands(len: nat, start: bool, stop: bool, will_continue: bool)
    requires
        0 < len <= max_read_len(will_continue),
    ensures
        read_commands(len, start, stop, will_continue) == (if start {
            seq![
                Command::Start,
                Command::Write { ack_exp: Ack::Ack, ack_check_en: true, length: 1 },
            ]
        } else {
            Seq::<Command>::empty()
        }) + (if will_continue {
            seq![Command::Read { ack_value: Ack::Ack, length: len as u8 }]
        } else if len > 1 {
            seq![
                Command::Read { ack_value: Ack::Ack, length: (len - 1) as u8 },
                Command::Read { ack_value: Ack::Nack, length: 1 },
            ]
        } else {
            seq![Command::Read { ack_value: Ack::Nack, length: 1 }]
        }) + seq![end_command(stop)],
        forall|k: int|
            0 <= k < read_commands(len, start, stop, will_continue).len() ==> {
                &&& (#[trigger] read_commands(len, start, stop, will_continue)[k] is Start) == (
                start && k == 0)
                &&& (read_commands(len, start, stop, will_continue)[k] is Stop) == (stop && k
                    == read_commands(len, start, stop, will_continue).len() - 1)
            },
{
    let commands = read_commands(len, start, stop, will_continue);
    let expected = (if start {
        seq![Command::Start, Command::Write { ack_exp: Ack::Ack, ack_check_en: true, length: 1 }]
    } else {
        Seq::<Command>::empty()
    }) + (if will_continue {
        seq![Command::Read { ack_value: Ack::Ack, length: len as u8 }]
    } else if len > 1 {
        seq![
            Command::Read { ack_value: Ack::Ack, length: (len - 1) as u8 },
            Command::Read { ack_value: Ack::Nack, length: 1 },
        ]
    } else {
        seq![Command::Read { ack_value: Ack::Nack, length: 1 }]
    }) + seq![end_command(stop)];
    assert(commands =~= expected);
}

/// A write of at most one chunk of the family is accepted, on every
/// family, with or without START and STOP.
pub proof fn lemma_chunk_is_accepted_for_writing(
    variant: Variant,
    address: I2cAddress,
    bytes: Seq<u8>,
    start: bool,
    stop: bool,
)
    requires
        bytes.len() <= variant.chunk_size(),
    ensures
        start_write_spec(variant, address, bytes, start, stop).value is Ok,
{
}

/// A read of at least one byte and at most one chunk of the family is
/// accepted, on every family, whatever its flags.
pub proof fn lemma_chunk_is_accepted_for_reading(
    variant: Variant,
    address: I2cAddress,
    len: nat,
    start: bool,
    stop: bool,
    will_continue: bool,
)
    requires
        0 < len <= variant.chunk_size(),
    ensures
        start_read_spec(variant, address, len, start, stop, will_continue).value is Ok,
        variant.fifo_limited() ==> len <= FIFO_DEPTH,
{
}

/// Joining is associative: three pieces after a prefix.
proof fn lemma_joined3<T>(a: Seq<T>, b: Seq<T>, c: Seq<T>, d: Seq<T>)
    ensures
        a + b + c + d == a + (b + c + d),
{
    assert(a + b + c + d =~= a + (b + c + d));
}

/// Joining is associative: four pieces after a prefix.
proof fn lemma_joined4<T>(a: Seq<T>, b: Seq<T>, c: Seq<T>, d: Seq<T>, e: Seq<T>)
    ensures
        a + b + c + d + e == a + (b + c + d + e),
{
    assert(a + b + c + d + e =~= a + (b + c + d + e));
}

/// Queues every byte of `bytes` for the transmit FIFO.
fn push_payload(bytes: &[u8], regs: &mut Vec<RegisterWrite>)
    ensures
        final(regs)@ == old(regs)@ + payload_writes(bytes@),
{
    let mut index: usize = 0;
    assert(regs@ =~= old(regs)@ + payload_writes(bytes@.take(0)));
    while index < bytes.len()
        invariant
            index <= bytes@.len(),
            regs@ == old(regs)@ + payload_writes(bytes@.take(index as int)),
        decreases bytes@.len() - index,
    {
        regs.push(RegisterWrite::FifoData(bytes[index]));
        index = index + 1;
        assert(regs@ =~= old(regs)@ + payload_writes(bytes@.take(index as int)));
    }
    assert(bytes@.take(index as int) =~= bytes@);
}

impl Driver {
    /// Resets the FIFOs and the command list and writes the START command,
    /// where there is one.
    fn start_operation(&self, start: bool, regs: &mut Vec<RegisterWrite>) -> (cmd_iterator:
        CommandList)
        ensures
            final(regs)@ == old(regs)@ + operation_head(self.info.variant, start),
            cmd_iterator@ == start_commands(start),
            cmd_iterator.depth() == self.info.variant.command_slots(),
    {
        self.reset_fifo(regs);
        self.reset_command_list(regs);
        let mut cmd_iterator = CommandList::new(self.info.variant.command_slots());
        if start {
            let _ = add_cmd(&mut cmd_iterator, Command::Start, regs);
        }
        assert(cmd_iterator@ =~= start_commands(start));
        assert(regs@ =~= old(regs)@ + operation_head(self.info.variant, start));
        cmd_iterator
    }

    /// Programs a write operation.
    ///
    /// With `start` it begins with a START condition and the address, with
    /// `stop` it ends with a STOP condition. A FIFO-limited family takes the
    /// whole payload into its FIFO and starts transmitting; the result is
    /// the number of bytes pushed. On the other families the result is 0:
    /// the payload is pushed byte by byte afterwards, by
    /// [`Driver::fill_tx_fifo`], which also starts the transmission.
    pub fn start_write_operation(
        &self,
        address: I2cAddress,
        bytes: &[u8],
        start: bool,
        stop: bool,
        regs: &mut Vec<RegisterWrite>,
    ) -> (r: Result<usize, Error>)
        ensures
            r == start_write_spec(self.info.variant, address, bytes@, start, stop).value,
            final(regs)@ == old(regs)@ + start_write_spec(
                self.info.variant,
                address,
                bytes@,
                start,
                stop,
            ).writes,
    {
        let ghost before = regs@;
        let ghost head = operation_head(self.info.variant, start);
        let ghost first = start_commands(start).len();
        let ghost body = setup_write_commands(bytes@.len(), start);
        let ghost configured = setup_write_writes(
            self.info.variant,
            address,
            bytes@.len(),
            start,
            first,
        );
        let ghost ended = end_write(first + body.len(), stop);
        let mut cmd_iterator = self.start_operation(start, regs);
        assert(cmd_iterator.room() >= 7);
        assert(body.len() <= 1);
        match self.setup_write(address, bytes, start, &mut cmd_iterator, regs) {
            Ok(()) => {},
            Err(e) => {
                return Err(e);
            },
        }
        assert(cmd_iterator@.len() == first + body.len());
        let end = if stop {
            Command::Stop
        } else {
            Command::End
        };
        let _ = add_cmd(&mut cmd_iterator, end, regs);
        assert(regs@ == (before + head + configured).push(ended[0]));
        assert(regs@ =~= before + head + configured + ended);
        proof {
            lemma_joined3(before, head, configured, ended);
        }
        if !self.info.variant.fifo_limited() {
            return Ok(0);
        }
        // The FIFO is all there is: a longer transfer would need the
        // controller's non-FIFO mode.
        if bytes.len() > FIFO_DEPTH {
            return Err(Error::FifoExceeded);
        }
        let ghost program = head + configured + ended;
        push_payload(bytes, regs);
        self.start_transmission(regs);
        let ghost started = seq![RegisterWrite::TransStart];
        assert(regs@ =~= before + program + payload_writes(bytes@) + started);
        proof {
            lemma_joined3(before, program, payload_writes(bytes@), started);
        }
        Ok(bytes.len())
    }

    /// Programs a read operation and starts it.
    ///
    /// With `start` it begins with a START condition and the address, with
    /// `stop` it ends with a STOP condition. With `will_continue` another
    /// read follows, and the last byte of this one is acknowledged.
    pub fn start_read_operation(
        &self,
        address: I2cAddress,
        len: usize,
        start: bool,
        stop: bool,
        will_continue: bool,
        regs: &mut Vec<RegisterWrite>,
    ) -> (r: Result<(), Error>)
        ensures
            r == start_read_spec(
                self.info.variant,
                address,
                len as nat,
                start,
                stop,
                will_continue,
            ).value,
            final(regs)@ == old(regs)@ + start_read_spec(
                self.info.variant,
                address,
                len as nat,
                start,
                stop,
                will_continue,
            ).writes,
    {
        let ghost before = regs@;
        let ghost head = operation_head(self.info.variant, start);
        let ghost first = start_commands(start).len();
        let ghost body = setup_read_commands(len as nat, start, will_continue);
        let ghost configured = setup_read_writes(
            self.info.variant,
            address,
            len as nat,
            start,
            will_continue,
            first,
        );
        let ghost ended = end_write(first + body.len(), stop);
        let ghost started = seq![RegisterWrite::TransStart];
        let mut cmd_iterator = self.start_operation(start, regs);
        assert(cmd_iterator.room() >= 7);
        assert(body.len() <= 3);
        match self.setup_read(address, len, start, will_continue, &mut cmd_iterator, regs) {
            Ok(()) => {},
            Err(e) => {
                return Err(e);
            },
        }
        assert(cmd_iterator@.len() == first + body.len());
        let end = if stop {
            Command::Stop
        } else {
            Command::End
        };
        let _ = add_cmd(&mut cmd_iterator, end, regs);
        assert(regs@ == (before + head + configured).push(ended[0]));
        self.start_transmission(regs);
        assert(regs@ =~= before + head + configured + ended + started);
        proof {
            lemma_joined4(before, head, configured, ended, started);
        }
        Ok(())
    }
}

} // verus!
