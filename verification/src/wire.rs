//! The commands that a plan issues in all, and how many of a kind.

use vstd::prelude::*;
use crate::command::Command;
use crate::command::{command_writes, Ack};
use crate::driver::{
    reset_command_list_writes, reset_fifo_writes, setup_read_commands, setup_read_writes,
    setup_write_commands, setup_write_writes,
};
use crate::encode::{
    end_command, end_write, operation_head, read_program, write_program, lemma_read_commands, lemma_write_commands, read_commands, start_commands,
    write_commands,
};
use crate::operation::{I2cAddress, OpKind, Operation};
use crate::registers::RegisterWrite;
use crate::variant::Variant;
use crate::plan::{
    lemma_two_writes_share_start_and_stop, lemma_write_then_two_reads, transaction_chunks,
    SegmentView,
};

verus! {

/// The command list of a physical operation.
pub open spec fn segment_commands(segment: SegmentView) -> Seq<Command> {
    match segment.kind {
        OpKind::Write => write_commands(segment.len, segment.start, segment.stop),
        OpKind::Read => read_commands(
            segment.len,
            segment.start,
            segment.stop,
            segment.will_continue,
        ),
    }
}

/// The commands that the physical operations of `plan` issue, in order.
pub open spec fn all_commands(plan: Seq<SegmentView>) -> Seq<Command>
    decreases plan.len(),
{
    if plan.len() == 0 {
        Seq::empty()
    } else {
        all_commands(plan.drop_last()) + segment_commands(plan.last())
    }
}

/// How often `wanted` occurs among `commands`.
pub open spec fn occurrences(commands: Seq<Command>, wanted: Command) -> nat
    decreases commands.len(),
{
    if commands.len() == 0 {
        0
    } else {
        occurrences(commands.drop_last(), wanted) + if commands.last() == wanted {
            1nat
        } else {
            0nat
        }
    }
}

/// How often the physical operations of `plan` issue `wanted` in all.
pub open spec fn issued(plan: Seq<SegmentView>, wanted: Command) -> nat
    decreases plan.len(),
{
    if plan.len() == 0 {
        0
    } else {
        issued(plan.drop_last(), wanted) + occurrences(segment_commands(plan.last()), wanted)
    }
}

/// Occurrences add up over joined command lists.
pub proof fn lemma_occurrences_joined(head: Seq<Command>, tail: Seq<Command>, wanted: Command)
    ensures
        occurrences(head + tail, wanted) == occurrences(head, wanted) + occurrences(tail, wanted),
    decreases tail.len(),
{
    if tail.len() == 0 {
        assert(head + tail =~= head);
    } else {
        assert((head + tail).drop_last() =~= head + tail.drop_last());
        lemma_occurrences_joined(head, tail.drop_last(), wanted);
    }
}

/// A list of one command has one occurrence of it and none of any other.
pub proof fn lemma_occurrences_single(command: Command, wanted: Command)
    ensures
        occurrences(seq![command], wanted) == if command == wanted {
            1nat
        } else {
            0nat
        },
{
    let single = seq![command];
    assert(single.drop_last() =~= Seq::<Command>::empty());
    assert(occurrences(single.drop_last(), wanted) == 0);
}

/// A write operation issues one START exactly if it begins with one, and
/// one STOP exactly if it ends with one.
pub proof fn lemma_write_issues(len: nat, start: bool, stop: bool)
    ensures
        occurrences(write_commands(len, start, stop), Command::Start) == if start {
            1nat
        } else {
            0nat
        },
        occurrences(write_commands(len, start, stop), Command::Stop) == if stop {
            1nat
        } else {
            0nat
        },
{
    let first = start_commands(start);
    let body = setup_write_commands(len, start);
    let last = seq![end_command(stop)];
    lemma_occurrences_joined(first + body, last, Command::Start);
    lemma_occurrences_joined(first, body, Command::Start);
    lemma_occurrences_joined(first + body, last, Command::Stop);
    lemma_occurrences_joined(first, body, Command::Stop);
    lemma_occurrences_single(end_command(stop), Command::Start);
    lemma_occurrences_single(end_command(stop), Command::Stop);
    if start {
        lemma_occurrences_single(Command::Start, Command::Start);
        lemma_occurrences_single(Command::Start, Command::Stop);
    }
    if body.len() > 0 {
        assert(body =~= seq![body[0]]);
        lemma_occurrences_single(body[0], Command::Start);
        lemma_occurrences_single(body[0], Command::Stop);
    }
}

/// The operations of a plan of writes of which the first alone begins with
/// a START and the last alone ends with a STOP issue, up to operation `n`,
/// one START if there is an operation at all, and one STOP if the last is
/// among them.
proof fn lemma_writes_issue(plan: Seq<SegmentView>, n: nat)
    requires
        n <= plan.len(),
        forall|i: int|
            0 <= i < plan.len() ==> {
                &&& (#[trigger] plan[i]).kind == OpKind::Write
                &&& plan[i].start == (i == 0)
                &&& plan[i].stop == (i == plan.len() - 1)
            },
    ensures
        issued(plan.take(n as int), Command::Start) == if n >= 1 {
            1nat
        } else {
            0nat
        },
        issued(plan.take(n as int), Command::Stop) == if n >= 1 && n == plan.len() {
            1nat
        } else {
            0nat
        },
    decreases n,
{
    if n > 0 {
        let taken = plan.take(n as int);
        assert(taken.drop_last() =~= plan.take(n - 1));
        assert(taken.last() == plan[n - 1]);
        lemma_writes_issue(plan, (n - 1) as nat);
        lemma_write_issues(plan[n - 1].len, plan[n - 1].start, plan[n - 1].stop);
    }
}

/// A transaction of two writes issues exactly one START and exactly one
/// STOP in all, however long the writes are and into however many chunks
/// they are cut.
pub proof fn lemma_two_writes_issue_one_start_and_one_stop(
    size: nat,
    first: Operation,
    second: Operation,
)
    requires
        size > 0,
        first is Write,
        second is Write,
    ensures
        issued(transaction_chunks(size, seq![first, second]), Command::Start) == 1,
        issued(transaction_chunks(size, seq![first, second]), Command::Stop) == 1,
{
    let plan = transaction_chunks(size, seq![first, second]);
    lemma_two_writes_share_start_and_stop(size, first, second);
    lemma_writes_issue(plan, plan.len());
    assert(plan.take(plan.len() as int) =~= plan);
}

/// A transaction of a write and two reads, each of at most one chunk,
/// issues in this order: a START and the write of the address and the
/// payload; a repeated START and the write of the address; the first read,
/// with every byte acknowledged; and the second read, with every byte
/// acknowledged but the last, and then the STOP.
pub proof fn lemma_write_then_two_reads_issue(
    size: nat,
    write: Operation,
    first: Operation,
    second: Operation,
)
    requires
        0 < size <= 254,
        write is Write,
        first is Read,
        second is Read,
        write.spec_len() <= size,
        0 < first.spec_len() <= size,
        0 < second.spec_len() <= size,
    ensures
        all_commands(transaction_chunks(size, seq![write, first, second])) == seq![
            Command::Start,
            Command::Write {
                ack_exp: Ack::Ack,
                ack_check_en: true,
                length: (write.spec_len() + 1) as u8,
            },
            Command::End,
            Command::Start,
            Command::Write { ack_exp: Ack::Ack, ack_check_en: true, length: 1 },
            Command::Read { ack_value: Ack::Ack, length: first.spec_len() as u8 },
            Command::End,
        ] + (if second.spec_len() > 1 {
            seq![Command::Read { ack_value: Ack::Ack, length: (second.spec_len() - 1) as u8 }]
        } else {
            Seq::<Command>::empty()
        }) + seq![Command::Read { ack_value: Ack::Nack, length: 1 }, Command::Stop],
{
    let plan = transaction_chunks(size, seq![write, first, second]);
    lemma_write_then_two_reads(size, write, first, second);
    lemma_write_commands(write.spec_len(), true, false);
    lemma_read_commands(first.spec_len(), true, false, true);
    lemma_read_commands(second.spec_len(), false, true, false);
    let two = plan.drop_last();
    let one = two.drop_last();
    assert(one.drop_last() =~= Seq::<SegmentView>::empty());
    assert(all_commands(one.drop_last()) =~= Seq::<Command>::empty());
    assert(all_commands(one) =~= segment_commands(plan[0]));
    assert(all_commands(two) =~= segment_commands(plan[0]) + segment_commands(plan[1]));
    let expected = seq![
        Command::Start,
        Command::Write {
            ack_exp: Ack::Ack,
            ack_check_en: true,
            length: (write.spec_len() + 1) as u8,
        },
        Command::End,
        Command::Start,
        Command::Write { ack_exp: Ack::Ack, ack_check_en: true, length: 1 },
        Command::Read { ack_value: Ack::Ack, length: first.spec_len() as u8 },
        Command::End,
    ] + (if second.spec_len() > 1 {
        seq![Command::Read { ack_value: Ack::Ack, length: (second.spec_len() - 1) as u8 }]
    } else {
        Seq::<Command>::empty()
    }) + seq![Command::Read { ack_value: Ack::Nack, length: 1 }, Command::Stop];
    assert(all_commands(plan) =~= expected);
}

/// The commands that `writes` put into the command list, in order.
pub open spec fn commands_of(writes: Seq<RegisterWrite>) -> Seq<Command>
    decreases writes.len(),
{
    if writes.len() == 0 {
        Seq::empty()
    } else {
        let before = commands_of(writes.drop_last());
        match writes.last() {
            RegisterWrite::Command { command, .. } => before.push(command),
            _ => before,
        }
    }
}

/// The commands of joined writes are the joined commands.
pub proof fn lemma_commands_of_joined(head: Seq<RegisterWrite>, tail: Seq<RegisterWrite>)
    ensures
        commands_of(head + tail) == commands_of(head) + commands_of(tail),
    decreases tail.len(),
{
    if tail.len() == 0 {
        assert(head + tail =~= head);
        assert(commands_of(head) + commands_of(tail) =~= commands_of(head));
    } else {
        assert((head + tail).drop_last() =~= head + tail.drop_last());
        lemma_commands_of_joined(head, tail.drop_last());
        assert(commands_of(head + tail) =~= commands_of(head) + commands_of(tail));
    }
}

/// Writes to other registers put no command into the list.
pub proof fn lemma_commands_of_others(writes: Seq<RegisterWrite>)
    requires
        forall|i: int| 0 <= i < writes.len() ==> !(#[trigger] writes[i] is Command),
    ensures
        commands_of(writes) == Seq::<Command>::empty(),
    decreases writes.len(),
{
    if writes.len() > 0 {
        lemma_commands_of_others(writes.drop_last());
    }
}

/// The writes of commands put exactly those commands into the list.
pub proof fn lemma_commands_of_command_writes(base: nat, commands: Seq<Command>)
    ensures
        commands_of(command_writes(base, commands)) == commands,
    decreases commands.len(),
{
    let writes = command_writes(base, commands);
    if commands.len() > 0 {
        assert(writes.drop_last() =~= command_writes(base, commands.drop_last()));
        lemma_commands_of_command_writes(base, commands.drop_last());
        assert(commands_of(writes) =~= commands);
    } else {
        assert(commands_of(writes) =~= commands);
    }
}

/// The head of an operation puts the START into the list, where the
/// operation begins with one, and nothing else.
proof fn lemma_commands_of_head(variant: Variant, start: bool)
    ensures
        commands_of(operation_head(variant, start)) == start_commands(start),
{
    let reset = reset_fifo_writes(variant) + reset_command_list_writes(variant);
    lemma_commands_of_others(reset);
    lemma_commands_of_joined(reset, command_writes(0, start_commands(start)));
    lemma_commands_of_command_writes(0, start_commands(start));
    assert(Seq::<Command>::empty() + start_commands(start) =~= start_commands(start));
}

/// The program of a write operation puts the commands of the operation
/// into the command list, in order, and no others.
pub proof fn lemma_write_program_commands(
    variant: Variant,
    address: I2cAddress,
    len: nat,
    start: bool,
    stop: bool,
)
    ensures
        commands_of(write_program(variant, address, len, start, stop)) == write_commands(
            len,
            start,
            stop,
        ),
{
    let first = start_commands(start).len();
    let body = setup_write_commands(len, start);
    let head = operation_head(variant, start);
    let configured = setup_write_writes(variant, address, len, start, first);
    let ended = end_write(first + body.len(), stop);
    let rest = configured.subrange(body.len() as int, configured.len() as int);
    assert(configured =~= command_writes(first, body) + rest);
    lemma_commands_of_head(variant, start);
    lemma_commands_of_command_writes(first, body);
    lemma_commands_of_others(rest);
    lemma_commands_of_joined(command_writes(first, body), rest);
    assert(body + Seq::<Command>::empty() =~= body);
    assert(ended =~= command_writes(first + body.len(), seq![end_command(stop)]));
    lemma_commands_of_command_writes(first + body.len(), seq![end_command(stop)]);
    lemma_commands_of_joined(head, configured);
    lemma_commands_of_joined(head + configured, ended);
}

/// The program of a read operation puts the commands of the operation into
/// the command list, in order, and no others.
pub proof fn lemma_read_program_commands(
    variant: Variant,
    address: I2cAddress,
    len: nat,
    start: bool,
    stop: bool,
    will_continue: bool,
)
    ensures
        commands_of(read_program(variant, address, len, start, stop, will_continue))
            == read_commands(len, start, stop, will_continue),
{
    let first = start_commands(start).len();
    let body = setup_read_commands(len, start, will_continue);
    let head = operation_head(variant, start);
    let configured = setup_read_writes(variant, address, len, start, will_continue, first);
    let ended = end_write(first + body.len(), stop);
    let started = seq![RegisterWrite::TransStart];
    let rest = configured.subrange(body.len() as int, configured.len() as int);
    assert(configured =~= command_writes(first, body) + rest);
    lemma_commands_of_head(variant, start);
    lemma_commands_of_command_writes(first, body);
    lemma_commands_of_others(rest);
    lemma_commands_of_joined(command_writes(first, body), rest);
    assert(body + Seq::<Command>::empty() =~= body);
    assert(ended =~= command_writes(first + body.len(), seq![end_command(stop)]));
    lemma_commands_of_command_writes(first + body.len(), seq![end_command(stop)]);
    lemma_commands_of_others(started);
    lemma_commands_of_joined(head, configured);
    lemma_commands_of_joined(head + configured, ended);
    lemma_commands_of_joined(head + configured + ended, started);
    assert(read_commands(len, start, stop, will_continue) + Seq::<Command>::empty()
        =~= read_commands(len, start, stop, will_continue));
}

} // verus!
