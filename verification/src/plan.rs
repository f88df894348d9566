//! From the operations of a transaction to the physical operations that the
//! controller executes: where START, repeated START and STOP go, which read
//! ends without an acknowledge, and how a long buffer is cut into chunks.

use vstd::prelude::*;
use vstd::slice::{slice_subrange, slice_to_vec};
use crate::operation::{OpKind, Operation};
use crate::variant::Variant;

verus! {

/// One physical operation: a run of commands that the controller executes
/// in one go.
#[derive(Debug, Clone, PartialEq, Eq)]
pub struct Segment {
    pub kind: OpKind,
    /// Begin with a START condition and the address byte.
    pub start: bool,
    /// End with a STOP condition, and not with END, which keeps the bus.
    pub stop: bool,
    /// For a read: another read follows, so the last byte is acknowledged.
    pub will_continue: bool,
    /// Bytes to transfer.
    pub len: usize,
    /// The bytes to write. Empty for a read.
    pub data: Vec<u8>,
}

/// A segment as plain values.
pub struct SegmentView {
    pub kind: OpKind,
    pub start: bool,
    pub stop: bool,
    pub will_continue: bool,
    pub len: nat,
    pub data: Seq<u8>,
}

impl View for Segment {
    type V = SegmentView;

    open spec fn view(&self) -> SegmentView {
        SegmentView {
            kind: self.kind,
            start: self.start,
            stop: self.stop,
            will_continue: self.will_continue,
            len: self.len as nat,
            data: self.data@,
        }
    }
}

impl SegmentView {
    /// Whether the segment asks anything of the bus. A read of no bytes does
    /// not, nor does a write of no bytes without START and STOP.
    pub open spec fn active(self) -> bool {
        self.len > 0 || (self.kind is Write && (self.start || self.stop))
    }

    /// A write carries exactly its bytes, a read none.
    pub open spec fn wf(self) -> bool {
        match self.kind {
            OpKind::Write => self.data.len() == self.len,
            OpKind::Read => self.data.len() == 0,
        }
    }
}

/// The segments as plain values.
pub open spec fn views(segments: Seq<Segment>) -> Seq<SegmentView> {
    Seq::new(segments.len(), |i: int| segments[i]@)
}

/// Whether every segment asks something of the bus and carries what it
/// should.
pub open spec fn all_active(segments: Seq<Segment>) -> bool {
    forall|i: int|
        0 <= i < segments.len() ==> (#[trigger] segments[i])@.active() && segments[i]@.wf()
}

/// Number of chunks of at most `size` bytes in `len` bytes: `len / size`,
/// rounded up.
pub open spec fn chunk_count(len: nat, size: nat) -> nat {
    ((len + size - 1) / (size as int)) as nat
}

/// Length of chunk `i`: `size`, but for the last chunk, which has the rest.
pub open spec fn chunk_len(len: nat, size: nat, i: int) -> nat {
    if len - i * size > size {
        size
    } else {
        (len - i * size) as nat
    }
}

/// The physical operations of a write of `bytes` in chunks of `size`.
///
/// An empty buffer makes one operation where START or STOP is asked for, as
/// a bus probe does, and none otherwise. Of the chunks of a longer buffer
/// only the first keeps `start` and only the last keeps `stop`.
pub open spec fn write_chunks(size: nat, bytes: Seq<u8>, start: bool, stop: bool) -> Seq<
    SegmentView,
> {
    if bytes.len() == 0 {
        if start || stop {
            seq![
                SegmentView {
                    kind: OpKind::Write,
                    start,
                    stop,
                    will_continue: false,
                    len: 0,
                    data: Seq::empty(),
                },
            ]
        } else {
            Seq::empty()
        }
    } else {
        let count = chunk_count(bytes.len(), size);
        Seq::new(
            count,
            |i: int|
                SegmentView {
                    kind: OpKind::Write,
                    start: start && i == 0,
                    stop: stop && i == count - 1,
                    will_continue: false,
                    len: chunk_len(bytes.len(), size, i),
                    data: bytes.subrange(i * size, i * size + chunk_len(bytes.len(), size, i)),
                },
        )
    }
}

/// The physical operations of a read of `len` bytes in chunks of `size`.
///
/// Of the chunks only the first keeps `start` and only the last keeps
/// `stop`, and every chunk but the last is followed by a read.
pub open spec fn read_chunks(size: nat, len: nat, start: bool, stop: bool, will_continue: bool) -> Seq<
    SegmentView,
> {
    let count = chunk_count(len, size);
    Seq::new(
        count,
        |i: int|
            SegmentView {
                kind: OpKind::Read,
                start: start && i == 0,
                stop: stop && i == count - 1,
                will_continue: will_continue || i < count - 1,
                len: chunk_len(len, size, i),
                data: Seq::empty(),
            },
    )
}

/// Whether a transaction keeps the operation: every write, and every read
/// of at least one byte.
pub open spec fn keeps(operation: Operation) -> bool {
    operation is Write || operation.spec_len() > 0
}

/// The operations that a transaction keeps, in order.
pub open spec fn retained(operations: Seq<Operation>) -> Seq<Operation>
    decreases operations.len(),
{
    if operations.len() == 0 {
        Seq::empty()
    } else {
        let before = retained(operations.drop_last());
        if keeps(operations.last()) {
            before.push(operations.last())
        } else {
            before
        }
    }
}

/// Whether operation `j` of the kept ones begins with a START: the first
/// does, and every one whose kind differs from the one before it.
pub open spec fn starts_at(kept: Seq<Operation>, j: int) -> bool {
    j == 0 || kept[j - 1].spec_kind() != kept[j].spec_kind()
}

/// Whether operation `j` of the kept ones ends with the STOP: the last does.
pub open spec fn stops_at(kept: Seq<Operation>, j: int) -> bool {
    j == kept.len() - 1
}

/// Whether a read follows operation `j` of the kept ones.
pub open spec fn continues_at(kept: Seq<Operation>, j: int) -> bool {
    j + 1 < kept.len() && kept[j + 1].spec_kind() == OpKind::Read
}

/// The physical operations of operation `j` of the kept ones.
pub open spec fn operation_chunks(size: nat, kept: Seq<Operation>, j: int) -> Seq<SegmentView> {
    match kept[j] {
        Operation::Write(buffer) => write_chunks(
            size,
            buffer@,
            starts_at(kept, j),
            stops_at(kept, j),
        ),
        Operation::Read(buffer) => read_chunks(
            size,
            buffer@.len(),
            starts_at(kept, j),
            stops_at(kept, j),
            continues_at(kept, j),
        ),
    }
}

/// The physical operations of the first `n` kept operations, in order.
pub open spec fn chunks_through(size: nat, kept: Seq<Operation>, n: nat) -> Seq<SegmentView>
    decreases n,
{
    if n == 0 {
        Seq::empty()
    } else {
        chunks_through(size, kept, (n - 1) as nat) + operation_chunks(size, kept, n - 1)
    }
}

/// The physical operations of a transaction.
pub open spec fn transaction_chunks(size: nat, operations: Seq<Operation>) -> Seq<SegmentView> {
    let kept = retained(operations);
    chunks_through(size, kept, kept.len())
}

/// Where chunk `i` begins inside the buffer, it is not the last chunk
/// exactly if more than `size` bytes remain.
pub proof fn lemma_chunk_position(len: nat, size: nat, i: nat)
    requires
        size > 0,
        i * size < len,
    ensures
        i < chunk_count(len, size),
        (i + 1 == chunk_count(len, size)) == (len - i * size <= size),
{
    let count = chunk_count(len, size) as int;
    let padded = (len + size - 1) as int;
    assert(count * size <= padded < (count + 1) * size) by (nonlinear_arith)
        requires
            count == padded / (size as int),
            size > 0,
            padded >= 0,
    ;
    assert((count + 1) * size == count * size + size) by (nonlinear_arith);
    assert(i < count) by (nonlinear_arith)
        requires
            i * size < len,
            len <= count * size,
            size > 0,
    ;
    if i + 1 == count {
        assert(len - i * size <= size) by (nonlinear_arith)
            requires
                i + 1 == count,
                len <= count * size,
        ;
    } else {
        assert(len - i * size > size) by (nonlinear_arith)
            requires
                i + 2 <= count,
                count * size <= len + size - 1,
                size > 0,
        ;
    }
}

/// Cuts a write into physical operations of at most the family's chunk
/// size.
pub fn write_segments(variant: Variant, buffer: &[u8], start: bool, stop: bool) -> (plan: Vec<
    Segment,
>)
    ensures
        views(plan@) == write_chunks(variant.chunk_size() as nat, buffer@, start, stop),
        all_active(plan@),
{
    let mut plan: Vec<Segment> = Vec::new();
    let len = buffer.len();
    if len == 0 {
        if start || stop {
            plan.push(
                Segment {
                    kind: OpKind::Write,
                    start,
                    stop,
                    will_continue: false,
                    len: 0,
                    data: Vec::new(),
                },
            );
        }
        assert(views(plan@) =~= write_chunks(variant.chunk_size() as nat, buffer@, start, stop));
        return plan;
    }
    let size = variant.chunk_size();
    let ghost chunks = write_chunks(size as nat, buffer@, start, stop);
    let ghost count = chunk_count(len as nat, size as nat);
    let mut offset: usize = 0;
    assert(0 * size == 0) by (nonlinear_arith);
    while offset < len
        invariant
            len == buffer@.len(),
            len > 0,
            size == variant.chunk_size(),
            chunks == write_chunks(size as nat, buffer@, start, stop),
            count == chunk_count(len as nat, size as nat),
            offset <= len,
            offset < len ==> offset == plan@.len() * size,
            offset >= len ==> plan@.len() == count,
            plan@.len() <= count,
            forall|i: int| 0 <= i < plan@.len() ==> (#[trigger] plan@[i])@ == chunks[i],
            all_active(plan@),
        decreases len - offset,
    {
        let ghost i = plan@.len();
        proof {
            lemma_chunk_position(len as nat, size as nat, i);
        }
        let rest = len - offset;
        let last = rest <= size;
        let chunk = if last {
            rest
        } else {
            size
        };
        let data = slice_to_vec(slice_subrange(buffer, offset, offset + chunk));
        plan.push(
            Segment {
                kind: OpKind::Write,
                start: start && offset == 0,
                stop: stop && last,
                will_continue: false,
                len: chunk,
                data,
            },
        );
        proof {
            assert(offset == 0 <==> i == 0) by (nonlinear_arith)
                requires
                    offset == i * size,
                    size > 0,
            ;
            assert((i + 1) * size == i * size + size) by (nonlinear_arith);
            assert(plan@[i as int]@ == chunks[i as int]);
        }
        offset = offset + chunk;
    }
    assert(views(plan@) =~= chunks);
    plan
}

/// Cuts a read of `len` bytes into physical operations of at most the
/// family's chunk size.
pub fn read_segments(variant: Variant, len: usize, start: bool, stop: bool, will_continue: bool) -> (plan:
    Vec<Segment>)
    ensures
        views(plan@) == read_chunks(
            variant.chunk_size() as nat,
            len as nat,
            start,
            stop,
            will_continue,
        ),
        all_active(plan@),
{
    let mut plan: Vec<Segment> = Vec::new();
    let size = variant.chunk_size();
    let ghost chunks = read_chunks(size as nat, len as nat, start, stop, will_continue);
    let ghost count = chunk_count(len as nat, size as nat);
    let mut offset: usize = 0;
    assert(0 * size == 0) by (nonlinear_arith);
    assert(len == 0 ==> count == 0) by {
        vstd::arithmetic::div_mod::lemma_basic_div((size - 1) as int, size as int);
    }
    while offset < len
        invariant
            size == variant.chunk_size(),
            chunks == read_chunks(size as nat, len as nat, start, stop, will_continue),
            count == chunk_count(len as nat, size as nat),
            offset <= len,
            offset < len ==> offset == plan@.len() * size,
            offset >= len ==> plan@.len() == count,
            plan@.len() <= count,
            forall|i: int| 0 <= i < plan@.len() ==> (#[trigger] plan@[i])@ == chunks[i],
            all_active(plan@),
        decreases len - offset,
    {
        let ghost i = plan@.len();
        proof {
            lemma_chunk_position(len as nat, size as nat, i);
        }
        let rest = len - offset;
        let last = rest <= size;
        let chunk = if last {
            rest
        } else {
            size
        };
        plan.push(
            Segment {
                kind: OpKind::Read,
                start: start && offset == 0,
                stop: stop && last,
                will_continue: will_continue || !last,
                len: chunk,
                data: Vec::new(),
            },
        );
        proof {
            assert(offset == 0 <==> i == 0) by (nonlinear_arith)
                requires
                    offset == i * size,
                    size > 0,
            ;
            assert((i + 1) * size == i * size + size) by (nonlinear_arith);
            assert(plan@[i as int]@ == chunks[i as int]);
        }
        offset = offset + chunk;
    }
    assert(views(plan@) =~= chunks);
    plan
}

/// Positions of the operations that a transaction keeps.
fn retained_positions(operations: &Vec<Operation>) -> (positions: Vec<usize>)
    ensures
        positions@.len() == retained(operations@).len(),
        forall|j: int|
            0 <= j < positions@.len() ==> positions@[j] < operations@.len() && operations@[#[trigger] positions@[j] as int]
                == retained(operations@)[j],
{
    let mut positions: Vec<usize> = Vec::new();
    let mut index: usize = 0;
    assert(operations@.take(0) =~= Seq::<Operation>::empty());
    while index < operations.len()
        invariant
            index <= operations@.len(),
            positions@.len() == retained(operations@.take(index as int)).len(),
            forall|j: int|
                0 <= j < positions@.len() ==> positions@[j] < operations@.len() && operations@[#[trigger] positions@[j] as int]
                    == retained(operations@.take(index as int))[j],
        decreases operations@.len() - index,
    {
        let operation = &operations[index];
        proof {
            let next = operations@.take(index + 1);
            assert(next.drop_last() =~= operations@.take(index as int));
            assert(next.last() == operations@[index as int]);
        }
        if operation.is_write() || !operation.is_empty() {
            positions.push(index);
        }
        index = index + 1;
    }
    assert(operations@.take(index as int) =~= operations@);
    positions
}

/// Plans a transaction.
///
/// Reads of no bytes are left out; writes of no bytes stay, as they probe
/// the bus. An operation begins with a START, or a repeated one, exactly if
/// it is the first or follows an operation of the other kind: adjacent
/// operations of one kind run on without one. The last operation ends with
/// the STOP, and only a read that no read follows leaves its last byte
/// unacknowledged. Each operation is cut into chunks as
/// [`write_segments`] and [`read_segments`] do.
pub fn transaction_segments(variant: Variant, operations: &Vec<Operation>) -> (plan: Vec<Segment>)
    ensures
        views(plan@) == transaction_chunks(variant.chunk_size() as nat, operations@),
        all_active(plan@),
{
    let positions = retained_positions(operations);
    let ghost kept = retained(operations@);
    let ghost size = variant.chunk_size() as nat;
    let mut plan: Vec<Segment> = Vec::new();
    let mut j: usize = 0;
    assert(views(plan@) =~= chunks_through(size, kept, 0));
    while j < positions.len()
        invariant
            j <= positions@.len(),
            kept == retained(operations@),
            size == variant.chunk_size() as nat,
            positions@.len() == kept.len(),
            forall|k: int|
                0 <= k < positions@.len() ==> positions@[k] < operations@.len() && operations@[#[trigger] positions@[k] as int]
                    == kept[k],
            views(plan@) == chunks_through(size, kept, j as nat),
            all_active(plan@),
        decreases positions@.len() - j,
    {
        let operation = &operations[positions[j]];
        let kind = operation.kind();
        let start = j == 0 || operations[positions[j - 1]].kind() != kind;
        let stop = j + 1 == positions.len();
        let will_continue = j + 1 < positions.len() && operations[positions[j + 1]].kind()
            == OpKind::Read;
        let ghost before = plan@;
        let mut chunks = match operation {
            Operation::Write(buffer) => write_segments(variant, buffer.as_slice(), start, stop),
            Operation::Read(buffer) => read_segments(
                variant,
                buffer.len(),
                start,
                stop,
                will_continue,
            ),
        };
        let ghost added = chunks@;
        assert(views(added) == operation_chunks(size, kept, j as int));
        plan.append(&mut chunks);
        j = j + 1;
        assert(views(plan@) =~= views(before) + views(added));
    }
    plan
}

/// The chunk count is the length divided by the chunk size, rounded up:
/// that many chunks hold the bytes, and one fewer would not.
pub proof fn lemma_chunk_count_rounds_up(len: nat, size: nat)
    requires
        size > 0,
        len > 0,
    ensures
        chunk_count(len, size) >= 1,
        (chunk_count(len, size) - 1) * size < len <= chunk_count(len, size) * size,
        len <= size ==> chunk_count(len, size) == 1,
{
    let count = chunk_count(len, size) as int;
    let padded = (len + size - 1) as int;
    assert(count * size <= padded < (count + 1) * size) by (nonlinear_arith)
        requires
            count == padded / (size as int),
            size > 0,
            padded >= 0,
    ;
    assert((count + 1) * size == count * size + size) by (nonlinear_arith);
    assert((count - 1) * size == count * size - size) by (nonlinear_arith);
    assert(count >= 1) by (nonlinear_arith)
        requires
            len <= count * size,
            len > 0,
            size > 0,
    ;
    if len <= size {
        assert(count < 2) by (nonlinear_arith)
            requires
                (count - 1) * size < len,
                len <= size,
                size > 0,
        ;
    }
}

/// Every chunk before the last is full, and the last has the rest: each
/// chunk begins inside the buffer and has at least one byte.
pub proof fn lemma_chunk_len(len: nat, size: nat, i: int)
    requires
        size > 0,
        len > 0,
        0 <= i < chunk_count(len, size),
    ensures
        i * size < len,
        1 <= chunk_len(len, size, i) <= size,
        i * size + chunk_len(len, size, i) <= len,
        i < chunk_count(len, size) - 1 ==> chunk_len(len, size, i) == size,
        i == chunk_count(len, size) - 1 ==> i * size + chunk_len(len, size, i) == len,
{
    let count = chunk_count(len, size) as int;
    lemma_chunk_count_rounds_up(len, size);
    assert(i * size <= (count - 1) * size) by (nonlinear_arith)
        requires
            0 <= i <= count - 1,
            size > 0,
    ;
    if i < count - 1 {
        assert((i + 1) * size <= (count - 1) * size) by (nonlinear_arith)
            requires
                i + 1 <= count - 1,
                size > 0,
        ;
        assert((i + 1) * size == i * size + size) by (nonlinear_arith);
    } else {
        assert(count * size == i * size + size) by (nonlinear_arith)
            requires
                i == count - 1,
        ;
    }
}

/// A write of a buffer of `L` bytes in chunks of `C` is split into `L / C`
/// physical operations, rounded up. Only the first carries the START of the
/// write and only the last its STOP. Every chunk but the last carries `C`
/// bytes, the last carries the rest, and chunk `i` carries the bytes of the
/// buffer from `i * C` on: together they carry the buffer, in order.
pub proof fn lemma_write_is_split(size: nat, bytes: Seq<u8>, start: bool, stop: bool)
    requires
        size > 0,
        bytes.len() > 0,
    ensures
        ({
            let chunks = write_chunks(size, bytes, start, stop);
            let count = chunk_count(bytes.len(), size) as int;
            &&& chunks.len() == count
            &&& (count - 1) * size < bytes.len() <= count * size
            &&& forall|i: int|
                0 <= i < count ==> {
                    &&& (#[trigger] chunks[i]).kind == OpKind::Write
                    &&& chunks[i].start == (start && i == 0)
                    &&& chunks[i].stop == (stop && i == count - 1)
                    &&& 1 <= chunks[i].len <= size
                    &&& i < count - 1 ==> chunks[i].len == size
                    &&& i * size + chunks[i].len <= bytes.len()
                    &&& chunks[i].data == bytes.subrange(i * size, i * size + chunks[i].len)
                }
            &&& (count - 1) * size + chunks[count - 1].len == bytes.len()
        }),
{
    let chunks = write_chunks(size, bytes, start, stop);
    let count = chunk_count(bytes.len(), size) as int;
    let len = bytes.len();
    lemma_chunk_count_rounds_up(len, size);
    assert(chunks.len() == count);
    assert forall|i: int| 0 <= i < count implies {
        &&& (#[trigger] chunks[i]).kind == OpKind::Write
        &&& chunks[i].start == (start && i == 0)
        &&& chunks[i].stop == (stop && i == count - 1)
        &&& 1 <= chunks[i].len <= size
        &&& i < count - 1 ==> chunks[i].len == size
        &&& i * size + chunks[i].len <= bytes.len()
        &&& chunks[i].data == bytes.subrange(i * size, i * size + chunks[i].len)
    } by {
        lemma_chunk_len(len, size, i);
    }
    lemma_chunk_len(len, size, count - 1);
}

/// A read of `L` bytes in chunks of `C` is split into `L / C` physical
/// operations, rounded up. Only the first carries the START of the read and
/// only the last its STOP. Every chunk but the last is followed by a read,
/// and the last is if the read as a whole is. Each reads at most `C` bytes,
/// and together they read `L`.
pub proof fn lemma_read_is_split(size: nat, len: nat, start: bool, stop: bool, will_continue: bool)
    requires
        size > 0,
        len > 0,
    ensures
        ({
            let chunks = read_chunks(size, len, start, stop, will_continue);
            let count = chunk_count(len, size) as int;
            &&& chunks.len() == count
            &&& (count - 1) * size < len <= count * size
            &&& forall|i: int|
                0 <= i < count ==> {
                    &&& (#[trigger] chunks[i]).kind == OpKind::Read
                    &&& chunks[i].start == (start && i == 0)
                    &&& chunks[i].stop == (stop && i == count - 1)
                    &&& chunks[i].will_continue == (will_continue || i < count - 1)
                    &&& 1 <= chunks[i].len <= size
                    &&& i < count - 1 ==> chunks[i].len == size
                }
            &&& (count - 1) * size + chunks[count - 1].len == len
        }),
{
    let chunks = read_chunks(size, len, start, stop, will_continue);
    let count = chunk_count(len, size) as int;
    lemma_chunk_count_rounds_up(len, size);
    assert forall|i: int| 0 <= i < count implies {
        &&& (#[trigger] chunks[i]).kind == OpKind::Read
        &&& chunks[i].start == (start && i == 0)
        &&& chunks[i].stop == (stop && i == count - 1)
        &&& chunks[i].will_continue == (will_continue || i < count - 1)
        &&& 1 <= chunks[i].len <= size
        &&& i < count - 1 ==> chunks[i].len == size
    } by {
        lemma_chunk_len(len, size, i);
    }
    lemma_chunk_len(len, size, count - 1);
}

/// A transaction keeps both of two operations that it would keep alone.
proof fn lemma_retained_pair(first: Operation, second: Operation)
    requires
        keeps(first),
        keeps(second),
    ensures
        retained(seq![first, second]) == seq![first, second],
{
    let both = seq![first, second];
    let none = Seq::<Operation>::empty();
    assert(both.drop_last() =~= seq![first]);
    assert(seq![first].drop_last() =~= none);
    assert(retained(none) =~= none);
    assert(retained(seq![first]) =~= retained(none).push(first));
    assert(retained(seq![first]) =~= seq![first]);
    assert(retained(both) =~= retained(seq![first]).push(second));
    assert(retained(both) =~= both);
}

/// A transaction keeps all of three operations that it would keep alone.
proof fn lemma_retained_triple(first: Operation, second: Operation, third: Operation)
    requires
        keeps(first),
        keeps(second),
        keeps(third),
    ensures
        retained(seq![first, second, third]) == seq![first, second, third],
{
    let all = seq![first, second, third];
    assert(all.drop_last() =~= seq![first, second]);
    lemma_retained_pair(first, second);
    assert(retained(all) =~= retained(seq![first, second]).push(third));
    assert(retained(all) =~= all);
}

/// A transaction of two writes has one START and one STOP: the first
/// physical operation alone begins with a START, the last alone ends with a
/// STOP, and where one write ends and the other begins there is neither.
pub proof fn lemma_two_writes_share_start_and_stop(size: nat, first: Operation, second: Operation)
    requires
        size > 0,
        first is Write,
        second is Write,
    ensures
        ({
            let plan = transaction_chunks(size, seq![first, second]);
            &&& plan.len() >= 1
            &&& forall|i: int|
                0 <= i < plan.len() ==> {
                    &&& (#[trigger] plan[i]).kind == OpKind::Write
                    &&& plan[i].start == (i == 0)
                    &&& plan[i].stop == (i == plan.len() - 1)
                }
        }),
{
    let kept = seq![first, second];
    lemma_retained_pair(first, second);
    let head = write_chunks(size, first.bytes(), true, false);
    let tail = write_chunks(size, second.bytes(), false, true);
    assert(chunks_through(size, kept, 0) =~= Seq::<SegmentView>::empty());
    assert(chunks_through(size, kept, 1) =~= head);
    assert(chunks_through(size, kept, 2) =~= head + tail);
    let plan = transaction_chunks(size, kept);
    assert(plan == head + tail);
    if first.bytes().len() > 0 {
        lemma_chunk_count_rounds_up(first.bytes().len(), size);
        lemma_write_is_split(size, first.bytes(), true, false);
    }
    if second.bytes().len() > 0 {
        lemma_chunk_count_rounds_up(second.bytes().len(), size);
        lemma_write_is_split(size, second.bytes(), false, true);
    }
    assert(head.len() >= 1);
    assert(tail.len() >= 1);
    assert forall|i: int| 0 <= i < plan.len() implies {
        &&& (#[trigger] plan[i]).kind == OpKind::Write
        &&& plan[i].start == (i == 0)
        &&& plan[i].stop == (i == plan.len() - 1)
    } by {
        if i < head.len() {
            assert(plan[i] == head[i]);
        } else {
            assert(plan[i] == tail[i - head.len()]);
        }
    }
}

/// A transaction of a write and two reads, each of at most one chunk, has
/// three physical operations: the write, from a START and without a STOP;
/// the first read, from a repeated START, followed by a read; and the
/// second read, without a START, followed by none and ending with the STOP.
pub proof fn lemma_write_then_two_reads(
    size: nat,
    write: Operation,
    first: Operation,
    second: Operation,
)
    requires
        size > 0,
        write is Write,
        first is Read,
        second is Read,
        write.spec_len() <= size,
        0 < first.spec_len() <= size,
        0 < second.spec_len() <= size,
    ensures
        transaction_chunks(size, seq![write, first, second]) == seq![
            SegmentView {
                kind: OpKind::Write,
                start: true,
                stop: false,
                will_continue: false,
                len: write.spec_len(),
                data: write.bytes(),
            },
            SegmentView {
                kind: OpKind::Read,
                start: true,
                stop: false,
                will_continue: true,
                len: first.spec_len(),
                data: Seq::empty(),
            },
            SegmentView {
                kind: OpKind::Read,
                start: false,
                stop: true,
                will_continue: false,
                len: second.spec_len(),
                data: Seq::empty(),
            },
        ],
{
    let kept = seq![write, first, second];
    lemma_retained_triple(write, first, second);
    let written = write_chunks(size, write.bytes(), true, false);
    let read = read_chunks(size, first.spec_len(), true, false, true);
    let last = read_chunks(size, second.spec_len(), false, true, false);
    assert(chunks_through(size, kept, 0) =~= Seq::<SegmentView>::empty());
    assert(chunks_through(size, kept, 1) =~= written);
    assert(chunks_through(size, kept, 2) =~= written + read);
    assert(chunks_through(size, kept, 3) =~= written + read + last);
    if write.spec_len() > 0 {
        lemma_chunk_count_rounds_up(write.spec_len(), size);
        lemma_chunk_len(write.spec_len(), size, 0);
        assert(0 * size == 0) by (nonlinear_arith);
        assert(write.bytes().subrange(0, write.spec_len() as int) =~= write.bytes());
    }
    lemma_chunk_count_rounds_up(first.spec_len(), size);
    lemma_chunk_len(first.spec_len(), size, 0);
    lemma_chunk_count_rounds_up(second.spec_len(), size);
    lemma_chunk_len(second.spec_len(), size, 0);
    assert(0 * size == 0) by (nonlinear_arith);
    assert(written.len() == 1);
    assert(read.len() == 1);
    assert(last.len() == 1);
    assert(written[0].data =~= write.bytes());
    assert(transaction_chunks(size, kept) =~= seq![written[0], read[0], last[0]]);
}

} // verus!
