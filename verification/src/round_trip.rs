//! What the engine's steps add up to on a file: a write leaves exactly the
//! caller's bytes, and a read in chunks delivers exactly the file.
use vstd::prelude::*;
use crate::async_data::{zeros, AsyncData};
use crate::file::round_up;
use crate::io_worker::{follows, truncation_distance, Step};

verus! {

/// `round_up(n, unit)` is a multiple of `unit`, is not below `n`, and is
/// less than one unit above it.
pub proof fn lemma_round_up_least_multiple(n: nat, unit: nat)
    requires
        unit > 0,
    ensures
        round_up(n, unit) % unit == 0,
        n <= round_up(n, unit) < n + unit,
{
    let rest = n % unit;
    assert(rest < unit && rest <= n && (n - rest + unit) % (unit as int) == 0 && (rest == 0 ==> n
        % unit == 0)) by (nonlinear_arith)
        requires
            rest == n % unit,
            unit > 0,
    ;
}

/// No multiple of `unit` lies between `n` and `round_up(n, unit)`.
pub proof fn lemma_round_up_is_least(n: nat, unit: nat, m: nat)
    requires
        unit > 0,
        m % unit == 0,
        n <= m,
    ensures
        round_up(n, unit) <= m,
{
    lemma_round_up_least_multiple(n, unit);
    let r = round_up(n, unit);
    assert(r <= m) by (nonlinear_arith)
        requires
            unit > 0,
            m % unit == 0,
            r % unit == 0,
            n <= m,
            n <= r < n + unit,
    ;
}

/// `data`, padded with zeros to a whole number of units.
pub open spec fn padded(data: Seq<u8>, unit: nat) -> Seq<u8> {
    data + zeros((round_up(data.len(), unit) - data.len()) as nat)
}

/// The file that holds `written` and was then cut at `distance` bytes from
/// its end.
pub open spec fn cut(written: Seq<u8>, distance: int) -> Seq<u8> {
    written.take(written.len() + distance)
}

/// A write leaves the caller's bytes and nothing else: once the whole padded
/// buffer went out, cutting the file at the distance that the engine
/// computes from the intended and the transferred length gives `data` back.
pub proof fn lemma_write_leaves_data(data: Seq<u8>, unit: nat)
    requires
        unit > 0,
    ensures
        cut(
            padded(data, unit),
            truncation_distance(data.len() as int, padded(data, unit).len() as int),
        ) == data,
{
    lemma_round_up_least_multiple(data.len(), unit);
    let whole = padded(data, unit);
    assert(whole.len() == round_up(data.len(), unit));
    assert(whole.take(data.len() as int) =~= data);
}

/// A write of fewer bytes than one unit sends one whole unit, and the file
/// is then as long as the data, not as the padded buffer.
pub proof fn lemma_short_write_is_truncated(data: Seq<u8>, unit: nat)
    requires
        0 < data.len() < unit,
    ensures
        padded(data, unit).len() == unit,
        cut(
            padded(data, unit),
            truncation_distance(data.len() as int, padded(data, unit).len() as int),
        ).len() == data.len(),
{
    lemma_write_leaves_data(data, unit);
    lemma_round_up_least_multiple(data.len(), unit);
    lemma_round_up_is_least(data.len(), unit, unit);
    assert(unit % unit == 0) by (nonlinear_arith)
        requires
            unit > 0,
    ;
    let r = round_up(data.len(), unit);
    assert(r == unit) by (nonlinear_arith)
        requires
            r % unit == 0,
            0 < r <= unit,
    ;
}

/// The bytes that a request for `read_size` bytes at `position` gets from
/// `file`: a whole chunk where the file has one, else what is left of it.
pub open spec fn chunk_at(file: Seq<u8>, position: int, read_size: int) -> Seq<u8> {
    if position >= file.len() {
        Seq::empty()
    } else if position + read_size <= file.len() {
        file.subrange(position, position + read_size)
    } else {
        file.subrange(position, file.len() as int)
    }
}

/// `buffer` after `chunk` was written into it from index `start` on.
pub open spec fn filled(buffer: Seq<u8>, start: int, chunk: Seq<u8>) -> Seq<u8> {
    buffer.take(start) + chunk + buffer.skip(start + chunk.len())
}

/// What holds of a read of `file` between two requests: the descriptor is a
/// read descriptor with a chunk size above zero, its request starts inside
/// the file or at its end, and the buffer before the pending chunk is the
/// file up to there.
pub open spec fn reads(async_data: &AsyncData, file: Seq<u8>) -> bool {
    &&& async_data.is_read()
    &&& async_data.wf()
    &&& async_data.read_size() > 0
    &&& async_data.overlapped.position() <= file.len()
    &&& async_data.buffer@.take(async_data.overlapped.position()) == file.take(
        async_data.overlapped.position(),
    )
}

/// The bytes that the pending request of `async_data` gets from `file`.
pub open spec fn pending_chunk(async_data: &AsyncData, file: Seq<u8>) -> Seq<u8> {
    chunk_at(file, async_data.overlapped.position(), async_data.read_size() as int)
}

/// Whether `after` is `before` once its pending request completed on
/// `file`: the same descriptor, with the chunk in the buffer's last part.
pub open spec fn completed(before: &AsyncData, file: Seq<u8>, after: &AsyncData) -> bool {
    &&& after.overlapped == before.overlapped
    &&& after.data_type == before.data_type
    &&& after.file_handle == before.file_handle
    &&& after.buffer@ == filled(
        before.buffer@,
        before.overlapped.position(),
        pending_chunk(before, file),
    )
}

/// A new read descriptor reads any file from its start.
pub proof fn lemma_read_starts(async_data: AsyncData, file: Seq<u8>)
    requires
        async_data.is_read(),
        async_data.wf(),
        async_data.read_size() > 0,
        async_data.overlapped.position() == 0,
    ensures
        reads(&async_data, file),
{
    assert(async_data.buffer@.take(0) =~= file.take(0));
}

/// One step of a read of `file`. When the pending request has completed
/// with what the file holds at its offset, the engine either delivers the
/// whole file, and does so exactly when the chunk came back short, or goes
/// on one chunk further into the file with everything read so far in place.
pub proof fn lemma_read_step(file: Seq<u8>, before: AsyncData, after: AsyncData, step: Step)
    requires
        reads(&before, file),
        completed(&before, file, &after),
        follows(&after, pending_chunk(&before, file).len() as usize, &step),
    ensures
        match step {
            Step::ReadDone(data) => {
                &&& data@ == file
                &&& pending_chunk(&before, file).len() < before.read_size()
            },
            Step::ReadMore { async_data: next, start, len } => {
                &&& reads(&next, file)
                &&& pending_chunk(&before, file).len() == before.read_size()
                &&& next.overlapped.position() == before.overlapped.position()
                    + before.read_size()
                &&& start == next.overlapped.position()
                &&& len == next.read_size() == before.read_size()
            },
            Step::WriteDone { .. } => false,
        },
{
    let position = before.overlapped.position();
    let read_size = before.read_size() as int;
    let chunk = pending_chunk(&before, file);
    assert(after.buffer@.len() == before.buffer@.len());
    match step {
        Step::ReadDone(data) => {
            assert(position + chunk.len() == file.len());
            assert(data@ =~= file);
        },
        Step::ReadMore { async_data: next, start, len } => {
            assert(chunk.len() == read_size);
            assert(next.buffer@.take(position + read_size) =~= file.take(position + read_size));
        },
        Step::WriteDone { .. } => {},
    }
}

/// On a file that is a whole number of chunks long, a read ends on an empty
/// chunk and on nothing else: every request before the end of the file
/// brings a full chunk and is followed by another, and the request at the
/// end of the file brings nothing and ends the read.
pub proof fn lemma_read_ends_on_empty_chunk(
    file: Seq<u8>,
    before: AsyncData,
    after: AsyncData,
    step: Step,
)
    requires
        reads(&before, file),
        file.len() % (before.read_size() as nat) == 0,
        before.overlapped.position() % (before.read_size() as int) == 0,
        completed(&before, file, &after),
        follows(&after, pending_chunk(&before, file).len() as usize, &step),
    ensures
        step is ReadDone <==> before.overlapped.position() == file.len(),
        step is ReadDone ==> pending_chunk(&before, file).len() == 0,
        step is ReadMore ==> pending_chunk(&before, file).len() == before.read_size()
            && step->ReadMore_async_data.overlapped.position() % (before.read_size() as int) == 0,
{
    lemma_read_step(file, before, after, step);
    let position = before.overlapped.position();
    let read_size = before.read_size() as int;
    let length = file.len() as int;
    assert(position == length || position + read_size <= length) by (nonlinear_arith)
        requires
            read_size > 0,
            0 <= position <= length,
            length % read_size == 0,
            position % read_size == 0,
    ;
    assert((position + read_size) % read_size == 0) by (nonlinear_arith)
        requires
            read_size > 0,
            position % read_size == 0,
    ;
}

/// What a read of `file` in chunks of `read_size` bytes delivers from the
/// point at which its request at `position` is pending, with `buffer` as the
/// descriptor's buffer: the request completes with what the file holds
/// there, and the engine ends the read on a short chunk and else goes on
/// with a buffer that is one zero-filled chunk longer.
pub open spec fn delivered(file: Seq<u8>, buffer: Seq<u8>, position: int, read_size: int) -> Seq<u8>
    decreases file.len() - position,
{
    let chunk = chunk_at(file, position, read_size);
    let after = filled(buffer, position, chunk);
    if read_size <= 0 || position < 0 || chunk.len() < read_size {
        after.take(position + chunk.len())
    } else {
        delivered(file, after + zeros(read_size as nat), position + read_size, read_size)
    }
}

/// `delivered` goes the way of the engine: the step that the engine takes
/// after a completion either hands out what `delivered` says, or leaves a
/// descriptor from which `delivered` says the same as before.
pub proof fn lemma_delivered_follows(file: Seq<u8>, before: AsyncData, after: AsyncData, step: Step)
    requires
        reads(&before, file),
        completed(&before, file, &after),
        follows(&after, pending_chunk(&before, file).len() as usize, &step),
    ensures
        match step {
            Step::ReadDone(data) => data@ == delivered(
                file,
                before.buffer@,
                before.overlapped.position(),
                before.read_size() as int,
            ),
            Step::ReadMore { async_data: next, .. } => delivered(
                file,
                next.buffer@,
                next.overlapped.position(),
                next.read_size() as int,
            ) == delivered(
                file,
                before.buffer@,
                before.overlapped.position(),
                before.read_size() as int,
            ),
            Step::WriteDone { .. } => false,
        },
{
    lemma_read_step(file, before, after, step);
}

proof fn lemma_delivered_from(file: Seq<u8>, buffer: Seq<u8>, position: int, read_size: int)
    requires
        read_size > 0,
        0 <= position <= file.len(),
        buffer.len() == position + read_size,
        buffer.take(position) == file.take(position),
    ensures
        delivered(file, buffer, position, read_size) == file,
    decreases file.len() - position,
{
    let chunk = chunk_at(file, position, read_size);
    let after = filled(buffer, position, chunk);
    if chunk.len() < read_size {
        assert(after.take(position + chunk.len()) =~= file);
    } else {
        let next = after + zeros(read_size as nat);
        assert(next.take(position + read_size) =~= file.take(position + read_size));
        lemma_delivered_from(file, next, position + read_size, read_size);
    }
}

/// A read delivers the file: from a new descriptor, whose buffer is one
/// zero-filled chunk, the chunks that the engine asks for add up to exactly
/// the bytes of `file`, whatever its length and the chunk size above zero.
pub proof fn lemma_read_delivers_file(file: Seq<u8>, read_size: nat)
    requires
        read_size > 0,
    ensures
        delivered(file, zeros(read_size), 0, read_size as int) == file,
{
    assert(zeros(read_size).take(0) =~= file.take(0));
    lemma_delivered_from(file, zeros(read_size), 0, read_size as int);
}

/// Writing `data` and reading the file back gives `data`: the padding that
/// the write adds for the storage unit is gone from the file, and the read
/// finds the end of the data whatever its chunk size.
pub proof fn lemma_round_trip(data: Seq<u8>, unit: nat, read_size: nat)
    requires
        unit > 0,
        read_size > 0,
    ensures
        delivered(
            cut(
                padded(data, unit),
                truncation_distance(data.len() as int, padded(data, unit).len() as int),
            ),
            zeros(read_size),
            0,
            read_size as int,
        ) == data,
{
    lemma_write_leaves_data(data, unit);
    lemma_read_delivers_file(data, read_size);
}

} // verus!
