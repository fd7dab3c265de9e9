use vstd::prelude::*;
use crate::async_data::{pair_value, zeros, AsyncData, Completion, DataType};
use crate::win_api_helper::CompletionStatus;

verus! {

/// Adds `usize_value` to the 64-bit value held in the halves `value` (low)
/// and `value_high` (high), carrying from the low half into the high one.
pub fn add_usize_to_u32_pair(value: u32, value_high: u32, usize_value: usize) -> (r: (u32, u32))
    requires
        pair_value(value, value_high) + usize_value <= u64::MAX,
    ensures
        pair_value(r.0, r.1) == pair_value(value, value_high) + usize_value,
{
    let low: u64 = value as u64;
    let high: u64 = (value_high as u64) << 32;
    assert(high == (value_high as u64) * 0x1_0000_0000) by (bit_vector)
        requires
            high == (value_high as u64) << 32,
            value_high as u64 <= 0xffff_ffff,
    ;
    let new_value: u64 = low + high + usize_value as u64;
    let new_low: u64 = new_value & 0xffffffff;
    let new_high: u64 = new_value >> 32;
    assert(new_low <= 0xffff_ffff && new_high <= 0xffff_ffff && new_low + new_high
        * 0x1_0000_0000 == new_value) by (bit_vector)
        requires
            new_low == new_value & 0xffffffff,
            new_high == new_value >> 32,
    ;
    (new_low as u32, new_high as u32)
}

/// What a completed request means for its descriptor.
#[derive(Debug, PartialEq, Eq)]
pub enum Decision {
    /// The read is over: the buffer now holds what was read, and nothing else.
    Deliver,
    /// The read goes on with one more chunk of this size.
    Continue(usize),
    /// The write is over: the file is to be cut at this distance from its end.
    Truncate(i64),
}

/// What the worker does next with a descriptor.
#[derive(Debug, PartialEq, Eq)]
pub enum Step {
    /// Hand these bytes to the read callback as its success.
    ReadDone(Vec<u8>),
    /// Submit a read of `len` bytes into the buffer of `async_data`, from
    /// index `start` on.
    ReadMore { async_data: AsyncData, start: usize, len: usize },
    /// Move the file pointer of `file_handle` to `distance` bytes from the
    /// end of the file, set the end of the file there, and hand the outcome
    /// of the two to the write callback.
    WriteDone { file_handle: usize, distance: i64 },
}

/// The distance from the end of the file at which a write of `bytes_to_write`
/// intended bytes is cut once `nb_bytes_transferred` bytes went out.
pub open spec fn truncation_distance(bytes_to_write: int, nb_bytes_transferred: int) -> int {
    bytes_to_write - nb_bytes_transferred
}

/// Whether the distance at which the write is cut fits the system call.
pub open spec fn distance_fits(async_data: &AsyncData, nb_bytes_transferred: usize) -> bool {
    async_data.is_write() ==> i64::MIN <= truncation_distance(
        async_data.bytes_to_write() as int,
        nb_bytes_transferred as int,
    ) <= i64::MAX
}

/// Decides what the completion of a request that moved `nb_bytes_transferred`
/// bytes means. A read ends exactly when the chunk came back short, and then
/// loses the part of its last chunk that was not filled.
pub fn execute_callback(async_data: &mut AsyncData, nb_bytes_transferred: usize) -> (r: Decision)
    requires
        old(async_data).wf(),
        distance_fits(old(async_data), nb_bytes_transferred),
    ensures
        final(async_data).overlapped == old(async_data).overlapped,
        final(async_data).file_handle == old(async_data).file_handle,
        final(async_data).data_type == old(async_data).data_type,
        old(async_data).is_read() && nb_bytes_transferred < old(async_data).read_size() ==> r
            == Decision::Deliver && final(async_data).buffer@ == old(async_data).buffer@.take(
            old(async_data).overlapped.position() + nb_bytes_transferred,
        ),
        old(async_data).is_read() && nb_bytes_transferred >= old(async_data).read_size() ==> r
            == Decision::Continue(old(async_data).read_size()) && final(async_data).buffer
            == old(async_data).buffer,
        old(async_data).is_write() ==> r == Decision::Truncate(
            truncation_distance(
                old(async_data).bytes_to_write() as int,
                nb_bytes_transferred as int,
            ) as i64,
        ) && final(async_data).buffer == old(async_data).buffer,
{
    match &async_data.data_type {
        DataType::Read(read_data) => {
            let read_size: usize = read_data.read_size;
            if nb_bytes_transferred < read_size {
                let buffer_size: usize = async_data.buffer.len();
                let new_size: usize = buffer_size - (read_size - nb_bytes_transferred);
                async_data.buffer.truncate(new_size);
                Decision::Deliver
            } else {
                Decision::Continue(read_size)
            }
        },
        DataType::Write(write_data) => {
            let distance: i128 = write_data.bytes_to_write as i128 - nb_bytes_transferred as i128;
            Decision::Truncate(distance as i64)
        },
    }
}

/// Whether the buffer can take one more chunk, should the read go on.
pub open spec fn growth_fits(async_data: &AsyncData, nb_bytes_transferred: usize) -> bool {
    async_data.is_read() && nb_bytes_transferred >= async_data.read_size()
        ==> async_data.buffer@.len() + async_data.read_size() <= usize::MAX
}

/// Whether `r` is the step that follows for `async_data` once a request on
/// it completed with `nb_bytes_transferred` bytes.
pub open spec fn follows(async_data: &AsyncData, nb_bytes_transferred: usize, r: &Step) -> bool {
    match *r {
        Step::ReadDone(data) => {
            &&& async_data.is_read()
            &&& nb_bytes_transferred < async_data.read_size()
            &&& data@ == async_data.buffer@.take(
                async_data.overlapped.position() + nb_bytes_transferred,
            )
        },
        Step::ReadMore { async_data: next, start, len } => {
            &&& async_data.is_read()
            &&& nb_bytes_transferred >= async_data.read_size()
            &&& next.wf()
            &&& next.data_type == async_data.data_type
            &&& next.file_handle == async_data.file_handle
            &&& next.buffer@ == async_data.buffer@ + zeros(async_data.read_size() as nat)
            &&& next.overlapped.position() == async_data.overlapped.position()
                + async_data.read_size()
            &&& start == async_data.buffer@.len()
            &&& len == async_data.read_size()
        },
        Step::WriteDone { file_handle, distance } => {
            &&& async_data.is_write()
            &&& file_handle == async_data.file_handle
            &&& distance == truncation_distance(
                async_data.bytes_to_write() as int,
                nb_bytes_transferred as int,
            )
        },
    }
}

/// Continues the operation of `async_data` after a request on it completed
/// with `nb_bytes_transferred` bytes. A read that got a full chunk grows its
/// buffer by one zero-filled chunk, moves its offset on by one chunk and asks
/// for exactly the new chunk; a read that got less is over; a write is over
/// and has the file cut back to the length that was meant.
pub fn read_async(async_data: AsyncData, nb_bytes_transferred: usize) -> (r: Step)
    requires
        async_data.wf(),
        distance_fits(&async_data, nb_bytes_transferred),
        growth_fits(&async_data, nb_bytes_transferred),
    ensures
        follows(&async_data, nb_bytes_transferred, &r),
{
    let mut async_data = async_data;
    let ghost before = async_data;
    match execute_callback(&mut async_data, nb_bytes_transferred) {
        Decision::Continue(next_read_size) => {
            let buffer_size: usize = async_data.buffer.len();
            let new_buffer_size: usize = buffer_size + next_read_size;
            async_data.buffer.resize(new_buffer_size, 0);
            assert(async_data.buffer@ =~= before.buffer@ + zeros(next_read_size as nat));
            let (offset, offset_high) = add_usize_to_u32_pair(
                async_data.overlapped.offset,
                async_data.overlapped.offset_high,
                next_read_size,
            );
            async_data.overlapped.offset = offset;
            async_data.overlapped.offset_high = offset_high;
            Step::ReadMore { async_data, start: buffer_size, len: next_read_size }
        },
        Decision::Deliver => Step::ReadDone(async_data.buffer),
        Decision::Truncate(distance) => Step::WriteDone {
            file_handle: async_data.file_handle,
            distance,
        },
    }
}

/// The byte count that a completion stands for: none when the wait reported
/// the end of the file, else the count that came with it.
pub open spec fn transferred(status: &CompletionStatus) -> usize {
    if status.end_of_file {
        0
    } else {
        status.nb_bytes_transferred as usize
    }
}

/// One turn of a worker: continues the operation of the descriptor whose
/// request completed with `completion_status`.
pub fn wait_for_io(async_data: AsyncData, completion_status: &CompletionStatus) -> (r: Step)
    requires
        async_data.wf(),
        distance_fits(&async_data, transferred(completion_status)),
        growth_fits(&async_data, transferred(completion_status)),
    ensures
        follows(&async_data, transferred(completion_status), &r),
{
    if completion_status.end_of_file {
        read_async(async_data, 0)
    } else {
        read_async(async_data, completion_status.nb_bytes_transferred as usize)
    }
}

/// What the write callback receives once the file was cut: the failure of
/// the move of the file pointer where that failed, else the outcome of
/// setting the end of the file.
pub fn finish_write(moved: Result<(), String>, truncated: Result<(), String>) -> (r: Completion)
    ensures
        r == Completion::Write(
            match moved {
                Ok(_) => truncated,
                Err(error) => Err(error),
            },
        ),
{
    match moved {
        Ok(_) => Completion::Write(truncated),
        Err(error) => Completion::Write(Err(error)),
    }
}

/// The completion port that all files share: not made yet, made, or failed
/// to be made.
#[derive(Debug, Clone, Copy, PartialEq, Eq)]
pub enum PortState {
    Uninitialized,
    Ready(usize),
    Failed,
}

impl PortState {
    /// What a caller gets from the port in this state.
    pub open spec fn answer(&self) -> Result<usize, Seq<char>> {
        match *self {
            PortState::Ready(handle) => Ok(handle),
            _ => Err("Error in create_io_workers"@),
        }
    }

    /// The state after the outcome `created` of making the port came in:
    /// the first outcome stays for good.
    pub open spec fn settled(&self, created: Option<Result<usize, String>>) -> PortState {
        match (*self, created) {
            (PortState::Uninitialized, Some(Ok(handle))) => PortState::Ready(handle),
            (PortState::Uninitialized, Some(Err(_))) => PortState::Failed,
            _ => *self,
        }
    }

    pub fn new() -> (r: PortState)
        ensures
            r is Uninitialized,
    {
        PortState::Uninitialized
    }

    /// Whether the port still has to be made.
    pub fn is_uninitialized(&self) -> (r: bool)
        ensures
            r == (*self is Uninitialized),
    {
        match self {
            PortState::Uninitialized => true,
            _ => false,
        }
    }
}

/// Gives the shared completion port. The first caller brings the outcome of
/// making it, which is kept; every caller after that gets what the first
/// one got, success or failure, whatever it brings itself.
pub fn init_static_completion_port_once(
    state: &mut PortState,
    created: Option<Result<usize, String>>,
) -> (r: Result<usize, &'static str>)
    requires
        *old(state) is Uninitialized ==> created is Some,
    ensures
        *final(state) == old(state).settled(created),
        !(*final(state) is Uninitialized),
        match r {
            Ok(handle) => final(state).answer() == Ok::<usize, Seq<char>>(handle),
            Err(error) => final(state).answer() == Err::<usize, Seq<char>>(error@),
        },
{
    if state.is_uninitialized() {
        match created {
            Some(Ok(handle)) => {
                *state = PortState::Ready(handle);
            },
            _ => {
                *state = PortState::Failed;
            },
        }
    }
    match state {
        PortState::Ready(handle) => Ok(*handle),
        _ => Err("Error in create_io_workers"),
    }
}

/// Once the port was asked for, asking again changes nothing.
pub proof fn lemma_port_is_settled_once(
    state: PortState,
    first: Option<Result<usize, String>>,
    second: Option<Result<usize, String>>,
)
    requires
        state is Uninitialized ==> first is Some,
    ensures
        state.settled(first).settled(second) == state.settled(first),
{
}

/// The number of workers that serve the queue on a machine with
/// `number_of_processors` logical processors: two for each.
pub fn nb_workers(number_of_processors: u32) -> (n: u64)
    ensures
        n == 2 * number_of_processors,
{
    (number_of_processors as u64) * 2
}

} // verus!
