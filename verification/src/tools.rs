use vstd::prelude::*;
use crate::async_data::{AsyncData, Completion, DataType};
use crate::win_api_helper::{
    is_pending,
    read_file_async,
    submission_error,
    write_file_async,
    AsyncOperationError,
};

verus! {

#[derive(Debug, Clone, Copy, PartialEq, Eq)]
pub enum Operation {
    Read,
    Write,
}

/// A request to the system: the operation, the file, and the part of the
/// descriptor's buffer that it reads from or fills.
#[derive(Debug, Clone, Copy, PartialEq, Eq)]
pub struct Request {
    pub operation: Operation,
    pub file_handle: usize,
    pub start: usize,
    pub len: usize,
}

/// The request that writes the whole buffer of `async_data` to `file`.
pub fn write_file_async_data(file: usize, async_data: &AsyncData) -> (r: Request)
    ensures
        r == (Request {
            operation: Operation::Write,
            file_handle: file,
            start: 0,
            len: async_data.buffer@.len() as usize,
        }),
{
    Request { operation: Operation::Write, file_handle: file, start: 0, len: async_data.buffer.len() }
}

/// The request that fills the whole buffer of `async_data` from `file`.
pub fn read_file_async_data(file: usize, async_data: &AsyncData) -> (r: Request)
    ensures
        r == (Request {
            operation: Operation::Read,
            file_handle: file,
            start: 0,
            len: async_data.buffer@.len() as usize,
        }),
{
    read_file_async_data_buffer(file, 0, async_data.buffer.len(), async_data)
}

/// The request that fills `buffer_size` bytes of the buffer of `async_data`,
/// from index `start` on, from `file`.
pub fn read_file_async_data_buffer(
    file: usize,
    start: usize,
    buffer_size: usize,
    async_data: &AsyncData,
) -> (r: Request)
    requires
        start + buffer_size <= async_data.buffer@.len(),
    ensures
        r == (Request { operation: Operation::Read, file_handle: file, start, len: buffer_size }),
{
    Request { operation: Operation::Read, file_handle: file, start, len: buffer_size }
}

/// Whether `completion` is the failure of an operation of the kind of
/// `async_data`, with `text` as its message.
pub open spec fn fails_with(completion: &Completion, async_data: &AsyncData, text: Seq<char>) -> bool {
    match *completion {
        Completion::Read(Err(error)) => async_data.is_read() && error@ == text,
        Completion::Write(Err(error)) => async_data.is_write() && error@ == text,
        _ => false,
    }
}

/// Resolves a submission. One that is under way keeps its descriptor for
/// the completion to come. One that failed gives the failure that the
/// descriptor's callback is owed, with the error's text.
pub fn handle_async_operation_error(
    result: Result<Box<AsyncData>, AsyncOperationError<AsyncData>>,
) -> (r: Result<AsyncData, Completion>)
    ensures
        match result {
            Ok(async_data) => r == Ok::<AsyncData, Completion>(*async_data),
            Err(async_operation_error) => r is Err && fails_with(
                &r->Err_0,
                &*async_operation_error.overlapped_box,
                async_operation_error.error@,
            ),
        },
{
    match result {
        Ok(async_data) => Ok(*async_data),
        Err(async_operation_error) => {
            let async_data = async_operation_error.overlapped_box;
            Err(async_data.execute_error_callback(async_operation_error.error))
        },
    }
}

/// The name of the kind of operation that `async_data` describes.
pub open spec fn operation_name(async_data: &AsyncData) -> Seq<char> {
    if async_data.is_read() {
        "read"@
    } else {
        "write"@
    }
}

/// Settles the submission of `async_data` from what the system call
/// reported. Where the request was queued, nothing is delivered and the
/// descriptor is kept. In every other case the descriptor's callback gets a
/// failure: none is dropped without one.
pub fn dispatch(
    async_data: AsyncData,
    status: i32,
    error_id: u32,
    system_message: Option<String>,
) -> (r: Result<AsyncData, Completion>)
    ensures
        is_pending(status, error_id) ==> r == Ok::<AsyncData, Completion>(async_data),
        !is_pending(status, error_id) ==> r is Err && fails_with(
            &r->Err_0,
            &async_data,
            submission_error(status, operation_name(&async_data), error_id, system_message),
        ),
{
    let result = match &async_data.data_type {
        DataType::Read(_) => read_file_async(Box::new(async_data), status, error_id, system_message),
        DataType::Write(_) => write_file_async(
            Box::new(async_data),
            status,
            error_id,
            system_message,
        ),
    };
    handle_async_operation_error(result)
}

} // verus!
