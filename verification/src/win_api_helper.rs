use vstd::prelude::*;
use vstd::string::*;

verus! {

/// The value with which a system call reports that it succeeded.
pub const TRUE: i32 = 1;

/// The error code of a request that was queued and will complete later.
pub const ERROR_IO_PENDING: u32 = 997;

/// The error code of a read that started at or after the end of the file.
pub const ERROR_HANDLE_EOF: u32 = 38;

/// The disposition that creates a file, and fails where one exists.
pub const CREATE_NEW: u32 = 1;

/// The disposition that opens a file, and fails where none exists.
pub const OPEN_EXISTING: u32 = 3;

/// The handle that stands for no file.
pub const INVALID_HANDLE_VALUE: usize = usize::MAX;

/// The decimal digit for `d`.
pub open spec fn digit_char(d: nat) -> char
    recommends
        d < 10,
{
    if d == 0 {
        '0'
    } else if d == 1 {
        '1'
    } else if d == 2 {
        '2'
    } else if d == 3 {
        '3'
    } else if d == 4 {
        '4'
    } else if d == 5 {
        '5'
    } else if d == 6 {
        '6'
    } else if d == 7 {
        '7'
    } else if d == 8 {
        '8'
    } else {
        '9'
    }
}

/// `n` in decimal, without leading zeros.
pub open spec fn decimal_digits(n: nat) -> Seq<char>
    decreases n,
{
    if n < 10 {
        seq![digit_char(n)]
    } else {
        decimal_digits(n / 10).push(digit_char(n % 10))
    }
}

fn digit(d: u32) -> (r: &'static str)
    requires
        d < 10,
    ensures
        r@ == seq![digit_char(d as nat)],
{
    proof {
        reveal_strlit("0");
        reveal_strlit("1");
        reveal_strlit("2");
        reveal_strlit("3");
        reveal_strlit("4");
        reveal_strlit("5");
        reveal_strlit("6");
        reveal_strlit("7");
        reveal_strlit("8");
        reveal_strlit("9");
    }
    let r = if d == 0 {
        "0"
    } else if d == 1 {
        "1"
    } else if d == 2 {
        "2"
    } else if d == 3 {
        "3"
    } else if d == 4 {
        "4"
    } else if d == 5 {
        "5"
    } else if d == 6 {
        "6"
    } else if d == 7 {
        "7"
    } else if d == 8 {
        "8"
    } else {
        "9"
    };
    assert(r@ =~= seq![digit_char(d as nat)]);
    r
}

/// Writes `n` in decimal.
pub fn decimal(n: u32) -> (r: String)
    ensures
        r@ == decimal_digits(n as nat),
    decreases n,
{
    if n < 10 {
        String::from_str(digit(n))
    } else {
        let r = decimal(n / 10).concat(digit(n % 10));
        assert(r@ =~= decimal_digits(n as nat));
        r
    }
}

/// The text of an error: what was attempted, the system's error code, and
/// the system's own words for it, or a fixed phrase where it has none.
pub open spec fn error_message(context: Seq<char>, error_id: u32, system_message: Option<String>) -> Seq<char> {
    "Error "@ + context + ": ("@ + decimal_digits(error_id as nat) + ") "@ + (match system_message {
        Some(message) => message@,
        None => "no message available"@,
    }) + "."@
}

/// Writes the text of an error.
pub fn get_error_message(context: &str, error_id: u32, system_message: Option<String>) -> (r:
    String)
    ensures
        r@ == error_message(context@, error_id, system_message),
{
    let mut text = String::from_str("Error ");
    text.append(context);
    text.append(": (");
    let number = decimal(error_id);
    text.append(number.as_str());
    text.append(") ");
    match &system_message {
        Some(message) => text.append(message.as_str()),
        None => text.append("no message available"),
    }
    text.append(".");
    text
}

/// The UTF-16 code units of one character.
pub open spec fn utf16_units(c: char) -> Seq<u16> {
    let code = c as u32;
    if code < 0x10000 {
        seq![code as u16]
    } else {
        seq![
            (0xD800 + (code - 0x10000) / 0x400) as u16,
            (0xDC00 + (code - 0x10000) % 0x400) as u16,
        ]
    }
}

/// `text` in UTF-16.
pub open spec fn utf16(text: Seq<char>) -> Seq<u16>
    decreases text.len(),
{
    if text.len() == 0 {
        Seq::empty()
    } else {
        utf16(text.drop_last()) + utf16_units(text.last())
    }
}

/// `str` as the system takes a string: in UTF-16, with a zero after it.
pub fn string_to_utf16(str: &String) -> (r: Vec<u16>)
    ensures
        r@ == utf16(str@).push(0),
{
    let text = str.as_str();
    let length: usize = text.unicode_len();
    let mut buffer: Vec<u16> = Vec::new();
    let mut i: usize = 0;
    while i < length
        invariant
            i <= length,
            length == text@.len(),
            buffer@ == utf16(text@.take(i as int)),
        decreases length - i,
    {
        let c = text.get_char(i);
        let code: u32 = c as u32;
        if code < 0x10000 {
            buffer.push(code as u16);
        } else {
            let rest: u32 = code - 0x10000;
            buffer.push((0xD800 + rest / 0x400) as u16);
            buffer.push((0xDC00 + rest % 0x400) as u16);
        }
        proof {
            assert(text@.take(i + 1).drop_last() =~= text@.take(i as int));
            assert(text@.take(i + 1).last() == c);
            assert(buffer@ =~= utf16(text@.take(i as int)) + utf16_units(c));
        }
        i += 1;
    }
    assert(text@.take(length as int) =~= text@);
    buffer.push(0);
    buffer
}

/// The text that `String::from_utf16_lossy` decodes from `units`.
pub uninterp spec fn utf16_lossy(units: Seq<u16>) -> Seq<char>;

/// `String::from_utf16_lossy`: decodes UTF-16, with the replacement
/// character in place of what is no valid UTF-16. Nothing is claimed of the
/// text but that it depends on the code units alone.
#[verifier::external_body]
fn from_utf16_lossy(units: &Vec<u16>) -> (r: String)
    ensures
        r@ == utf16_lossy(units@),
{
    String::from_utf16_lossy(units)
}

/// Whether `length` is where the text in `units` ends: at the first zero,
/// or at the end where there is none.
pub open spec fn is_text_length(units: Seq<u16>, length: int) -> bool {
    &&& 0 <= length <= units.len()
    &&& forall|i: int| 0 <= i < length ==> units[i] != 0
    &&& length < units.len() ==> units[length] == 0
}

/// Decodes the text that `units` holds up to its first zero.
pub fn utf16_tostring(units: &Vec<u16>) -> (r: String)
    ensures
        exists|length: int| #[trigger]
            is_text_length(units@, length) && r@ == utf16_lossy(units@.take(length)),
{
    let mut buffer: Vec<u16> = Vec::new();
    let mut length: usize = 0;
    while length < units.len() && units[length] != 0
        invariant
            length <= units.len(),
            forall|i: int| 0 <= i < length ==> units[i] != 0,
            buffer@ == units@.take(length as int),
        decreases units.len() - length,
    {
        buffer.push(units[length]);
        assert(buffer@ =~= units@.take(length + 1));
        length += 1;
    }
    assert(is_text_length(units@, length as int));
    from_utf16_lossy(&buffer)
}

/// What the system had to say about an error: nothing where it gave no
/// message, else the text of the message, with a remark added where its
/// memory could not be given back.
pub fn get_last_error_message(message: Option<Vec<u16>>, freed: bool) -> (r: Option<String>)
    ensures
        message is None <==> r is None,
        message is Some ==> exists|length: int| #[trigger]
            is_text_length(message->0@, length) && r->0@ == utf16_lossy(
                message->0@.take(length),
            ) + (if freed {
                Seq::<char>::empty()
            } else {
                ". In addition there is an error in LocalFree"@
            }),
{
    match message {
        None => None,
        Some(units) => {
            let message_str = utf16_tostring(&units);
            if freed {
                assert(message_str@ + Seq::<char>::empty() =~= message_str@);
                Some(message_str)
            } else {
                Some(message_str.concat(". In addition there is an error in LocalFree"))
            }
        },
    }
}

/// The words for the attempt that a disposition stands for.
pub open spec fn disposition_words(creation_disposition: u32) -> Seq<char> {
    if creation_disposition == OPEN_EXISTING {
        "cannot open "@
    } else {
        "cannot create "@
    }
}

/// The text of the error for a file that could not be opened or created.
pub fn get_create_file_async_error(
    path_str: &str,
    error_id: u32,
    creation_disposition: u32,
    system_message: Option<String>,
) -> (r: String)
    requires
        creation_disposition == OPEN_EXISTING || creation_disposition == CREATE_NEW,
    ensures
        r@ == error_message(
            disposition_words(creation_disposition) + path_str@,
            error_id,
            system_message,
        ),
{
    let message = if creation_disposition == OPEN_EXISTING {
        "cannot open "
    } else {
        "cannot create "
    };
    let full_message = String::from_str(message).concat(path_str);
    get_error_message(full_message.as_str(), error_id, system_message)
}

/// Interprets what the system call that opens or creates a file returned:
/// the handle, or the text of the error where it is the one that stands for
/// no file.
pub fn create_file_async(
    path_str: &str,
    file: usize,
    error_id: u32,
    creation_disposition: u32,
    system_message: Option<String>,
) -> (r: Result<usize, String>)
    requires
        creation_disposition == OPEN_EXISTING || creation_disposition == CREATE_NEW,
    ensures
        file != INVALID_HANDLE_VALUE ==> r == Ok::<usize, String>(file),
        file == INVALID_HANDLE_VALUE ==> r is Err && r->Err_0@ == error_message(
            disposition_words(creation_disposition) + path_str@,
            error_id,
            system_message,
        ),
{
    if file == INVALID_HANDLE_VALUE {
        Err(get_create_file_async_error(path_str, error_id, creation_disposition, system_message))
    } else {
        Ok(file)
    }
}

/// Interprets what the system call that makes a completion port, or ties a
/// file to one, returned: the port, or the text of the error where it is
/// null.
pub fn create_io_completion_port(handle: usize, error_id: u32, system_message: Option<String>) -> (r:
    Result<usize, String>)
    ensures
        handle != 0 ==> r == Ok::<usize, String>(handle),
        handle == 0 ==> r is Err && r->Err_0@ == error_message(
            "Error in CreateIoCompletion"@,
            error_id,
            system_message,
        ),
{
    if handle == 0 {
        Err(get_error_message("Error in CreateIoCompletion", error_id, system_message))
    } else {
        Ok(handle)
    }
}

/// Interprets what the system call that moves the file pointer returned:
/// zero is its failure.
pub fn set_file_pointer_ex(status: i32, error_id: u32, system_message: Option<String>) -> (r:
    Result<(), String>)
    ensures
        status != 0 ==> r == Ok::<(), String>(()),
        status == 0 ==> r is Err && r->Err_0@ == error_message(
            "SetFilePointer"@,
            error_id,
            system_message,
        ),
{
    if status == 0 {
        Err(get_error_message("SetFilePointer", error_id, system_message))
    } else {
        Ok(())
    }
}

/// Interprets what the system call that sets the end of the file returned:
/// zero is its failure.
pub fn set_end_of_file(status: i32, error_id: u32, system_message: Option<String>) -> (r: Result<
    (),
    String,
>)
    ensures
        status != 0 ==> r == Ok::<(), String>(()),
        status == 0 ==> r is Err && r->Err_0@ == error_message(
            "SetEndOfFile"@,
            error_id,
            system_message,
        ),
{
    if status == 0 {
        Err(get_error_message("SetEndOfFile", error_id, system_message))
    } else {
        Ok(())
    }
}

/// A submission that failed: the text of the failure, and the descriptor,
/// which is handed back with it.
pub struct AsyncOperationError<T> {
    pub error: String,
    pub overlapped_box: Box<T>,
}

/// Whether the system call queued the request: it did not report success,
/// and the error it left is the one that says "pending".
pub open spec fn is_pending(status: i32, error_id: u32) -> bool {
    status != TRUE && error_id == ERROR_IO_PENDING
}

/// Tells whether the system call queued the request.
pub fn queued(status: i32, error_id: u32) -> (r: bool)
    ensures
        r == is_pending(status, error_id),
{
    status != TRUE && error_id == ERROR_IO_PENDING
}

/// The text of the failure of a submission that was not queued.
pub open spec fn submission_error(
    status: i32,
    operation_type: Seq<char>,
    error_id: u32,
    system_message: Option<String>,
) -> Seq<char> {
    if status == TRUE {
        "Error "@ + operation_type + " is synchronous"@
    } else {
        error_message(
            "Error when performaing "@ + operation_type + " async"@,
            error_id,
            system_message,
        )
    }
}

/// Interprets what the system call that submitted a request reported. The
/// request is under way only where it was queued, and then the descriptor
/// comes back untouched, to be kept until the completion arrives. A call
/// that failed, and one that completed on the spot, is an error that hands
/// the descriptor back with its text.
pub fn check_async_operation<T>(
    overlapped_box: Box<T>,
    status: i32,
    operation_type: &str,
    error_id: u32,
    system_message: Option<String>,
) -> (r: Result<Box<T>, AsyncOperationError<T>>)
    ensures
        is_pending(status, error_id) ==> r == Ok::<Box<T>, AsyncOperationError<T>>(overlapped_box),
        !is_pending(status, error_id) ==> r is Err && r->Err_0.overlapped_box == overlapped_box
            && r->Err_0.error@ == submission_error(
            status,
            operation_type@,
            error_id,
            system_message,
        ),
{
    if queued(status, error_id) {
        Ok(overlapped_box)
    } else {
        let error = if status == TRUE {
            String::from_str("Error ").concat(operation_type).concat(" is synchronous")
        } else {
            let context = String::from_str("Error when performaing ").concat(
                operation_type,
            ).concat(" async");
            get_error_message(context.as_str(), error_id, system_message)
        };
        Err(AsyncOperationError { error, overlapped_box })
    }
}

/// Interprets what the system call that submitted a write reported.
pub fn write_file_async<T>(
    overlapped_box: Box<T>,
    status: i32,
    error_id: u32,
    system_message: Option<String>,
) -> (r: Result<Box<T>, AsyncOperationError<T>>)
    ensures
        is_pending(status, error_id) ==> r == Ok::<Box<T>, AsyncOperationError<T>>(overlapped_box),
        !is_pending(status, error_id) ==> r is Err && r->Err_0.overlapped_box == overlapped_box
            && r->Err_0.error@ == submission_error(status, "write"@, error_id, system_message),
{
    check_async_operation(overlapped_box, status, "write", error_id, system_message)
}

/// Interprets what the system call that submitted a read reported.
pub fn read_file_async<T>(
    overlapped_box: Box<T>,
    status: i32,
    error_id: u32,
    system_message: Option<String>,
) -> (r: Result<Box<T>, AsyncOperationError<T>>)
    ensures
        is_pending(status, error_id) ==> r == Ok::<Box<T>, AsyncOperationError<T>>(overlapped_box),
        !is_pending(status, error_id) ==> r is Err && r->Err_0.overlapped_box == overlapped_box
            && r->Err_0.error@ == submission_error(status, "read"@, error_id, system_message),
{
    check_async_operation(overlapped_box, status, "read", error_id, system_message)
}

/// What a wait on the completion queue brought: the bytes that the request
/// moved, and whether the wait ended on the end of the file.
#[derive(Debug, PartialEq, Eq)]
pub struct CompletionStatus {
    pub nb_bytes_transferred: u32,
    pub end_of_file: bool,
}

/// Interprets what a wait on the completion queue reported. A wait that
/// failed on the end of the file is a completion like any other, marked as
/// such; any other failure is an error of the queue itself.
pub fn get_queued_completion_status(
    succeeded: bool,
    nb_bytes_transferred: u32,
    error_id: u32,
    system_message: Option<String>,
) -> (r: Result<CompletionStatus, String>)
    ensures
        succeeded ==> r == Ok::<CompletionStatus, String>(
            CompletionStatus { nb_bytes_transferred, end_of_file: false },
        ),
        !succeeded && error_id == ERROR_HANDLE_EOF ==> r == Ok::<CompletionStatus, String>(
            CompletionStatus { nb_bytes_transferred, end_of_file: true },
        ),
        !succeeded && error_id != ERROR_HANDLE_EOF ==> r is Err && r->Err_0@ == error_message(
            "GetQueuedCompletionStatus"@,
            error_id,
            system_message,
        ),
{
    if succeeded {
        Ok(CompletionStatus { nb_bytes_transferred, end_of_file: false })
    } else if error_id == ERROR_HANDLE_EOF {
        Ok(CompletionStatus { nb_bytes_transferred, end_of_file: true })
    } else {
        Err(get_error_message("GetQueuedCompletionStatus", error_id, system_message))
    }
}

} // verus!
