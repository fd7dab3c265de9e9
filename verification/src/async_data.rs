use vstd::prelude::*;

verus! {

/// What a write descriptor remembers: the number of bytes the caller meant to
/// write, before the buffer was padded.
#[derive(Debug, PartialEq, Eq)]
pub struct WriteData {
    pub bytes_to_write: usize,
}

/// What a read descriptor remembers: the size of one chunk.
#[derive(Debug, PartialEq, Eq)]
pub struct ReadData {
    pub read_size: usize,
}

#[derive(Debug, PartialEq, Eq)]
pub enum DataType {
    Write(WriteData),
    Read(ReadData),
}

/// The part of the native request header that the engine maintains: the byte
/// offset of the request in the file, in two 32-bit halves.
#[derive(Debug, PartialEq, Eq)]
pub struct Overlapped {
    pub offset: u32,
    pub offset_high: u32,
}

/// What is handed to the callback of an operation when it ends.
#[derive(Debug, PartialEq, Eq)]
pub enum Completion {
    Read(Result<Vec<u8>, String>),
    Write(Result<(), String>),
}

/// The descriptor of one read or write in progress.
#[derive(Debug, PartialEq, Eq)]
pub struct AsyncData {
    pub overlapped: Overlapped,
    pub file_handle: usize,
    pub buffer: Vec<u8>,
    pub data_type: DataType,
}

/// The 64-bit value that a low and a high half stand for.
pub open spec fn pair_value(low: u32, high: u32) -> int {
    low as int + high as int * 0x1_0000_0000
}

/// `n` zero bytes.
pub open spec fn zeros(n: nat) -> Seq<u8> {
    Seq::new(n, |i: int| 0u8)
}

impl Overlapped {
    /// The byte offset in the file at which the request starts.
    pub open spec fn position(&self) -> int {
        pair_value(self.offset, self.offset_high)
    }
}

impl AsyncData {
    pub open spec fn is_read(&self) -> bool {
        self.data_type is Read
    }

    pub open spec fn is_write(&self) -> bool {
        self.data_type is Write
    }

    /// The chunk size of a read descriptor.
    pub open spec fn read_size(&self) -> usize
        recommends
            self.is_read(),
    {
        self.data_type->Read_0.read_size
    }

    /// The intended length of a write descriptor.
    pub open spec fn bytes_to_write(&self) -> usize
        recommends
            self.is_write(),
    {
        self.data_type->Write_0.bytes_to_write
    }

    /// A read descriptor's pending request fills the last chunk of its
    /// buffer, and everything before that chunk was read from the start of
    /// the file: the buffer ends one chunk after the request's offset.
    pub open spec fn wf(&self) -> bool {
        self.is_read() ==> self.buffer@.len() == self.overlapped.position() + self.read_size()
    }

    /// A write descriptor for `buffer`, of which the first `bytes_to_write`
    /// bytes are the caller's.
    pub fn new_write_data(file_handle: usize, buffer: Vec<u8>, bytes_to_write: usize) -> (r:
        AsyncData)
        ensures
            r.wf(),
            r.is_write(),
            r.bytes_to_write() == bytes_to_write,
            r.file_handle == file_handle,
            r.buffer == buffer,
            r.overlapped.offset == 0,
            r.overlapped.offset_high == 0,
    {
        AsyncData {
            overlapped: AsyncData::create_overlapped(),
            file_handle,
            buffer,
            data_type: DataType::Write(WriteData { bytes_to_write }),
        }
    }

    /// A read descriptor with a zero-filled buffer of one chunk.
    pub fn new_read_data(file_handle: usize, read_size: usize) -> (r: AsyncData)
        ensures
            r.wf(),
            r.is_read(),
            r.read_size() == read_size,
            r.file_handle == file_handle,
            r.buffer@ == zeros(read_size as nat),
            r.overlapped.offset == 0,
            r.overlapped.offset_high == 0,
    {
        let buffer = vec![0u8; read_size];
        assert(buffer@ =~= zeros(read_size as nat));
        AsyncData {
            overlapped: AsyncData::create_overlapped(),
            file_handle,
            buffer,
            data_type: DataType::Read(ReadData { read_size }),
        }
    }

    /// The failure that the descriptor's callback receives when the
    /// operation could not be started: of the descriptor's own kind, with
    /// `error` as its message.
    pub fn execute_error_callback(&self, error: String) -> (r: Completion)
        ensures
            self.is_read() ==> r == Completion::Read(Err(error)),
            self.is_write() ==> r == Completion::Write(Err(error)),
    {
        match &self.data_type {
            DataType::Read(_) => Completion::Read(Err(error)),
            DataType::Write(_) => Completion::Write(Err(error)),
        }
    }

    /// A header for a request at the start of the file.
    pub fn create_overlapped() -> (r: Overlapped)
        ensures
            r.offset == 0,
            r.offset_high == 0,
    {
        Overlapped { offset: 0, offset_high: 0 }
    }
}

} // verus!
