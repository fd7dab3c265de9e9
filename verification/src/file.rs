use vstd::prelude::*;
use vstd::string::*;
use crate::async_data::{zeros, AsyncData, Completion};
use crate::tools::{read_file_async_data, write_file_async_data, Operation, Request};

verus! {

/// The least multiple of `unit` that is not below `n`.
pub open spec fn round_up(n: nat, unit: nat) -> nat
    recommends
        unit > 0,
{
    if n % unit == 0 {
        n
    } else {
        (n - n % unit + unit) as nat
    }
}

/// An open file: its handle, and the unit to which the sizes of its reads
/// and writes are rounded.
#[derive(Debug, PartialEq, Eq)]
pub struct File {
    file: usize,
    cluster_size: usize,
}

impl File {
    pub closed spec fn handle(&self) -> usize {
        self.file
    }

    pub closed spec fn cluster_size(&self) -> usize {
        self.cluster_size
    }

    pub open spec fn wf(&self) -> bool {
        self.cluster_size() > 0
    }

    /// The file behind an open handle.
    pub fn from_handle(file: usize) -> (r: File)
        ensures
            r.wf(),
            r.handle() == file,
            r.cluster_size() == 1024,
    {
        File { file, cluster_size: File::get_cluster_size() }
    }

    /// The file behind an open handle, on storage whose unit is
    /// `cluster_size` bytes; none for a unit of no bytes.
    pub fn with_cluster_size(file: usize, cluster_size: usize) -> (r: Option<File>)
        ensures
            cluster_size == 0 <==> r is None,
            r is Some ==> r->0.wf() && r->0.handle() == file && r->0.cluster_size()
                == cluster_size,
    {
        if cluster_size == 0 {
            None
        } else {
            Some(File { file, cluster_size })
        }
    }

    /// The unit of the storage where nothing else is known of it.
    pub fn get_cluster_size() -> (r: usize)
        ensures
            r == 1024,
    {
        1024
    }

    /// Starts the write of `buff`: pads it with zeros to a whole number of
    /// clusters and remembers its own length as the length that the file is
    /// to have. Gives the descriptor and the request that writes its buffer.
    pub fn write_all(&mut self, buff: Vec<u8>) -> (r: (AsyncData, Request))
        requires
            old(self).wf(),
            round_up(buff@.len(), old(self).cluster_size() as nat) <= usize::MAX,
        ensures
            *final(self) == *old(self),
            r.0.wf(),
            r.0.is_write(),
            r.0.bytes_to_write() == buff@.len(),
            r.0.file_handle == old(self).handle(),
            r.0.buffer@ == buff@ + zeros(
                (round_up(buff@.len(), old(self).cluster_size() as nat) - buff@.len()) as nat,
            ),
            r.0.overlapped.position() == 0,
            r.1 == (Request {
                operation: Operation::Write,
                file_handle: old(self).handle(),
                start: 0,
                len: round_up(buff@.len(), old(self).cluster_size() as nat) as usize,
            }),
    {
        let mut buff = buff;
        let byte_to_write: usize = buff.len();
        self.adjust_write_buffer(&mut buff);
        let async_data = AsyncData::new_write_data(self.file, buff, byte_to_write);
        let request = write_file_async_data(self.file, &async_data);
        (async_data, request)
    }

    /// Whether `started` is the start of a read of this file in chunks of
    /// `read_size` bytes: a new read descriptor, and the request that fills
    /// its first chunk.
    pub open spec fn starts_read(&self, read_size: usize, started: &(AsyncData, Request)) -> bool {
        &&& started.0.wf()
        &&& started.0.is_read()
        &&& started.0.read_size() == read_size
        &&& started.0.file_handle == self.handle()
        &&& started.0.buffer@ == zeros(read_size as nat)
        &&& started.0.overlapped.position() == 0
        &&& started.1 == (Request {
            operation: Operation::Read,
            file_handle: self.handle(),
            start: 0,
            len: read_size,
        })
    }

    fn start_read(&self, read_size: usize) -> (r: (AsyncData, Request))
        ensures
            self.starts_read(read_size, &r),
    {
        let async_data = AsyncData::new_read_data(self.file, read_size);
        let request = read_file_async_data(self.file, &async_data);
        (async_data, request)
    }

    /// Starts a read in chunks of `approximate_read_size` bytes, rounded up
    /// to a whole number of clusters. A size of zero is refused, with the
    /// failure that the read callback is owed: chunks of no bytes would
    /// never come back short.
    pub fn read_all_with_buffer_size(&mut self, approximate_read_size: usize) -> (r: Result<
        (AsyncData, Request),
        Completion,
    >)
        requires
            old(self).wf(),
            round_up(approximate_read_size as nat, old(self).cluster_size() as nat) <= usize::MAX,
        ensures
            *final(self) == *old(self),
            approximate_read_size == 0 <==> r is Err,
            r is Ok ==> r->Ok_0.0.read_size() > 0,
            match r {
                Ok(started) => old(self).starts_read(
                    round_up(
                        approximate_read_size as nat,
                        old(self).cluster_size() as nat,
                    ) as usize,
                    &started,
                ),
                Err(Completion::Read(Err(error))) => error@ == "Error read size is zero"@,
                Err(_) => false,
            },
    {
        if approximate_read_size == 0 {
            Err(Completion::Read(Err(String::from_str("Error read size is zero"))))
        } else {
            let read_size: usize = self.compute_buffer_size(approximate_read_size);
            Ok(self.start_read(read_size))
        }
    }

    /// Starts a read in chunks of 1024 bytes, rounded up to a whole number of
    /// clusters.
    pub fn read_all(&mut self) -> (r: (AsyncData, Request))
        requires
            old(self).wf(),
            round_up(1024, old(self).cluster_size() as nat) <= usize::MAX,
        ensures
            *final(self) == *old(self),
            old(self).starts_read(
                round_up(1024, old(self).cluster_size() as nat) as usize,
                &r,
            ),
            r.0.read_size() > 0,
    {
        let read_size: usize = self.compute_buffer_size(1024);
        self.start_read(read_size)
    }

    /// `approximate_buffer_size`, rounded up to a whole number of clusters.
    pub fn compute_buffer_size(&self, approximate_buffer_size: usize) -> (r: usize)
        requires
            self.wf(),
            round_up(approximate_buffer_size as nat, self.cluster_size() as nat) <= usize::MAX,
        ensures
            r == round_up(approximate_buffer_size as nat, self.cluster_size() as nat),
            r >= approximate_buffer_size,
    {
        let rest: usize = approximate_buffer_size % self.cluster_size;
        assert(rest <= approximate_buffer_size) by (nonlinear_arith)
            requires
                rest == approximate_buffer_size % self.cluster_size,
                self.cluster_size > 0,
        ;
        if rest == 0 {
            approximate_buffer_size
        } else {
            approximate_buffer_size - rest + self.cluster_size
        }
    }

    /// Pads `buff` with zeros to a whole number of clusters.
    pub fn adjust_write_buffer(&self, buff: &mut Vec<u8>)
        requires
            self.wf(),
            round_up(old(buff)@.len(), self.cluster_size() as nat) <= usize::MAX,
        ensures
            final(buff)@ == old(buff)@ + zeros(
                (round_up(old(buff)@.len(), self.cluster_size() as nat) - old(buff)@.len()) as nat,
            ),
    {
        let new_size: usize = self.compute_buffer_size(buff.len());
        buff.resize(new_size, 0);
        assert(buff@ =~= old(buff)@ + zeros((new_size - old(buff)@.len()) as nat));
    }
}

} // verus!
