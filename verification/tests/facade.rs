use overlapped_file::async_data::{Completion, DataType, ReadData, WriteData};
use overlapped_file::file::File;
use overlapped_file::tools::{Operation, Request};

#[test]
fn cluster_size_is_fixed() {
    assert_eq!(File::get_cluster_size(), 1024);
}

#[test]
fn buffer_size_is_rounded_up_to_clusters() {
    let file = File::from_handle(1);
    assert_eq!(file.compute_buffer_size(0), 0);
    assert_eq!(file.compute_buffer_size(1), 1024);
    assert_eq!(file.compute_buffer_size(1023), 1024);
    assert_eq!(file.compute_buffer_size(1024), 1024);
    assert_eq!(file.compute_buffer_size(1025), 2048);
    assert_eq!(file.compute_buffer_size(5 * 1024), 5 * 1024);
}

#[test]
fn write_buffer_is_padded_with_zeros() {
    let file = File::from_handle(1);
    let mut buffer = vec![7u8; 10];
    file.adjust_write_buffer(&mut buffer);
    assert_eq!(buffer.len(), 1024);
    assert_eq!(&buffer[..10], &[7u8; 10]);
    assert_eq!(&buffer[10..], &[0u8; 1014][..]);
    let mut whole = vec![7u8; 2048];
    file.adjust_write_buffer(&mut whole);
    assert_eq!(whole, vec![7u8; 2048]);
    let mut empty: Vec<u8> = Vec::new();
    file.adjust_write_buffer(&mut empty);
    assert_eq!(empty, Vec::<u8>::new());
}

#[test]
fn write_all_remembers_the_length_that_was_meant() {
    let mut file = File::from_handle(21);
    let (async_data, request) = file.write_all(vec![1u8; 1500]);
    assert_eq!(async_data.data_type, DataType::Write(WriteData { bytes_to_write: 1500 }));
    assert_eq!(async_data.buffer.len(), 2048);
    assert_eq!(async_data.file_handle, 21);
    assert_eq!((async_data.overlapped.offset, async_data.overlapped.offset_high), (0, 0));
    assert_eq!(request, Request { operation: Operation::Write, file_handle: 21, start: 0, len: 2048 });
    assert_eq!(file, File::from_handle(21));
}

#[test]
fn read_all_reads_in_chunks_of_one_cluster() {
    let mut file = File::from_handle(21);
    let (async_data, request) = file.read_all();
    assert_eq!(async_data.data_type, DataType::Read(ReadData { read_size: 1024 }));
    assert_eq!(async_data.buffer, vec![0u8; 1024]);
    assert_eq!(request, Request { operation: Operation::Read, file_handle: 21, start: 0, len: 1024 });
}

#[test]
fn read_all_with_buffer_size_rounds_the_chunk() {
    let mut file = File::from_handle(21);
    let (async_data, request) = file.read_all_with_buffer_size(3000).unwrap();
    assert_eq!(async_data.data_type, DataType::Read(ReadData { read_size: 3072 }));
    assert_eq!(async_data.buffer.len(), 3072);
    assert_eq!(request.len, 3072);
    let (exact, _) = file.read_all_with_buffer_size(2048).unwrap();
    assert_eq!(exact.data_type, DataType::Read(ReadData { read_size: 2048 }));
}

#[test]
fn read_in_chunks_of_nothing_is_refused() {
    let mut file = File::from_handle(21);
    assert_eq!(
        file.read_all_with_buffer_size(0),
        Err(Completion::Read(Err("Error read size is zero".to_string())))
    );
}

#[test]
fn cluster_size_can_be_chosen() {
    assert_eq!(File::with_cluster_size(21, 0), None);
    let mut file = File::with_cluster_size(21, 512).unwrap();
    assert_eq!(file.compute_buffer_size(1), 512);
    assert_eq!(file.compute_buffer_size(513), 1024);
    let (async_data, request) = file.write_all(vec![9u8; 700]);
    assert_eq!(async_data.buffer.len(), 1024);
    assert_eq!(request.len, 1024);
    let (read, _) = file.read_all();
    assert_eq!(read.data_type, DataType::Read(ReadData { read_size: 1024 }));
    let (read, _) = file.read_all_with_buffer_size(100).unwrap();
    assert_eq!(read.data_type, DataType::Read(ReadData { read_size: 512 }));
    assert_eq!(File::with_cluster_size(21, 1024), Some(File::from_handle(21)));
}
