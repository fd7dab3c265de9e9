use overlapped_file::async_data::{AsyncData, Completion, DataType, ReadData, WriteData};
use overlapped_file::io_worker::{
    add_usize_to_u32_pair, execute_callback, finish_write, init_static_completion_port_once,
    nb_workers, read_async, Decision, PortState, Step,
};

#[test]
fn it_test_add_usize_to_u32_pair() {
    assert_eq!((0x12345679, 0x3), add_usize_to_u32_pair(0x12345678, 0x1, 0x200000001));
}

#[test]
fn add_carries_from_low_to_high() {
    assert_eq!((0, 1), add_usize_to_u32_pair(0xffff_ffff, 0, 1));
    assert_eq!((0x3ff, 0x8), add_usize_to_u32_pair(0xffff_ffff, 0x7, 0x400));
}

#[test]
fn add_of_zero_changes_nothing() {
    assert_eq!((0, 0), add_usize_to_u32_pair(0, 0, 0));
    assert_eq!((5, 9), add_usize_to_u32_pair(5, 9, 0));
}

#[test]
fn add_without_carry() {
    assert_eq!((0x500, 0), add_usize_to_u32_pair(0x100, 0, 0x400));
}

#[test]
fn add_up_to_the_last_offset() {
    assert_eq!(
        (0xffff_ffff, 0xffff_ffff),
        add_usize_to_u32_pair(0xffff_fffe, 0xffff_ffff, 1)
    );
}

#[test]
fn new_read_data_is_one_zeroed_chunk() {
    let async_data = AsyncData::new_read_data(3, 16);
    assert_eq!(async_data.buffer, vec![0u8; 16]);
    assert_eq!(async_data.file_handle, 3);
    assert_eq!(async_data.overlapped.offset, 0);
    assert_eq!(async_data.overlapped.offset_high, 0);
    assert_eq!(async_data.data_type, DataType::Read(ReadData { read_size: 16 }));
}

#[test]
fn new_write_data_keeps_buffer_and_length() {
    let async_data = AsyncData::new_write_data(3, vec![1, 2, 3, 0], 3);
    assert_eq!(async_data.buffer, vec![1, 2, 3, 0]);
    assert_eq!(async_data.file_handle, 3);
    assert_eq!(async_data.overlapped, AsyncData::create_overlapped());
    assert_eq!(async_data.data_type, DataType::Write(WriteData { bytes_to_write: 3 }));
}

#[test]
fn error_callback_is_of_the_descriptors_kind() {
    let read = AsyncData::new_read_data(3, 16);
    assert_eq!(
        read.execute_error_callback("gone".to_string()),
        Completion::Read(Err("gone".to_string()))
    );
    let write = AsyncData::new_write_data(3, vec![1], 1);
    assert_eq!(
        write.execute_error_callback("gone".to_string()),
        Completion::Write(Err("gone".to_string()))
    );
}

#[test]
fn short_chunk_ends_the_read_and_drops_the_tail() {
    let mut async_data = AsyncData::new_read_data(3, 8);
    async_data.buffer.copy_from_slice(&[1, 2, 3, 4, 5, 9, 9, 9]);
    assert_eq!(execute_callback(&mut async_data, 5), Decision::Deliver);
    assert_eq!(async_data.buffer, vec![1, 2, 3, 4, 5]);
}

#[test]
fn empty_chunk_ends_the_read_with_nothing() {
    let mut async_data = AsyncData::new_read_data(3, 8);
    assert_eq!(execute_callback(&mut async_data, 0), Decision::Deliver);
    assert_eq!(async_data.buffer, Vec::<u8>::new());
}

#[test]
fn full_chunk_asks_for_another() {
    let mut async_data = AsyncData::new_read_data(3, 8);
    async_data.buffer.copy_from_slice(&[1, 2, 3, 4, 5, 6, 7, 8]);
    assert_eq!(execute_callback(&mut async_data, 8), Decision::Continue(8));
    assert_eq!(async_data.buffer, vec![1, 2, 3, 4, 5, 6, 7, 8]);
}

#[test]
fn write_is_cut_by_the_padding() {
    let mut async_data = AsyncData::new_write_data(3, vec![0; 1024], 42);
    assert_eq!(execute_callback(&mut async_data, 1024), Decision::Truncate(-982));
    let mut exact = AsyncData::new_write_data(3, vec![0; 1024], 1024);
    assert_eq!(execute_callback(&mut exact, 1024), Decision::Truncate(0));
    let mut partial = AsyncData::new_write_data(3, vec![0; 1024], 1024);
    assert_eq!(execute_callback(&mut partial, 1000), Decision::Truncate(24));
}

#[test]
fn full_chunk_grows_buffer_and_moves_offset() {
    let mut async_data = AsyncData::new_read_data(3, 4);
    async_data.buffer.copy_from_slice(&[1, 2, 3, 4]);
    match read_async(async_data, 4) {
        Step::ReadMore { async_data, start, len } => {
            assert_eq!(async_data.buffer, vec![1, 2, 3, 4, 0, 0, 0, 0]);
            assert_eq!((async_data.overlapped.offset, async_data.overlapped.offset_high), (4, 0));
            assert_eq!((start, len), (4, 4));
            assert_eq!(async_data.file_handle, 3);
            assert_eq!(async_data.data_type, DataType::Read(ReadData { read_size: 4 }));
        }
        _ => panic!("a full chunk ended the read"),
    }
}

#[test]
fn offsets_advance_chunk_by_chunk() {
    let mut async_data = AsyncData::new_read_data(3, 4);
    for round in 1..=3u32 {
        async_data = match read_async(async_data, 4) {
            Step::ReadMore { async_data, start, len } => {
                assert_eq!(start, 4 * round as usize);
                assert_eq!(len, 4);
                assert_eq!(async_data.overlapped.offset, 4 * round);
                assert_eq!(async_data.buffer.len(), 4 * (round as usize + 1));
                async_data
            }
            _ => panic!("a full chunk ended the read"),
        };
    }
    assert_eq!(read_async(async_data, 1), Step::ReadDone(vec![0; 13]));
}

#[test]
fn write_step_names_file_and_distance() {
    let async_data = AsyncData::new_write_data(11, vec![0; 2048], 1500);
    assert_eq!(
        read_async(async_data, 2048),
        Step::WriteDone { file_handle: 11, distance: -548 }
    );
}

#[test]
fn write_reports_first_failure() {
    let ok: Result<(), String> = Ok(());
    assert_eq!(finish_write(ok.clone(), ok.clone()), Completion::Write(Ok(())));
    assert_eq!(
        finish_write(Err("move".to_string()), ok.clone()),
        Completion::Write(Err("move".to_string()))
    );
    assert_eq!(
        finish_write(ok.clone(), Err("cut".to_string())),
        Completion::Write(Err("cut".to_string()))
    );
    assert_eq!(
        finish_write(Err("move".to_string()), Err("cut".to_string())),
        Completion::Write(Err("move".to_string()))
    );
}

#[test]
fn two_workers_for_each_processor() {
    assert_eq!(nb_workers(0), 0);
    assert_eq!(nb_workers(4), 8);
    assert_eq!(nb_workers(u32::MAX), 2 * (u32::MAX as u64));
}

#[test]
fn port_is_made_once() {
    let mut state = PortState::new();
    assert!(state.is_uninitialized());
    assert_eq!(init_static_completion_port_once(&mut state, Some(Ok(40))), Ok(40));
    assert_eq!(state, PortState::Ready(40));
    assert!(!state.is_uninitialized());
    assert_eq!(init_static_completion_port_once(&mut state, None), Ok(40));
    assert_eq!(init_static_completion_port_once(&mut state, Some(Ok(41))), Ok(40));
    assert_eq!(
        init_static_completion_port_once(&mut state, Some(Err("late".to_string()))),
        Ok(40)
    );
}

#[test]
fn failure_to_make_the_port_is_remembered() {
    let mut state = PortState::new();
    assert_eq!(
        init_static_completion_port_once(&mut state, Some(Err("no port".to_string()))),
        Err("Error in create_io_workers")
    );
    assert_eq!(state, PortState::Failed);
    assert_eq!(
        init_static_completion_port_once(&mut state, Some(Ok(40))),
        Err("Error in create_io_workers")
    );
    assert_eq!(init_static_completion_port_once(&mut state, None), Err("Error in create_io_workers"));
}
