use wreq_core::body::{ReadPlan, ResponseBodyHolder};
use wreq_core::errors::CoreError;

#[test]
fn buffering_read_materializes_once_and_is_reused() {
    let mut holder = ResponseBodyHolder::new_streaming();
    let mut drains = 0;

    // First read: the caller is asked to drain the source exactly once.
    let first = match holder.begin_read(false) {
        Ok(ReadPlan::Buffer) => {
            drains += 1;
            holder.finish_buffer(b"payload".to_vec())
        }
        other => panic!("expected a buffering plan, got {:?}", other),
    };
    assert_eq!(first.as_ref(), b"payload");

    // Second and third reads: identical bytes, and never another drain.
    for _ in 0..2 {
        match holder.begin_read(false) {
            Ok(ReadPlan::FromBuffer(bytes)) => assert_eq!(bytes.as_ref(), b"payload"),
            Ok(ReadPlan::Buffer) => panic!("a reread must not perform I/O"),
            other => panic!("unexpected outcome {:?}", other),
        }
    }
    assert_eq!(drains, 1);
    assert_eq!(holder.buffered(), Some(b"payload".to_vec()));
}

#[test]
fn streaming_read_is_single_shot() {
    let mut holder = ResponseBodyHolder::new_streaming();
    assert!(matches!(holder.begin_read(true), Ok(ReadPlan::StreamOut)));
    assert!(matches!(holder.begin_read(true), Err(CoreError::StreamAlreadyConsumed)));
    assert!(matches!(holder.begin_read(false), Err(CoreError::StreamAlreadyConsumed)));
}

#[test]
fn buffered_body_still_streams_from_memory() {
    let mut holder = ResponseBodyHolder::new_buffered(b"cached".to_vec());
    match holder.begin_read(true) {
        Ok(ReadPlan::FromBuffer(bytes)) => assert_eq!(bytes.as_ref(), b"cached"),
        other => panic!("expected the stored buffer, got {:?}", other),
    }
    // Still reusable afterwards.
    assert_eq!(holder.buffered(), Some(b"cached".to_vec()));
}

#[test]
fn checked_out_body_reports_borrow_conflict() {
    let mut holder = ResponseBodyHolder::new_streaming();
    assert!(matches!(holder.begin_read(false), Ok(ReadPlan::Buffer)));
    // The source is checked out: a conflicting read fails instead of
    // blocking.
    assert!(matches!(holder.begin_read(false), Err(CoreError::BorrowConflict)));
    assert!(matches!(holder.begin_read(true), Err(CoreError::BorrowConflict)));
    let copy = holder.finish_buffer(b"late".to_vec());
    assert_eq!(copy.as_ref(), b"late");
    assert!(matches!(holder.begin_read(false), Ok(ReadPlan::FromBuffer(_))));
}

#[test]
fn abandoned_read_leaves_the_body_consumed() {
    let mut holder = ResponseBodyHolder::new_streaming();
    assert!(matches!(holder.begin_read(false), Ok(ReadPlan::Buffer)));
    holder.abandon();
    assert!(matches!(holder.begin_read(false), Err(CoreError::StreamAlreadyConsumed)));
    assert_eq!(holder.buffered(), None);
}

#[test]
fn close_empties_the_slot() {
    let mut holder = ResponseBodyHolder::new_buffered(b"gone".to_vec());
    holder.close();
    assert_eq!(holder.buffered(), None);
    assert!(matches!(holder.begin_read(false), Err(CoreError::StreamAlreadyConsumed)));
}

#[test]
fn buffer_round_trips_through_shared_bytes() {
    // The bytes pass through `bytes::Bytes` on the way in and out; a wrapper
    // that invented or reordered bytes would fail here.
    let data: Vec<u8> = (0u8..=255).collect();
    let holder = ResponseBodyHolder::new_buffered(data.clone());
    assert_eq!(holder.buffered(), Some(data));
}
