use wreq_core::errors::CoreError;
use wreq_core::stream::{NextOutcome, PushOutcome, StreamChannel};

fn chunk(s: &str) -> Vec<u8> {
    s.as_bytes().to_vec()
}

fn next_item(ch: &mut StreamChannel) -> Vec<u8> {
    match ch.next() {
        Ok(NextOutcome::Item(c)) => c,
        other => panic!("expected an item, got {:?}", other),
    }
}

#[test]
fn order_preservation_push_then_drain() {
    let mut ch = StreamChannel::new(8);
    assert!(matches!(ch.push(chunk("alpha")), Ok(PushOutcome::Accepted)));
    assert!(matches!(ch.push(chunk("beta")), Ok(PushOutcome::Accepted)));
    assert!(matches!(ch.push(chunk("gamma")), Ok(PushOutcome::Accepted)));
    ch.close();
    assert_eq!(next_item(&mut ch), chunk("alpha"));
    assert_eq!(next_item(&mut ch), chunk("beta"));
    assert_eq!(next_item(&mut ch), chunk("gamma"));
    assert!(matches!(ch.next(), Ok(NextOutcome::End)));
    assert!(matches!(ch.next(), Ok(NextOutcome::End)));
}

#[test]
fn backpressure_full_until_one_is_consumed() {
    let mut ch = StreamChannel::new(2);
    assert!(matches!(ch.push(chunk("one")), Ok(PushOutcome::Accepted)));
    assert!(matches!(ch.push(chunk("two")), Ok(PushOutcome::Accepted)));
    // The buffer is at capacity: the third push must not be enqueued.
    assert!(matches!(ch.push(chunk("three")), Ok(PushOutcome::Full)));
    assert!(matches!(ch.push(chunk("three")), Ok(PushOutcome::Full)));
    // One chunk consumed frees room, and the retried push succeeds.
    assert_eq!(next_item(&mut ch), chunk("one"));
    assert!(matches!(ch.push(chunk("three")), Ok(PushOutcome::Accepted)));
    ch.close();
    assert_eq!(next_item(&mut ch), chunk("two"));
    assert_eq!(next_item(&mut ch), chunk("three"));
    assert!(matches!(ch.next(), Ok(NextOutcome::End)));
}

#[test]
fn closed_channel_rejects_push_without_dropping_data() {
    let mut ch = StreamChannel::new(4);
    assert!(matches!(ch.push(chunk("kept")), Ok(PushOutcome::Accepted)));
    ch.close();
    assert!(matches!(ch.push(chunk("late")), Err(CoreError::ChannelClosed)));
    // Closing is idempotent and the buffered chunk still drains.
    ch.close();
    assert_eq!(next_item(&mut ch), chunk("kept"));
    assert!(matches!(ch.next(), Ok(NextOutcome::End)));
}

#[test]
fn abort_surfaces_after_buffered_chunks() {
    let mut ch = StreamChannel::new(4);
    assert!(matches!(ch.push(chunk("first")), Ok(PushOutcome::Accepted)));
    assert!(matches!(ch.push(chunk("second")), Ok(PushOutcome::Accepted)));
    ch.abort(String::from("boom"));
    assert!(matches!(ch.push(chunk("late")), Err(CoreError::ChannelClosed)));
    assert_eq!(next_item(&mut ch), chunk("first"));
    assert_eq!(next_item(&mut ch), chunk("second"));
    match ch.next() {
        Ok(NextOutcome::Failed { message }) => assert_eq!(message, "boom"),
        other => panic!("expected the terminal error, got {:?}", other),
    }
    assert!(matches!(ch.next(), Ok(NextOutcome::End)));
}

#[test]
fn abort_is_idempotent_after_close_or_abort() {
    let mut ch = StreamChannel::new(4);
    ch.close();
    ch.abort(String::from("late abort"));
    assert!(matches!(ch.next(), Ok(NextOutcome::End)));

    let mut ch2 = StreamChannel::new(4);
    ch2.abort(String::from("first"));
    ch2.abort(String::from("second"));
    match ch2.next() {
        Ok(NextOutcome::Failed { message }) => assert_eq!(message, "first"),
        other => panic!("expected the first abort message, got {:?}", other),
    }
    assert!(matches!(ch2.next(), Ok(NextOutcome::End)));
}

#[test]
fn empty_open_channel_reports_pending() {
    let mut ch = StreamChannel::new(1);
    assert!(matches!(ch.next(), Ok(NextOutcome::Pending)));
    assert!(matches!(ch.push(chunk("x")), Ok(PushOutcome::Accepted)));
    assert_eq!(next_item(&mut ch), chunk("x"));
    assert!(matches!(ch.next(), Ok(NextOutcome::Pending)));
}

#[test]
fn zero_length_chunks_round_trip() {
    let mut ch = StreamChannel::new(4);
    assert!(matches!(ch.push(Vec::new()), Ok(PushOutcome::Accepted)));
    assert!(matches!(ch.push(chunk("tail")), Ok(PushOutcome::Accepted)));
    ch.close();
    assert_eq!(next_item(&mut ch), Vec::<u8>::new());
    assert_eq!(next_item(&mut ch), chunk("tail"));
    assert!(matches!(ch.next(), Ok(NextOutcome::End)));
}

#[test]
fn round_trip_concatenation_with_more_chunks_than_capacity() {
    let parts = ["he", "", "llo wo", "rld", "!"];
    let mut ch = StreamChannel::new(2);
    let mut pushed: Vec<u8> = Vec::new();
    let mut received: Vec<u8> = Vec::new();
    for part in parts.iter() {
        loop {
            match ch.push(chunk(part)) {
                Ok(PushOutcome::Accepted) => {
                    pushed.extend_from_slice(part.as_bytes());
                    break;
                }
                Ok(PushOutcome::Full) => {
                    // A real producer would park here; drain one chunk in its
                    // place.
                    received.extend_from_slice(&next_item(&mut ch));
                }
                other => panic!("channel unexpectedly closed: {:?}", other),
            }
        }
    }
    ch.close();
    loop {
        match ch.next() {
            Ok(NextOutcome::Item(c)) => received.extend_from_slice(&c),
            Ok(NextOutcome::End) => break,
            other => panic!("unexpected outcome {:?}", other),
        }
    }
    assert_eq!(received, pushed);
    assert_eq!(received, b"hello world!".to_vec());
}

#[test]
fn stream_conversion_is_one_time_and_exclusive() {
    // Converting twice fails the second time.
    let mut ch = StreamChannel::new(4);
    assert!(ch.take_stream().is_ok());
    assert!(matches!(ch.take_stream(), Err(CoreError::StreamAlreadyConsumed)));
    // Iterating after conversion fails too.
    assert!(matches!(ch.next(), Err(CoreError::StreamAlreadyConsumed)));

    // Converting after iteration has begun fails both times it is tried.
    let mut ch2 = StreamChannel::new(4);
    assert!(matches!(ch2.next(), Ok(NextOutcome::Pending)));
    assert!(matches!(ch2.take_stream(), Err(CoreError::StreamAlreadyConsumed)));
    assert!(matches!(ch2.take_stream(), Err(CoreError::StreamAlreadyConsumed)));
    // Iteration itself may continue.
    assert!(matches!(ch2.next(), Ok(NextOutcome::Pending)));
}

#[test]
fn poll_take_serves_only_the_converted_stream() {
    let mut ch = StreamChannel::new(4);
    // Before conversion the stream side may not take chunks.
    assert!(matches!(ch.poll_take(), Err(CoreError::StreamAlreadyConsumed)));
    assert!(matches!(ch.push(chunk("payload")), Ok(PushOutcome::Accepted)));
    assert!(ch.take_stream().is_ok());
    assert!(matches!(ch.poll_take(), Ok(NextOutcome::Item(c)) if c == chunk("payload")));
    assert!(matches!(ch.poll_take(), Ok(NextOutcome::Pending)));
    ch.close();
    assert!(matches!(ch.poll_take(), Ok(NextOutcome::End)));
    // Direct iteration stays refused after the conversion.
    assert!(matches!(ch.next(), Err(CoreError::StreamAlreadyConsumed)));
}

#[test]
fn last_sender_handle_closes_the_channel() {
    let mut ch = StreamChannel::new(4);
    ch.clone_sender();
    assert!(matches!(ch.push(chunk("data")), Ok(PushOutcome::Accepted)));
    ch.release_sender();
    // One handle is still out: the channel stays open.
    assert!(matches!(ch.push(chunk("more")), Ok(PushOutcome::Accepted)));
    ch.release_sender();
    // The last handle is gone: pushes are refused, the buffer drains.
    assert!(matches!(ch.push(chunk("late")), Err(CoreError::ChannelClosed)));
    assert_eq!(next_item(&mut ch), chunk("data"));
    assert_eq!(next_item(&mut ch), chunk("more"));
    assert!(matches!(ch.next(), Ok(NextOutcome::End)));
}
