use worldping::codec::FULL_PACKET_SIZE;
use worldping::worker::{
    classify_recv_error, classify_send_error, recv_step, send_step, Backoff, RecvAction,
    RecvEvent, SendAction, SendEvent, READ_TIMEOUT_MILLIS,
};

#[test]
fn send_errors_are_sorted_into_the_taxonomy() {
    assert!(matches!(classify_send_error(105), SendEvent::BufferFull));
    assert!(matches!(classify_send_error(1), SendEvent::NotPermitted));
    assert!(matches!(classify_send_error(13), SendEvent::NotPermitted));
    assert!(matches!(classify_send_error(22), SendEvent::Fatal(22)));
}

#[test]
fn buffer_exhaustion_is_retried_with_doubling_then_capped_delay() {
    let mut state = Backoff::new();
    let mut delays: Vec<u64> = Vec::new();
    for _ in 0..7 {
        match send_step(&mut state, &SendEvent::BufferFull) {
            SendAction::RetryAfterMillis(ms) => delays.push(ms),
            _ => panic!("a buffer-full failure must always be answered with a retry"),
        }
    }
    assert_eq!(delays, vec![2, 4, 8, 16, 16, 16, 16]);
    for w in delays.windows(2) {
        assert!(w[0] < w[1] || w[0] == 16);
    }
}

#[test]
fn successful_send_moves_to_the_next_address() {
    let mut state = Backoff::new();
    assert!(matches!(send_step(&mut state, &SendEvent::Sent), SendAction::NextAddress));
}

#[test]
fn refused_destination_is_skipped_not_retried() {
    let mut state = Backoff::new();
    assert!(matches!(send_step(&mut state, &SendEvent::NotPermitted), SendAction::SkipAddress));
}

#[test]
fn unexpected_send_error_aborts_with_its_code() {
    let mut state = Backoff::new();
    assert!(matches!(send_step(&mut state, &SendEvent::Fatal(99)), SendAction::Abort(99)));
}

#[test]
fn read_timeout_is_the_cancellation_cue() {
    assert!(matches!(classify_recv_error(11), RecvEvent::TimedOut));
    assert!(matches!(classify_recv_error(5), RecvEvent::Failed(5)));
}

fn envelope(src: [u8; 4], sent: u64) -> Vec<u8> {
    let mut buf = vec![0u8; FULL_PACKET_SIZE];
    buf[12..16].copy_from_slice(&src);
    buf[24] = 87;
    buf[25] = 80;
    buf[26..34].copy_from_slice(&sent.to_be_bytes());
    buf
}

#[test]
fn matching_reply_is_stored_with_address_and_time() {
    let buf = envelope([10, 0, 0, 1], 4000);
    match recv_step(false, RecvEvent::Packet(buf), 4250) {
        RecvAction::Store(rec) => {
            assert_eq!(rec.address, "10.0.0.1");
            assert_eq!(rec.time, Some(250));
            assert!(rec.seen);
        },
        _ => panic!("a matching reply must be stored"),
    }
}

#[test]
fn mismatched_identifier_tag_never_produces_a_record() {
    let mut buf = envelope([10, 0, 0, 1], 4000);
    buf[25] = 81;
    assert!(matches!(recv_step(false, RecvEvent::Packet(buf), 4250), RecvAction::Continue));
}

#[test]
fn non_echo_reply_type_never_produces_a_record() {
    let mut buf = envelope([10, 0, 0, 1], 4000);
    buf[20] = 8;
    assert!(matches!(recv_step(false, RecvEvent::Packet(buf), 4250), RecvAction::Continue));
}

#[test]
fn short_read_never_produces_a_record() {
    let buf = vec![0u8; 10];
    assert!(matches!(recv_step(false, RecvEvent::Packet(buf), 4250), RecvAction::Continue));
}

#[test]
fn reply_with_future_timestamp_stores_zero_time() {
    let buf = envelope([10, 0, 0, 2], 9000);
    match recv_step(false, RecvEvent::Packet(buf), 8000) {
        RecvAction::Store(rec) => assert_eq!(rec.time, Some(0)),
        _ => panic!("a matching reply must be stored"),
    }
}

#[test]
fn timeout_after_cancellation_commits_and_stops() {
    assert!(matches!(recv_step(true, RecvEvent::TimedOut, 0), RecvAction::CommitAndStop));
}

#[test]
fn timeout_without_cancellation_keeps_reading() {
    assert!(matches!(recv_step(false, RecvEvent::TimedOut, 0), RecvAction::Continue));
}

#[test]
fn unexpected_read_error_aborts_with_its_code() {
    assert!(matches!(recv_step(false, RecvEvent::Failed(77), 0), RecvAction::Abort(77)));
}

#[test]
fn read_timeout_interval_is_one_second() {
    assert_eq!(READ_TIMEOUT_MILLIS, 1000);
}
