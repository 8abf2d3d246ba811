use termplay::buffer::{timestamp_key, FrameBuffer};
use termplay::frame::VideoFrame;

fn micros(seconds: f64) -> i64 {
    (seconds * 1_000_000.0).round() as i64
}

fn seconds(timestamp: i64) -> f64 {
    timestamp as f64 / 1_000_000.0
}

// Helper to create a test frame
fn create_test_frame(timestamp: f64) -> VideoFrame {
    VideoFrame::new(vec![0; 10 * 10 * 4], 10, 10, micros(timestamp), micros(1.0 / 30.0)).unwrap()
}

#[test]
fn test_frame_buffer_add_get() {
    let mut buffer = FrameBuffer::new(5);

    // Add some frames
    for i in 0..5 {
        let frame = create_test_frame(i as f64);
        assert!(buffer.add_frame(frame));
    }

    // Buffer should be full now
    let extra_frame = create_test_frame(5.0);
    assert!(!buffer.add_frame(extra_frame));

    // Test retrieving frames
    let frame = buffer.get_frame_at(micros(2.0)).unwrap();
    assert_eq!(seconds(frame.timestamp), 2.0);

    // Test approximate match
    let frame = buffer.get_frame_at(micros(2.1)).unwrap();
    assert_eq!(seconds(frame.timestamp), 2.0);
}

#[test]
fn test_frame_buffer_next_frame() {
    let mut buffer = FrameBuffer::new(5);

    // Add frames out of order
    buffer.add_frame(create_test_frame(2.0));
    buffer.add_frame(create_test_frame(1.0));
    buffer.add_frame(create_test_frame(4.0));
    buffer.add_frame(create_test_frame(3.0));

    // Test sequential access
    buffer.seek(micros(0.0));
    let frame1 = buffer.next_frame().unwrap();
    assert_eq!(seconds(frame1.timestamp), 1.0);

    let frame2 = buffer.next_frame().unwrap();
    assert_eq!(seconds(frame2.timestamp), 2.0);
}

#[test]
fn test_frame_buffer_seek() {
    let mut buffer = FrameBuffer::new(10);

    // Add several frames
    for i in 0..10 {
        buffer.add_frame(create_test_frame(i as f64));
    }

    // Seek to middle
    buffer.seek(micros(5.0));
    assert_eq!(seconds(buffer.status().2), 5.0);

    let frame = buffer.current_frame().unwrap();
    assert_eq!(seconds(frame.timestamp), 5.0);

    // Next frame should be 6.0
    let next = buffer.next_frame().unwrap();
    assert_eq!(seconds(next.timestamp), 6.0);
}

#[test]
fn length_never_exceeds_capacity() {
    let mut buffer = FrameBuffer::new(3);
    for i in 0..20 {
        buffer.add_frame(create_test_frame(i as f64 * 0.1));
        let (len, capacity, _) = buffer.status();
        assert!(len <= capacity);
        assert_eq!(capacity, 3);
    }
    assert_eq!(buffer.status().0, 3);
    let mut empty = FrameBuffer::new(0);
    assert!(!empty.add_frame(create_test_frame(0.0)));
    assert_eq!(empty.status(), (0, 0, 0));
}

#[test]
fn full_buffer_accepts_after_cleanup_frees_space() {
    let mut buffer = FrameBuffer::new(4);
    for i in 0..4 {
        assert!(buffer.add_frame(create_test_frame(i as f64)));
    }
    // position 0: nothing is old enough to go
    assert!(!buffer.add_frame(create_test_frame(4.0)));
    assert_eq!(buffer.status().0, 4);
    // at 3.5 s the cutoff is 1.5 s: frames 0 and 1 go on the next add
    buffer.seek(micros(3.5));
    assert_eq!(buffer.status().0, 2);
    assert!(buffer.add_frame(create_test_frame(4.0)));
    assert!(buffer.add_frame(create_test_frame(5.0)));
    assert!(!buffer.add_frame(create_test_frame(6.0)));
    assert_eq!(buffer.status(), (4, 4, micros(3.5)));
}

#[test]
fn add_cleans_up_a_full_buffer_by_itself() {
    let mut buffer = FrameBuffer::new(3);
    for i in 0..3 {
        assert!(buffer.add_frame(create_test_frame(i as f64)));
    }
    // move the position without a cleanup: next_frame up to 2.0 is too
    // early for the cutoff to pass zero
    assert_eq!(seconds(buffer.next_frame().unwrap().timestamp), 1.0);
    assert_eq!(seconds(buffer.next_frame().unwrap().timestamp), 2.0);
    assert!(!buffer.add_frame(create_test_frame(3.0)));
    let mut buffer = FrameBuffer::new(3);
    for i in [0.0, 4.0, 5.0] {
        assert!(buffer.add_frame(create_test_frame(i)));
    }
    assert_eq!(seconds(buffer.next_frame().unwrap().timestamp), 4.0);
    // cutoff is 2.0 s now: the frame at 0 s goes when the next one arrives
    assert!(buffer.add_frame(create_test_frame(6.0)));
    assert_eq!(buffer.status().0, 3);
    assert_eq!(seconds(buffer.get_frame_at(micros(0.0)).unwrap().timestamp), 4.0);
}

#[test]
fn cleanup_keeps_frames_inside_the_rewind_window() {
    let mut buffer = FrameBuffer::new(10);
    for i in 0..10 {
        buffer.add_frame(create_test_frame(i as f64));
    }
    buffer.seek(micros(5.0));
    // cutoff 3.0 s: frames 3..9 stay
    assert_eq!(buffer.status().0, 7);
    assert_eq!(seconds(buffer.get_frame_at(micros(0.0)).unwrap().timestamp), 3.0);
    buffer.seek(micros(2.0));
    assert_eq!(buffer.status().0, 7);
    buffer.seek(micros(100.0));
    assert_eq!(buffer.status(), (0, 10, micros(100.0)));
    assert!(buffer.current_frame().is_none());
    assert!(buffer.next_frame().is_none());
}

#[test]
fn next_frame_at_the_end_returns_the_last_frame() {
    let mut buffer = FrameBuffer::new(4);
    buffer.add_frame(create_test_frame(1.0));
    buffer.add_frame(create_test_frame(2.0));
    assert_eq!(seconds(buffer.next_frame().unwrap().timestamp), 1.0);
    assert_eq!(seconds(buffer.next_frame().unwrap().timestamp), 2.0);
    assert_eq!(seconds(buffer.next_frame().unwrap().timestamp), 2.0);
    assert_eq!(seconds(buffer.status().2), 2.0);
}

#[test]
fn exact_match_prefers_the_last_frame_of_the_millisecond() {
    let mut buffer = FrameBuffer::new(4);
    let mut first = create_test_frame(1.0);
    first.duration = 1;
    let mut second = create_test_frame(1.0);
    second.timestamp += 400;
    second.duration = 2;
    buffer.add_frame(first);
    buffer.add_frame(second);
    buffer.add_frame(create_test_frame(1.5));
    let found = buffer.get_frame_at(micros(1.0) + 900).unwrap();
    assert_eq!(found.duration, 2);
    // no frame in that millisecond: the nearest one, the first on a tie
    let near = buffer.get_frame_at(micros(1.2)).unwrap();
    assert_eq!(near.duration, 2);
    let tie = buffer.get_frame_at(micros(1.25) + 200).unwrap();
    assert_eq!(tie.timestamp, micros(1.0) + 400);
}

#[test]
fn timestamp_key_rounds_towards_zero() {
    assert_eq!(timestamp_key(0), 0);
    assert_eq!(timestamp_key(999), 0);
    assert_eq!(timestamp_key(1000), 1);
    assert_eq!(timestamp_key(2_100_000), 2100);
    assert_eq!(timestamp_key(-1), 0);
    assert_eq!(timestamp_key(-999), 0);
    assert_eq!(timestamp_key(-1000), -1);
    assert_eq!(timestamp_key(-1_000_000), -1000);
    assert_eq!(timestamp_key(i64::MIN), i64::MIN / 1000);
    assert_eq!(timestamp_key(i64::MAX), i64::MAX / 1000);
}

#[test]
fn clear_empties_the_buffer() {
    let mut buffer = FrameBuffer::new(4);
    buffer.add_frame(create_test_frame(1.0));
    buffer.seek(micros(1.0));
    buffer.clear();
    assert_eq!(buffer.status(), (0, 4, 0));
    assert!(buffer.get_frame_at(micros(1.0)).is_none());
    assert!(buffer.add_frame(create_test_frame(3.0)));
    assert_eq!(seconds(buffer.get_frame_at(micros(3.0)).unwrap().timestamp), 3.0);
}

#[test]
fn prefetching_flag_is_exclusive() {
    let mut buffer = FrameBuffer::new(4);
    assert!(!buffer.stop_prefetching());
    assert!(buffer.start_prefetching());
    assert!(!buffer.start_prefetching());
    assert!(buffer.stop_prefetching());
    assert!(!buffer.stop_prefetching());
    assert!(buffer.start_prefetching());
}
