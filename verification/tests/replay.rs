use lightsnip::replay::{ReplayBuffer, StoredFrame};

const SECOND: u128 = 1_000_000_000;

fn frame(timestamp: u128, tag: u8) -> StoredFrame {
    StoredFrame { timestamp, width: 2, height: 1, pixels: vec![tag; 8] }
}

fn tags(buffer: &ReplayBuffer) -> Vec<u8> {
    buffer.export().iter().map(|f| f.2[0]).collect()
}

#[test]
fn frames_come_out_in_order() {
    let mut buffer = ReplayBuffer::new();
    assert_eq!(buffer.len(), 0);
    buffer.record(frame(1, 1), 5);
    buffer.record(frame(2, 2), 5);
    buffer.record(frame(3, 3), 5);
    assert_eq!(buffer.len(), 3);
    assert_eq!(
        buffer.export(),
        vec![(2, 1, vec![1u8; 8]), (2, 1, vec![2u8; 8]), (2, 1, vec![3u8; 8])]
    );
}

#[test]
fn a_frame_of_exactly_the_limit_stays() {
    let mut buffer = ReplayBuffer::new();
    buffer.record(frame(0, 1), 5);
    buffer.record(frame(5 * SECOND, 2), 5);
    assert_eq!(tags(&buffer), vec![1, 2]);
}

#[test]
fn a_frame_beyond_the_limit_goes() {
    let mut buffer = ReplayBuffer::new();
    buffer.record(frame(0, 1), 5);
    buffer.record(frame(SECOND, 2), 5);
    buffer.record(frame(5 * SECOND + 1, 3), 5);
    assert_eq!(tags(&buffer), vec![2, 3]);
    buffer.record(frame(60 * SECOND, 4), 5);
    assert_eq!(tags(&buffer), vec![4]);
}

#[test]
fn a_frame_from_the_future_is_not_old() {
    let mut buffer = ReplayBuffer::new();
    buffer.record(frame(100 * SECOND, 1), 5);
    buffer.record(frame(SECOND, 2), 5);
    assert_eq!(tags(&buffer), vec![1, 2]);
}

#[test]
fn eviction_stops_at_the_first_fresh_frame() {
    let mut buffer = ReplayBuffer::new();
    buffer.record(frame(10 * SECOND, 1), 60);
    buffer.record(frame(0, 2), 60);
    buffer.record(frame(12 * SECOND, 3), 5);
    assert_eq!(tags(&buffer), vec![1, 2, 3]);
}

#[test]
fn the_newest_frame_stays_even_without_a_span() {
    let mut buffer = ReplayBuffer::new();
    buffer.record(frame(7, 1), 0);
    buffer.record(frame(8, 2), 0);
    assert_eq!(tags(&buffer), vec![2]);
    buffer.record(frame(u128::MAX, 3), u64::MAX);
    assert_eq!(tags(&buffer), vec![3]);
}

#[test]
fn the_buffer_holds_the_last_seconds() {
    let mut buffer = ReplayBuffer::new();
    for i in 0..100u8 {
        buffer.record(frame(i as u128 * SECOND / 2, i), 15);
    }
    let expected: Vec<u8> = (69..100).collect();
    assert_eq!(tags(&buffer), expected);
}

#[test]
fn clearing_drops_all_frames() {
    let mut buffer = ReplayBuffer::new();
    buffer.record(frame(1, 1), 5);
    buffer.clear();
    assert_eq!(buffer.len(), 0);
    assert!(buffer.export().is_empty());
}
