use latency_link::client;
use latency_link::server;
use latency_link::shards::{measure_header, shards_for_header};

/// The same count in floating point.
fn float_count(frame_size_kb: u32, max_shard: usize) -> u32 {
    let bytes = frame_size_kb as usize * 1024;
    let first = max_shard - 32;
    if bytes <= first {
        1
    } else {
        1 + (((bytes - first) as f64) / (max_shard as f64)).ceil() as u32
    }
}

#[test]
fn a_header_takes_thirty_two_bytes() {
    assert_eq!(measure_header(), Ok(32));
}

#[test]
fn a_small_frame_is_one_shard() {
    assert_eq!(client::calculate_expected_shards_count(0, 1400), 1);
    assert_eq!(client::calculate_expected_shards_count(1, 1056), 1);
    assert_eq!(client::calculate_expected_shards_count(1, 1055), 2);
}

#[test]
fn a_frame_of_a_hundred_kilobytes() {
    // 102400 bytes: 1368 in the first shard, the other 101032 in 73 shards.
    assert_eq!(client::calculate_expected_shards_count(100, 1400), 74);
    assert_eq!(server::calculate_expected_shards_count(100, 1400), Ok(74));
}

#[test]
fn the_last_shard_may_be_full() {
    // 2048 bytes: 992 in the first shard, 1024 and 32 in the others.
    assert_eq!(client::calculate_expected_shards_count(2, 1024), 3);
    // 2048 - 1024 bytes fill one more shard exactly.
    assert_eq!(shards_for_header(2, 1024, 0), 2);
}

#[test]
fn both_sides_agree_and_match_the_floating_point_count() {
    for max_shard in [32usize, 33, 100, 1024, 1400, 1472, 65507] {
        for kb in [0u32, 1, 2, 3, 10, 99, 100, 101, 255, 500, 4096] {
            let count = client::calculate_expected_shards_count(kb, max_shard);
            assert_eq!(server::calculate_expected_shards_count(kb, max_shard), Ok(count));
            assert_eq!(count, float_count(kb, max_shard));
            let room = count as usize * max_shard;
            let needed = 32 + kb as usize * 1024;
            assert!(room >= needed);
            assert!(count == 1 || room - max_shard < needed);
        }
    }
    assert_eq!(client::calculate_expected_shards_count(u32::MAX, 1400), float_count(u32::MAX, 1400));
}
