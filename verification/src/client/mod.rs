//! The client's side of the latency test.

use vstd::prelude::*;
use crate::shards::{
    can_be_cut, header_wire_len, measure_header, shard_count,
    shards_are_as_many_as_header_and_payload_fill, shards_for_header,
};

pub mod frames;
pub mod listener;
pub mod reports;
pub mod run;

verus! {

/// Size of a frame header that is taken for granted where it cannot be measured.
pub const ASSUMED_HEADER_SIZE: u64 = 32;

/// The number of shards in which each frame is expected.
pub fn calculate_expected_shards_count(frame_size_kb: u32, max_shard_data_size: usize) -> (count:
    u32)
    requires
        can_be_cut(frame_size_kb, max_shard_data_size as int, header_wire_len()),
    ensures
        count == shard_count(frame_size_kb, max_shard_data_size as int, header_wire_len()),
        count >= 1,
        count * max_shard_data_size >= 32 + frame_size_kb * 1024,
        count > 1 ==> (count - 1) * max_shard_data_size < 32 + frame_size_kb * 1024,
{
    let header_size: u64 = match measure_header() {
        Ok(size) => size,
        Err(_) => ASSUMED_HEADER_SIZE,
    };
    proof {
        shards_are_as_many_as_header_and_payload_fill(frame_size_kb, max_shard_data_size as int);
    }
    shards_for_header(frame_size_kb, max_shard_data_size, header_size)
}

} // verus!
