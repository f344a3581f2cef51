//! How many datagrams a frame is cut into.

use vstd::prelude::*;
use crate::packets::LatencyTestFrameHeader;

verus! {

/// Bytes that one `u64` takes on the wire.
pub const WIRE_U64_LEN: u64 = 8;

/// Bytes that a frame header takes on the wire: four `u64` fields.
pub open spec fn header_wire_len() -> int {
    4 * WIRE_U64_LEN
}

/// The error of the serialiser.
#[verifier::external_type_specification]
#[verifier::external_body]
pub struct ExBincodeErrorKind(bincode::ErrorKind);

/// Calls `bincode::serialized_size` on the fields of a frame header, as a tuple. In that
/// function's configuration integers have a fixed width and there is no size limit, and neither
/// a struct nor a tuple adds anything to its fields, so the size is that of four `u64` and no
/// error comes back.
#[verifier::external_body]
fn frame_header_size(header: &LatencyTestFrameHeader) -> (size: Result<u64, Box<bincode::ErrorKind>>)
    ensures
        size is Ok,
        size->Ok_0 == header_wire_len(),
{
    bincode::serialized_size(
        &(
            header.frame_index,
            header.client_send_timestamp_ns,
            header.server_recv_timestamp_ns,
            header.server_send_timestamp_ns,
        ),
    )
}

/// Why a number of shards could not be told.
#[derive(Clone, Copy, Debug, PartialEq, Eq)]
pub enum ShardCountError {
    /// The frame header could not be measured.
    HeaderSize,
}

/// The least integer that is not below `a / b`.
pub open spec fn ceil_div(a: int, b: int) -> int {
    (a + b - 1) / b
}

/// Payload bytes of a frame of so many kilobytes.
pub open spec fn frame_bytes(frame_size_kb: u32) -> int {
    frame_size_kb * 1024
}

/// The number of shards of a frame: the first shard shares its room with the header, each
/// further one is filled up to `max_shard`.
pub open spec fn shard_count(frame_size_kb: u32, max_shard: int, header: int) -> int {
    let first = max_shard - header;
    if frame_bytes(frame_size_kb) <= first {
        1
    } else {
        1 + ceil_div(frame_bytes(frame_size_kb) - first, max_shard)
    }
}

/// Whether a frame of that size can be cut into shards of that size: the header fits in the
/// first shard, and the number of shards in 32 bits.
pub open spec fn can_be_cut(frame_size_kb: u32, max_shard: int, header: int) -> bool {
    &&& header <= max_shard
    &&& 0 < max_shard
    &&& shard_count(frame_size_kb, max_shard, header) <= u32::MAX
}

/// The number of shards, where the header takes `header_size` bytes.
pub fn shards_for_header(frame_size_kb: u32, max_shard_data_size: usize, header_size: u64) -> (count:
    u32)
    requires
        can_be_cut(frame_size_kb, max_shard_data_size as int, header_size as int),
    ensures
        count == shard_count(frame_size_kb, max_shard_data_size as int, header_size as int),
{
    let max_shard: u64 = max_shard_data_size as u64;
    let frame_size_bytes: u64 = frame_size_kb as u64 * 1024;
    let first_shard_data: u64 = max_shard - header_size;
    if frame_size_bytes <= first_shard_data {
        1
    } else {
        let remaining: u64 = frame_size_bytes - first_shard_data;
        let full: u64 = remaining / max_shard;
        proof {
            lemma_ceil_div(remaining as int, max_shard as int);
        }
        if remaining % max_shard == 0 {
            1 + full as u32
        } else {
            1 + full as u32 + 1
        }
    }
}

proof fn lemma_ceil_div(a: int, b: int)
    requires
        a >= 0,
        b > 0,
    ensures
        ceil_div(a, b) == a / b + (if a % b == 0 {
            0int
        } else {
            1int
        }),
        0 <= a / b <= ceil_div(a, b),
        b * ceil_div(a, b) >= a,
        b * (ceil_div(a, b) - 1) < a,
{
    vstd::arithmetic::div_mod::lemma_fundamental_div_mod(a, b);
    let q = a / b;
    let r = a % b;
    assert(0 <= r < b);
    assert(a == b * q + r);
    assert(q >= 0) by (nonlinear_arith)
        requires
            a >= 0,
            b > 0,
            a == b * q + r,
            r < b,
    ;
    if r == 0 {
        assert((a + b - 1) == q * b + (b - 1)) by (nonlinear_arith)
            requires
                a == b * q + r,
                r == 0,
        ;
        vstd::arithmetic::div_mod::lemma_fundamental_div_mod_converse(a + b - 1, b, q, b - 1);
    } else {
        assert((a + b - 1) == (q + 1) * b + (r - 1)) by (nonlinear_arith)
            requires
                a == b * q + r,
        ;
        vstd::arithmetic::div_mod::lemma_fundamental_div_mod_converse(a + b - 1, b, q + 1, r - 1);
    }
    let c = ceil_div(a, b);
    assert(b * (q + 1) == b * q + b) by (nonlinear_arith);
    assert(b * (q - 1) == b * q - b) by (nonlinear_arith);
}

/// The size of a frame header on the wire, or an error where it cannot be measured.
pub fn measure_header() -> (size: Result<u64, ShardCountError>)
    ensures
        size is Ok,
        size->Ok_0 == header_wire_len(),
{
    let header = LatencyTestFrameHeader {
        frame_index: 0,
        client_send_timestamp_ns: 0,
        server_recv_timestamp_ns: 0,
        server_send_timestamp_ns: 0,
    };
    match frame_header_size(&header) {
        Ok(size) => Ok(size),
        Err(_) => Err(ShardCountError::HeaderSize),
    }
}

/// The shards hold the whole frame and its header, and one shard less would not.
pub proof fn shards_hold_the_frame_and_none_is_spare(
    frame_size_kb: u32,
    max_shard: int,
    header: int,
)
    requires
        0 <= header <= max_shard,
        0 < max_shard,
    ensures
        shard_count(frame_size_kb, max_shard, header) >= 1,
        shard_count(frame_size_kb, max_shard, header) * max_shard >= header + frame_bytes(
            frame_size_kb,
        ),
        shard_count(frame_size_kb, max_shard, header) > 1 ==> (shard_count(
            frame_size_kb,
            max_shard,
            header,
        ) - 1) * max_shard < header + frame_bytes(frame_size_kb),
{
    let first = max_shard - header;
    let remaining = frame_bytes(frame_size_kb) - first;
    if remaining > 0 {
        lemma_ceil_div(remaining, max_shard);
        let c = ceil_div(remaining, max_shard);
        assert((1 + c) * max_shard == max_shard + max_shard * c) by (nonlinear_arith);
        assert(c * max_shard == max_shard * c) by (nonlinear_arith);
        assert(max_shard * (c - 1) == max_shard * c - max_shard) by (nonlinear_arith);
    }
}

/// A frame is cut into as many shards as its header of 32 bytes and its payload of 1024 bytes to the
/// kilobyte fill: they have room for both, and one shard less has not.
pub proof fn shards_are_as_many_as_header_and_payload_fill(frame_size_kb: u32, max_shard: int)
    requires
        32 <= max_shard,
    ensures
        shard_count(frame_size_kb, max_shard, header_wire_len()) >= 1,
        shard_count(frame_size_kb, max_shard, header_wire_len()) * max_shard >= 32 + frame_size_kb
            * 1024,
        shard_count(frame_size_kb, max_shard, header_wire_len()) > 1 ==> (shard_count(
            frame_size_kb,
            max_shard,
            header_wire_len(),
        ) - 1) * max_shard < 32 + frame_size_kb * 1024,
{
    shards_hold_the_frame_and_none_is_spare(frame_size_kb, max_shard, header_wire_len());
}

} // verus!
