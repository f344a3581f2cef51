//! Values exchanged between the server, the client and the dashboard.

use vstd::prelude::*;

verus! {

/// An IP address as its octets.
#[derive(Clone, Copy, Debug, PartialEq, Eq)]
pub enum IpAddress {
    V4([u8; 4]),
    V6([u8; 16]),
}

/// What a latency test is asked to do.
#[derive(Debug, PartialEq, Eq)]
pub struct LatencyTestConfig {
    pub client_ip: String,
    pub frame_size_kb: u32,
    pub frame_rate_hz: u32,
    pub duration_secs: u32,
}

impl Clone for LatencyTestConfig {
    fn clone(&self) -> (r: Self)
        ensures
            r == *self,
    {
        LatencyTestConfig {
            client_ip: self.client_ip.clone(),
            frame_size_kb: self.frame_size_kb,
            frame_rate_hz: self.frame_rate_hz,
            duration_secs: self.duration_secs,
        }
    }
}

/// The client's account of one frame.
#[derive(Clone, Copy, Debug, PartialEq, Eq)]
pub struct LatencyTestFrameReport {
    pub frame_index: u64,
    pub shards_sent: u32,
    pub shards_received: u32,
    pub rtt_us: u64,
}

/// Header of a frame that the server sends back to the client.
#[derive(Clone, Copy, Debug, PartialEq, Eq)]
pub struct LatencyTestFrameHeader {
    pub frame_index: u64,
    pub client_send_timestamp_ns: u64,
    pub server_recv_timestamp_ns: u64,
    pub server_send_timestamp_ns: u64,
}

/// The packet by which the client asks for a frame.
#[derive(Clone, Copy, Debug, PartialEq, Eq)]
pub struct LatencyTestSensorPacket {
    pub frame_index: u64,
    pub client_send_timestamp_ns: u64,
}

/// Messages on the TCP control connection.
#[derive(Debug, PartialEq, Eq)]
pub enum LatencyTestControlMessage {
    StartTest(LatencyTestConfig),
    Ack,
    DataReady,
    FrameReport(LatencyTestFrameReport),
    TestComplete,
    StopTest,
}

/// Requests that the dashboard makes of the server.
#[derive(Debug, PartialEq, Eq)]
pub enum ServerRequest {
    StartLatencyTest(LatencyTestConfig),
    StopLatencyTest,
}

/// Numbers that the server and the client have to agree on.
#[derive(Clone, Copy, Debug, PartialEq, Eq)]
pub struct LinkParams {
    /// TCP port of the control connection.
    pub control_port: u16,
    /// UDP port of the data streams.
    pub data_port: u16,
    /// Stream that carries frames to the client.
    pub frame_stream_id: u16,
    /// Stream that carries sensor packets to the server.
    pub sensor_stream_id: u16,
    /// Largest datagram, headers counted in.
    pub max_packet_size: usize,
    /// Largest piece of a frame that one datagram carries.
    pub max_shard_data_size: usize,
}

} // verus!
