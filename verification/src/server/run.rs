//! One latency test on the server: the client is told to start, every sensor packet is answered
//! with a frame, the client's reports are written down, and everything is wound down.

use std::collections::HashMap;
use vstd::prelude::*;
use crate::packets::{
    IpAddress, LatencyTestConfig, LatencyTestControlMessage, LatencyTestFrameHeader,
    LatencyTestFrameReport, LatencyTestSensorPacket, LinkParams,
};
use crate::server::calculate_expected_shards_count;
use crate::shards::{
    can_be_cut, header_wire_len, shard_count, shards_are_as_many_as_header_and_payload_fill,
};

verus! {

broadcast use vstd::std_specs::hash::group_hash_axioms;

/// How long one wait for a sensor packet lasts.
pub const DATA_RECV_TIMEOUT_MS: u64 = 10;

/// How many packets may wait unread on a stream.
pub const MAX_UNREAD_FRAMES: usize = 256;

/// How much longer than the requested duration packets are answered.
pub const EXTRA_TEST_TIME_NS: u64 = 500_000_000;

/// How often control messages are looked for.
pub const CONTROL_CHECK_INTERVAL_NS: u64 = 50_000_000;

/// How long reports are still waited for after the client was told to stop.
pub const DRAIN_TIME_NS: u64 = 3_000_000_000;

/// How long one read on the control connection lasts in that time.
pub const DRAIN_READ_TIMEOUT_MS: u64 = 100;

/// What the run is waiting to hear about.
#[derive(Clone, Copy, Debug, PartialEq, Eq)]
pub enum ServerPhase {
    Starting,
    SendingStart,
    AwaitingAck,
    ParsingAddress,
    Connecting,
    SendingReady,
    CreatingCsv,
    OpeningStreams,
    StartingReceiver,
    ReadingStart,
    ReadingFirstCheck,
    Polling,
    ReceivingSensor,
    StampingReceive,
    StampingSend,
    Allocating,
    SendingFrame,
    CheckingClock,
    PollingControl,
    WritingRow,
    ClosingCheck,
    StoppingReceiver,
    JoiningReceiver,
    SendingStop,
    ReadingDeadline,
    SettingTimeout,
    DrainClock,
    Draining,
    DrainWriting,
    Flushing,
    ClearingRunning,
    Finished,
    Failed,
}

/// Why a control message could not be received.
#[derive(Clone, Copy, Debug, PartialEq, Eq)]
pub enum RecvError {
    TimedOut,
    WouldBlock,
    Other,
}

/// How a wait for a sensor packet ended.
#[derive(Clone, Copy, Debug, PartialEq, Eq)]
pub enum SensorOutcome {
    Packet(LatencyTestSensorPacket),
    /// A packet came that cannot be decoded.
    Undecodable,
    /// Nothing came in time.
    TryAgain,
    /// The stream failed.
    Failed,
}

/// How an action of the run ended.
#[derive(Debug, PartialEq, Eq)]
pub enum ServerEvent {
    /// The run begins.
    Begin,
    /// The action was carried out, and whether that worked.
    Done(bool),
    /// The client's address, or nothing where the text is no address.
    Address(Option<IpAddress>),
    /// A reading of the clock, in nanoseconds.
    Clock(u64),
    /// Whether the test is to go on, and the time.
    Polled { running: bool, now_ns: u64 },
    /// What came on the sensor stream.
    Sensor(SensorOutcome),
    /// The control message that was waited for, or why there is none.
    Message(Result<LatencyTestControlMessage, RecvError>),
    /// The control message that was waiting, if there was one.
    Control(Option<LatencyTestControlMessage>),
}

/// What the run does.
#[derive(Debug, PartialEq, Eq)]
pub enum ServerAction {
    /// Send a control message.
    SendControl(LatencyTestControlMessage),
    /// Wait for a control message.
    ReceiveControl,
    /// Read the client's address.
    ParseAddress(String),
    /// Open the data link to the client.
    ConnectData { ip: IpAddress, data_port: u16, max_packet_size: usize, recv_timeout_ms: u64 },
    /// Create the results file; the test goes on without one where that fails.
    CreateCsv,
    /// Open the frame stream for sending and the sensor stream for receiving.
    OpenStreams { frame_stream_id: u16, sensor_stream_id: u16, max_unread: usize },
    /// Start the loop that reads the data link.
    SpawnReceiver,
    /// Read the clock.
    ReadClock,
    /// Look at the flag and at the clock.
    Poll,
    /// Wait this many milliseconds for a sensor packet.
    ReceiveSensor(u64),
    /// Get a buffer for a frame with this header.
    AllocateFrame(LatencyTestFrameHeader),
    /// Send the frame with a payload of this many bytes.
    SendFrame { payload_len: u64 },
    /// See whether a control message is waiting.
    PollControl,
    /// Write a line into the results file; a failure does not matter.
    WriteRow { report: LatencyTestFrameReport, server_shards_sent: u32 },
    /// Tell the loop that reads the data link to end.
    StopReceiver,
    JoinReceiver,
    /// Limit each read on the control connection to this many milliseconds.
    SetReadTimeout(u64),
    /// Flush the results file.
    FlushCsv,
    /// Lower the flag that says that a test is running.
    ClearRunning,
    /// The test is over.
    Finish,
    /// The test is over with the error of the action that failed; the flag stays up.
    Fail,
}

/// State of a run.
#[derive(Debug)]
pub struct ServerRun {
    pub phase: ServerPhase,
    pub config: LatencyTestConfig,
    pub params: LinkParams,
    /// Whether there is a results file.
    pub csv: bool,
    pub expected_shards_count: u32,
    /// The shards of each frame that was sent and not reported on yet.
    pub frames_sent: HashMap<u64, u32>,
    pub start_ns: u64,
    /// When control messages were last looked for.
    pub last_check_ns: u64,
    /// When waiting for reports ends.
    pub drain_deadline_ns: u128,
    /// The packet that is being answered.
    pub sensor: LatencyTestSensorPacket,
    /// When it was received, since the start.
    pub server_recv_ns: u64,
}

/// State of a run, with the outstanding frames as a map.
#[verifier::ext_equal]
pub struct ServerView {
    pub phase: ServerPhase,
    pub config: LatencyTestConfig,
    pub params: LinkParams,
    pub csv: bool,
    pub expected_shards_count: u32,
    pub frames_sent: Map<u64, u32>,
    pub start_ns: u64,
    pub last_check_ns: u64,
    pub drain_deadline_ns: u128,
    pub sensor: LatencyTestSensorPacket,
    pub server_recv_ns: u64,
}

impl View for ServerRun {
    type V = ServerView;

    open spec fn view(&self) -> ServerView {
        ServerView {
            phase: self.phase,
            config: self.config,
            params: self.params,
            csv: self.csv,
            expected_shards_count: self.expected_shards_count,
            frames_sent: self.frames_sent@,
            start_ns: self.start_ns,
            last_check_ns: self.last_check_ns,
            drain_deadline_ns: self.drain_deadline_ns,
            sensor: self.sensor,
            server_recv_ns: self.server_recv_ns,
        }
    }
}

/// Whether frames of the configured size can be cut into shards.
pub open spec fn can_run(config: LatencyTestConfig, params: LinkParams) -> bool {
    can_be_cut(config.frame_size_kb, params.max_shard_data_size as int, header_wire_len())
}

/// The state in which a run begins.
pub open spec fn fresh_server(config: LatencyTestConfig, params: LinkParams) -> ServerView {
    ServerView {
        phase: ServerPhase::Starting,
        config,
        params,
        csv: false,
        expected_shards_count: 0,
        frames_sent: Map::empty(),
        start_ns: 0,
        last_check_ns: 0,
        drain_deadline_ns: 0,
        sensor: LatencyTestSensorPacket { frame_index: 0, client_send_timestamp_ns: 0 },
        server_recv_ns: 0,
    }
}

/// How long packets are answered.
pub open spec fn test_duration_ns(config: LatencyTestConfig) -> int {
    config.duration_secs * 1_000_000_000 + EXTRA_TEST_TIME_NS
}

/// Time from one reading of the clock to another; none where the clock seems to have gone back.
pub open spec fn time_since(from_ns: u64, now_ns: u64) -> u64 {
    if now_ns < from_ns {
        0
    } else {
        (now_ns - from_ns) as u64
    }
}

/// The shards that were sent for a frame and not reported on yet.
pub open spec fn outstanding_shards(frames_sent: Map<u64, u32>, frame_index: u64) -> u32 {
    if frames_sent.contains_key(frame_index) {
        frames_sent[frame_index]
    } else {
        0
    }
}

/// A state with another phase.
pub open spec fn at_phase(s: ServerView, phase: ServerPhase) -> ServerView {
    ServerView { phase, ..s }
}

/// The winding down begins.
pub open spec fn wind_down(s: ServerView) -> (ServerView, ServerAction) {
    (at_phase(s, ServerPhase::StoppingReceiver), ServerAction::StopReceiver)
}

/// No further report is waited for.
pub open spec fn close_results(s: ServerView) -> (ServerView, ServerAction) {
    if s.csv {
        (at_phase(s, ServerPhase::Flushing), ServerAction::FlushCsv)
    } else {
        (at_phase(s, ServerPhase::ClearingRunning), ServerAction::ClearRunning)
    }
}

/// A report is taken: its frame is not outstanding any more, and its line is written if there is
/// a file (`write`), or else the run goes on as in `skip`.
pub open spec fn take_report(
    s: ServerView,
    report: LatencyTestFrameReport,
    write: ServerPhase,
    skip: (ServerPhase, ServerAction),
) -> (ServerView, ServerAction) {
    let taken = ServerView { frames_sent: s.frames_sent.remove(report.frame_index), ..s };
    if s.csv {
        (
            at_phase(taken, write),
            ServerAction::WriteRow {
                report,
                server_shards_sent: outstanding_shards(s.frames_sent, report.frame_index),
            },
        )
    } else {
        (at_phase(taken, skip.0), skip.1)
    }
}

/// The next state and action while the test is being set up.
pub open spec fn setup_step(s: ServerView, event: ServerEvent) -> (ServerView, ServerAction) {
    match (s.phase, event) {
        (ServerPhase::Starting, ServerEvent::Begin) => (
            at_phase(s, ServerPhase::SendingStart),
            ServerAction::SendControl(LatencyTestControlMessage::StartTest(s.config)),
        ),
        (ServerPhase::SendingStart, ServerEvent::Done(true)) => (
            at_phase(s, ServerPhase::AwaitingAck),
            ServerAction::ReceiveControl,
        ),
        (ServerPhase::AwaitingAck, ServerEvent::Message(Ok(_))) => (
            at_phase(s, ServerPhase::ParsingAddress),
            ServerAction::ParseAddress(s.config.client_ip),
        ),
        (ServerPhase::ParsingAddress, ServerEvent::Address(Some(ip))) => (
            at_phase(s, ServerPhase::Connecting),
            ServerAction::ConnectData {
                ip,
                data_port: s.params.data_port,
                max_packet_size: s.params.max_packet_size,
                recv_timeout_ms: DATA_RECV_TIMEOUT_MS,
            },
        ),
        (ServerPhase::Connecting, ServerEvent::Done(true)) => (
            at_phase(s, ServerPhase::SendingReady),
            ServerAction::SendControl(LatencyTestControlMessage::DataReady),
        ),
        (ServerPhase::SendingReady, ServerEvent::Done(true)) => (
            at_phase(s, ServerPhase::CreatingCsv),
            ServerAction::CreateCsv,
        ),
        (ServerPhase::CreatingCsv, ServerEvent::Done(ok)) => (
            ServerView { phase: ServerPhase::OpeningStreams, csv: ok, ..s },
            ServerAction::OpenStreams {
                frame_stream_id: s.params.frame_stream_id,
                sensor_stream_id: s.params.sensor_stream_id,
                max_unread: MAX_UNREAD_FRAMES,
            },
        ),
        (ServerPhase::OpeningStreams, ServerEvent::Done(_)) => (
            at_phase(s, ServerPhase::StartingReceiver),
            ServerAction::SpawnReceiver,
        ),
        (ServerPhase::StartingReceiver, ServerEvent::Done(_)) => (
            ServerView {
                phase: ServerPhase::ReadingStart,
                expected_shards_count: shard_count(
                    s.config.frame_size_kb,
                    s.params.max_shard_data_size as int,
                    header_wire_len(),
                ) as u32,
                ..s
            },
            ServerAction::ReadClock,
        ),
        (ServerPhase::ReadingStart, ServerEvent::Clock(now_ns)) => (
            ServerView { phase: ServerPhase::ReadingFirstCheck, start_ns: now_ns, ..s },
            ServerAction::ReadClock,
        ),
        (ServerPhase::ReadingFirstCheck, ServerEvent::Clock(now_ns)) => (
            ServerView { phase: ServerPhase::Polling, last_check_ns: now_ns, ..s },
            ServerAction::Poll,
        ),
        _ => (at_phase(s, ServerPhase::Failed), ServerAction::Fail),
    }
}

/// The next state and action while sensor packets are answered. A frame that cannot be allocated
/// or sent, a stream that fails and the client's word that the test is complete all lead to the
/// winding down; a packet that cannot be decoded leads straight to the next one.
pub open spec fn answer_step(s: ServerView, event: ServerEvent) -> (ServerView, ServerAction) {
    let poll_control = (ServerPhase::PollingControl, ServerAction::PollControl);
    match (s.phase, event) {
        (ServerPhase::Polling, ServerEvent::Polled { running, now_ns }) => if running && time_since(
            s.start_ns,
            now_ns,
        ) < test_duration_ns(s.config) {
            (
                at_phase(s, ServerPhase::ReceivingSensor),
                ServerAction::ReceiveSensor(DATA_RECV_TIMEOUT_MS),
            )
        } else {
            wind_down(s)
        },
        (ServerPhase::ReceivingSensor, ServerEvent::Sensor(outcome)) => match outcome {
            SensorOutcome::Packet(packet) => (
                ServerView { phase: ServerPhase::StampingReceive, sensor: packet, ..s },
                ServerAction::ReadClock,
            ),
            SensorOutcome::Undecodable => (at_phase(s, ServerPhase::Polling), ServerAction::Poll),
            SensorOutcome::TryAgain => (
                at_phase(s, ServerPhase::CheckingClock),
                ServerAction::ReadClock,
            ),
            SensorOutcome::Failed => wind_down(s),
        },
        (ServerPhase::StampingReceive, ServerEvent::Clock(now_ns)) => (
            ServerView {
                phase: ServerPhase::StampingSend,
                server_recv_ns: time_since(s.start_ns, now_ns),
                ..s
            },
            ServerAction::ReadClock,
        ),
        (ServerPhase::StampingSend, ServerEvent::Clock(now_ns)) => (
            at_phase(s, ServerPhase::Allocating),
            ServerAction::AllocateFrame(
                LatencyTestFrameHeader {
                    frame_index: s.sensor.frame_index,
                    client_send_timestamp_ns: s.sensor.client_send_timestamp_ns,
                    server_recv_timestamp_ns: s.server_recv_ns,
                    server_send_timestamp_ns: time_since(s.start_ns, now_ns),
                },
            ),
        ),
        (ServerPhase::Allocating, ServerEvent::Done(ok)) => if ok {
            (
                at_phase(s, ServerPhase::SendingFrame),
                ServerAction::SendFrame { payload_len: (s.config.frame_size_kb * 1024) as u64 },
            )
        } else {
            wind_down(s)
        },
        (ServerPhase::SendingFrame, ServerEvent::Done(ok)) => if ok {
            (
                ServerView {
                    phase: ServerPhase::CheckingClock,
                    frames_sent: s.frames_sent.insert(
                        s.sensor.frame_index,
                        s.expected_shards_count,
                    ),
                    ..s
                },
                ServerAction::ReadClock,
            )
        } else {
            wind_down(s)
        },
        (ServerPhase::CheckingClock, ServerEvent::Clock(now_ns)) => if time_since(
            s.last_check_ns,
            now_ns,
        ) >= CONTROL_CHECK_INTERVAL_NS {
            (at_phase(s, poll_control.0), poll_control.1)
        } else {
            (at_phase(s, ServerPhase::Polling), ServerAction::Poll)
        },
        (ServerPhase::PollingControl, ServerEvent::Control(message)) => match message {
            Some(LatencyTestControlMessage::FrameReport(report)) => take_report(
                s,
                report,
                ServerPhase::WritingRow,
                poll_control,
            ),
            Some(LatencyTestControlMessage::TestComplete) => wind_down(s),
            Some(_) => (at_phase(s, poll_control.0), poll_control.1),
            None => (at_phase(s, ServerPhase::ClosingCheck), ServerAction::ReadClock),
        },
        (ServerPhase::WritingRow, ServerEvent::Done(_)) => (
            at_phase(s, poll_control.0),
            poll_control.1,
        ),
        (ServerPhase::ClosingCheck, ServerEvent::Clock(now_ns)) => (
            ServerView { phase: ServerPhase::Polling, last_check_ns: now_ns, ..s },
            ServerAction::Poll,
        ),
        _ => (at_phase(s, ServerPhase::Failed), ServerAction::Fail),
    }
}

/// The next state and action while the test is wound down: the client is told to stop, and its
/// last reports are waited for until it says that it is done, the connection fails, or time is up.
pub open spec fn wind_down_step(s: ServerView, event: ServerEvent) -> (ServerView, ServerAction) {
    let next_report = (ServerPhase::DrainClock, ServerAction::ReadClock);
    match (s.phase, event) {
        (ServerPhase::StoppingReceiver, ServerEvent::Done(_)) => (
            at_phase(s, ServerPhase::JoiningReceiver),
            ServerAction::JoinReceiver,
        ),
        (ServerPhase::JoiningReceiver, ServerEvent::Done(_)) => (
            at_phase(s, ServerPhase::SendingStop),
            ServerAction::SendControl(LatencyTestControlMessage::StopTest),
        ),
        (ServerPhase::SendingStop, ServerEvent::Done(true)) => (
            at_phase(s, ServerPhase::ReadingDeadline),
            ServerAction::ReadClock,
        ),
        (ServerPhase::ReadingDeadline, ServerEvent::Clock(now_ns)) => (
            ServerView {
                phase: ServerPhase::SettingTimeout,
                drain_deadline_ns: (now_ns + DRAIN_TIME_NS) as u128,
                ..s
            },
            ServerAction::SetReadTimeout(DRAIN_READ_TIMEOUT_MS),
        ),
        (ServerPhase::SettingTimeout, ServerEvent::Done(_)) => (
            at_phase(s, next_report.0),
            next_report.1,
        ),
        (ServerPhase::DrainClock, ServerEvent::Clock(now_ns)) => if now_ns < s.drain_deadline_ns {
            (at_phase(s, ServerPhase::Draining), ServerAction::ReceiveControl)
        } else {
            close_results(s)
        },
        (ServerPhase::Draining, ServerEvent::Message(message)) => match message {
            Ok(LatencyTestControlMessage::FrameReport(report)) => take_report(
                s,
                report,
                ServerPhase::DrainWriting,
                next_report,
            ),
            Ok(LatencyTestControlMessage::TestComplete) => close_results(s),
            Ok(_) => (at_phase(s, next_report.0), next_report.1),
            Err(RecvError::TimedOut) | Err(RecvError::WouldBlock) => (
                at_phase(s, next_report.0),
                next_report.1,
            ),
            Err(RecvError::Other) => close_results(s),
        },
        (ServerPhase::DrainWriting, ServerEvent::Done(_)) => (
            at_phase(s, next_report.0),
            next_report.1,
        ),
        (ServerPhase::Flushing, ServerEvent::Done(_)) => (
            at_phase(s, ServerPhase::ClearingRunning),
            ServerAction::ClearRunning,
        ),
        (ServerPhase::ClearingRunning, ServerEvent::Done(_)) => (
            at_phase(s, ServerPhase::Finished),
            ServerAction::Finish,
        ),
        (ServerPhase::Finished, _) => (s, ServerAction::Finish),
        _ => (at_phase(s, ServerPhase::Failed), ServerAction::Fail),
    }
}

/// How far a run has come: setting up, answering packets, winding down.
pub open spec fn stage(phase: ServerPhase) -> int {
    match phase {
        ServerPhase::Starting
        | ServerPhase::SendingStart
        | ServerPhase::AwaitingAck
        | ServerPhase::ParsingAddress
        | ServerPhase::Connecting
        | ServerPhase::SendingReady
        | ServerPhase::CreatingCsv
        | ServerPhase::OpeningStreams
        | ServerPhase::StartingReceiver
        | ServerPhase::ReadingStart
        | ServerPhase::ReadingFirstCheck => 0,
        ServerPhase::Polling
        | ServerPhase::ReceivingSensor
        | ServerPhase::StampingReceive
        | ServerPhase::StampingSend
        | ServerPhase::Allocating
        | ServerPhase::SendingFrame
        | ServerPhase::CheckingClock
        | ServerPhase::PollingControl
        | ServerPhase::WritingRow
        | ServerPhase::ClosingCheck => 1,
        _ => 2,
    }
}

/// The next state and action. An action that fails where that matters ends the run with an error,
/// and so does an event that does not belong to the phase.
pub open spec fn server_step(s: ServerView, event: ServerEvent) -> (ServerView, ServerAction) {
    if stage(s.phase) == 0 {
        setup_step(s, event)
    } else if stage(s.phase) == 1 {
        answer_step(s, event)
    } else {
        wind_down_step(s, event)
    }
}

impl ServerRun {
    pub fn new(config: LatencyTestConfig, params: LinkParams) -> (run: Self)
        ensures
            run@ == fresh_server(config, params),
    {
        ServerRun {
            phase: ServerPhase::Starting,
            config,
            params,
            csv: false,
            expected_shards_count: 0,
            frames_sent: HashMap::new(),
            start_ns: 0,
            last_check_ns: 0,
            drain_deadline_ns: 0,
            sensor: LatencyTestSensorPacket { frame_index: 0, client_send_timestamp_ns: 0 },
            server_recv_ns: 0,
        }
    }

    /// One turn of the run. The shards of a frame are counted once, right after the loop that reads
    /// the data link was started.
    pub fn run_latency_test(&mut self, event: ServerEvent) -> (action: ServerAction)
        requires
            old(self).phase is StartingReceiver ==> can_run(old(self).config, old(self).params),
        ensures
            (final(self)@, action) == server_step(old(self)@, event),
            final(self).config == old(self).config,
            final(self).params == old(self).params,
    {
        match self.phase {
            ServerPhase::Starting
            | ServerPhase::SendingStart
            | ServerPhase::AwaitingAck
            | ServerPhase::ParsingAddress
            | ServerPhase::Connecting
            | ServerPhase::SendingReady
            | ServerPhase::CreatingCsv
            | ServerPhase::OpeningStreams
            | ServerPhase::StartingReceiver
            | ServerPhase::ReadingStart
            | ServerPhase::ReadingFirstCheck => self.set_up(event),
            ServerPhase::Polling
            | ServerPhase::ReceivingSensor
            | ServerPhase::StampingReceive
            | ServerPhase::StampingSend
            | ServerPhase::Allocating
            | ServerPhase::SendingFrame
            | ServerPhase::CheckingClock
            | ServerPhase::PollingControl
            | ServerPhase::WritingRow
            | ServerPhase::ClosingCheck => self.answer(event),
            _ => self.wind_down(event),
        }
    }

    fn go(&mut self, phase: ServerPhase, action: ServerAction) -> (r: ServerAction)
        ensures
            final(self)@ == at_phase(old(self)@, phase),
            r == action,
    {
        self.phase = phase;
        action
    }

    fn set_up(&mut self, event: ServerEvent) -> (action: ServerAction)
        requires
            old(self).phase is StartingReceiver ==> can_run(old(self).config, old(self).params),
        ensures
            (final(self)@, action) == setup_step(old(self)@, event),
    {
        match (self.phase, event) {
            (ServerPhase::Starting, ServerEvent::Begin) => {
                let config = self.config.clone();
                self.go(
                    ServerPhase::SendingStart,
                    ServerAction::SendControl(LatencyTestControlMessage::StartTest(config)),
                )
            },
            (ServerPhase::SendingStart, ServerEvent::Done(true)) => self.go(
                ServerPhase::AwaitingAck,
                ServerAction::ReceiveControl,
            ),
            (ServerPhase::AwaitingAck, ServerEvent::Message(Ok(_))) => {
                let client_ip = self.config.client_ip.clone();
                self.go(ServerPhase::ParsingAddress, ServerAction::ParseAddress(client_ip))
            },
            (ServerPhase::ParsingAddress, ServerEvent::Address(Some(ip))) => {
                let data_port: u16 = self.params.data_port;
                let max_packet_size: usize = self.params.max_packet_size;
                self.go(
                    ServerPhase::Connecting,
                    ServerAction::ConnectData {
                        ip,
                        data_port,
                        max_packet_size,
                        recv_timeout_ms: DATA_RECV_TIMEOUT_MS,
                    },
                )
            },
            (ServerPhase::Connecting, ServerEvent::Done(true)) => self.go(
                ServerPhase::SendingReady,
                ServerAction::SendControl(LatencyTestControlMessage::DataReady),
            ),
            (ServerPhase::SendingReady, ServerEvent::Done(true)) => self.go(
                ServerPhase::CreatingCsv,
                ServerAction::CreateCsv,
            ),
            (ServerPhase::CreatingCsv, ServerEvent::Done(ok)) => {
                self.csv = ok;
                let frame_stream_id: u16 = self.params.frame_stream_id;
                let sensor_stream_id: u16 = self.params.sensor_stream_id;
                self.go(
                    ServerPhase::OpeningStreams,
                    ServerAction::OpenStreams {
                        frame_stream_id,
                        sensor_stream_id,
                        max_unread: MAX_UNREAD_FRAMES,
                    },
                )
            },
            (ServerPhase::OpeningStreams, ServerEvent::Done(_)) => self.go(
                ServerPhase::StartingReceiver,
                ServerAction::SpawnReceiver,
            ),
            (ServerPhase::StartingReceiver, ServerEvent::Done(_)) => {
                match calculate_expected_shards_count(
                    self.config.frame_size_kb,
                    self.params.max_shard_data_size,
                ) {
                    Ok(count) => {
                        self.expected_shards_count = count;
                        self.go(ServerPhase::ReadingStart, ServerAction::ReadClock)
                    },
                    Err(_) => self.go(ServerPhase::Failed, ServerAction::Fail),
                }
            },
            (ServerPhase::ReadingStart, ServerEvent::Clock(now_ns)) => {
                self.start_ns = now_ns;
                self.go(ServerPhase::ReadingFirstCheck, ServerAction::ReadClock)
            },
            (ServerPhase::ReadingFirstCheck, ServerEvent::Clock(now_ns)) => {
                self.last_check_ns = now_ns;
                self.go(ServerPhase::Polling, ServerAction::Poll)
            },
            _ => self.go(ServerPhase::Failed, ServerAction::Fail),
        }
    }

    /// Strikes a frame off the outstanding ones; the result is the number of its shards.
    fn settle(&mut self, frame_index: u64) -> (server_shards_sent: u32)
        ensures
            final(self)@ == (ServerView {
                frames_sent: old(self)@.frames_sent.remove(frame_index),
                ..old(self)@
            }),
            server_shards_sent == outstanding_shards(old(self)@.frames_sent, frame_index),
    {
        match self.frames_sent.remove(&frame_index) {
            Some(shards) => shards,
            None => {
                proof {
                    assert(old(self)@.frames_sent.remove(frame_index) =~= old(self)@.frames_sent);
                }
                0
            },
        }
    }

    fn answer(&mut self, event: ServerEvent) -> (action: ServerAction)
        ensures
            (final(self)@, action) == answer_step(old(self)@, event),
    {
        match (self.phase, event) {
            (ServerPhase::Polling, ServerEvent::Polled { running, now_ns }) => {
                let duration: u64 = self.config.duration_secs as u64 * 1_000_000_000
                    + EXTRA_TEST_TIME_NS;
                if running && now_ns.saturating_sub(self.start_ns) < duration {
                    self.go(
                        ServerPhase::ReceivingSensor,
                        ServerAction::ReceiveSensor(DATA_RECV_TIMEOUT_MS),
                    )
                } else {
                    self.go(ServerPhase::StoppingReceiver, ServerAction::StopReceiver)
                }
            },
            (ServerPhase::ReceivingSensor, ServerEvent::Sensor(outcome)) => {
                match outcome {
                    SensorOutcome::Packet(packet) => {
                        self.sensor = packet;
                        self.go(ServerPhase::StampingReceive, ServerAction::ReadClock)
                    },
                    SensorOutcome::Undecodable => self.go(
                        ServerPhase::Polling,
                        ServerAction::Poll,
                    ),
                    SensorOutcome::TryAgain => self.go(
                        ServerPhase::CheckingClock,
                        ServerAction::ReadClock,
                    ),
                    SensorOutcome::Failed => self.go(
                        ServerPhase::StoppingReceiver,
                        ServerAction::StopReceiver,
                    ),
                }
            },
            (ServerPhase::StampingReceive, ServerEvent::Clock(now_ns)) => {
                self.server_recv_ns = now_ns.saturating_sub(self.start_ns);
                self.go(ServerPhase::StampingSend, ServerAction::ReadClock)
            },
            (ServerPhase::StampingSend, ServerEvent::Clock(now_ns)) => {
                let header = LatencyTestFrameHeader {
                    frame_index: self.sensor.frame_index,
                    client_send_timestamp_ns: self.sensor.client_send_timestamp_ns,
                    server_recv_timestamp_ns: self.server_recv_ns,
                    server_send_timestamp_ns: now_ns.saturating_sub(self.start_ns),
                };
                self.go(ServerPhase::Allocating, ServerAction::AllocateFrame(header))
            },
            (ServerPhase::Allocating, ServerEvent::Done(ok)) => {
                let payload_len: u64 = self.config.frame_size_kb as u64 * 1024;
                if ok {
                    self.go(ServerPhase::SendingFrame, ServerAction::SendFrame { payload_len })
                } else {
                    self.go(ServerPhase::StoppingReceiver, ServerAction::StopReceiver)
                }
            },
            (ServerPhase::SendingFrame, ServerEvent::Done(ok)) => {
                if ok {
                    self.frames_sent.insert(self.sensor.frame_index, self.expected_shards_count);
                    self.go(ServerPhase::CheckingClock, ServerAction::ReadClock)
                } else {
                    self.go(ServerPhase::StoppingReceiver, ServerAction::StopReceiver)
                }
            },
            (ServerPhase::CheckingClock, ServerEvent::Clock(now_ns)) => {
                if now_ns.saturating_sub(self.last_check_ns) >= CONTROL_CHECK_INTERVAL_NS {
                    self.go(ServerPhase::PollingControl, ServerAction::PollControl)
                } else {
                    self.go(ServerPhase::Polling, ServerAction::Poll)
                }
            },
            (ServerPhase::PollingControl, ServerEvent::Control(message)) => {
                match message {
                    Some(LatencyTestControlMessage::FrameReport(report)) => {
                        let server_shards_sent: u32 = self.settle(report.frame_index);
                        if self.csv {
                            self.go(
                                ServerPhase::WritingRow,
                                ServerAction::WriteRow { report, server_shards_sent },
                            )
                        } else {
                            self.go(ServerPhase::PollingControl, ServerAction::PollControl)
                        }
                    },
                    Some(LatencyTestControlMessage::TestComplete) => self.go(
                        ServerPhase::StoppingReceiver,
                        ServerAction::StopReceiver,
                    ),
                    Some(_) => self.go(ServerPhase::PollingControl, ServerAction::PollControl),
                    None => self.go(ServerPhase::ClosingCheck, ServerAction::ReadClock),
                }
            },
            (ServerPhase::WritingRow, ServerEvent::Done(_)) => self.go(
                ServerPhase::PollingControl,
                ServerAction::PollControl,
            ),
            (ServerPhase::ClosingCheck, ServerEvent::Clock(now_ns)) => {
                self.last_check_ns = now_ns;
                self.go(ServerPhase::Polling, ServerAction::Poll)
            },
            _ => self.go(ServerPhase::Failed, ServerAction::Fail),
        }
    }

    fn close(&mut self) -> (action: ServerAction)
        ensures
            (final(self)@, action) == close_results(old(self)@),
    {
        if self.csv {
            self.go(ServerPhase::Flushing, ServerAction::FlushCsv)
        } else {
            self.go(ServerPhase::ClearingRunning, ServerAction::ClearRunning)
        }
    }

    fn wind_down(&mut self, event: ServerEvent) -> (action: ServerAction)
        ensures
            (final(self)@, action) == wind_down_step(old(self)@, event),
    {
        match (self.phase, event) {
            (ServerPhase::StoppingReceiver, ServerEvent::Done(_)) => self.go(
                ServerPhase::JoiningReceiver,
                ServerAction::JoinReceiver,
            ),
            (ServerPhase::JoiningReceiver, ServerEvent::Done(_)) => self.go(
                ServerPhase::SendingStop,
                ServerAction::SendControl(LatencyTestControlMessage::StopTest),
            ),
            (ServerPhase::SendingStop, ServerEvent::Done(true)) => self.go(
                ServerPhase::ReadingDeadline,
                ServerAction::ReadClock,
            ),
            (ServerPhase::ReadingDeadline, ServerEvent::Clock(now_ns)) => {
                self.drain_deadline_ns = now_ns as u128 + DRAIN_TIME_NS as u128;
                self.go(
                    ServerPhase::SettingTimeout,
                    ServerAction::SetReadTimeout(DRAIN_READ_TIMEOUT_MS),
                )
            },
            (ServerPhase::SettingTimeout, ServerEvent::Done(_)) => self.go(
                ServerPhase::DrainClock,
                ServerAction::ReadClock,
            ),
            (ServerPhase::DrainClock, ServerEvent::Clock(now_ns)) => {
                if (now_ns as u128) < self.drain_deadline_ns {
                    self.go(ServerPhase::Draining, ServerAction::ReceiveControl)
                } else {
                    self.close()
                }
            },
            (ServerPhase::Draining, ServerEvent::Message(message)) => {
                match message {
                    Ok(LatencyTestControlMessage::FrameReport(report)) => {
                        let server_shards_sent: u32 = self.settle(report.frame_index);
                        if self.csv {
                            self.go(
                                ServerPhase::DrainWriting,
                                ServerAction::WriteRow { report, server_shards_sent },
                            )
                        } else {
                            self.go(ServerPhase::DrainClock, ServerAction::ReadClock)
                        }
                    },
                    Ok(LatencyTestControlMessage::TestComplete) => self.close(),
                    Ok(_) => self.go(ServerPhase::DrainClock, ServerAction::ReadClock),
                    Err(RecvError::TimedOut) | Err(RecvError::WouldBlock) => self.go(
                        ServerPhase::DrainClock,
                        ServerAction::ReadClock,
                    ),
                    Err(RecvError::Other) => self.close(),
                }
            },
            (ServerPhase::DrainWriting, ServerEvent::Done(_)) => self.go(
                ServerPhase::DrainClock,
                ServerAction::ReadClock,
            ),
            (ServerPhase::Flushing, ServerEvent::Done(_)) => self.go(
                ServerPhase::ClearingRunning,
                ServerAction::ClearRunning,
            ),
            (ServerPhase::ClearingRunning, ServerEvent::Done(_)) => self.go(
                ServerPhase::Finished,
                ServerAction::Finish,
            ),
            (ServerPhase::Finished, _) => ServerAction::Finish,
            _ => self.go(ServerPhase::Failed, ServerAction::Fail),
        }
    }
}

/// The state after a row of events.
pub open spec fn server_after(start: ServerView, events: Seq<ServerEvent>) -> ServerView
    decreases events.len(),
{
    if events.len() == 0 {
        start
    } else {
        server_step(server_after(start, events.drop_last()), events.last()).0
    }
}

/// The action that the `i`-th event of a row leads to.
pub open spec fn server_action_at(start: ServerView, events: Seq<ServerEvent>, i: int) -> ServerAction {
    server_step(server_after(start, events.take(i)), events[i]).1
}

/// Whether a step is the one in which a frame counts as sent.
pub open spec fn sends_frame(s: ServerView, event: ServerEvent, frame_index: u64) -> bool {
    s.phase is SendingFrame && event == ServerEvent::Done(true) && s.sensor.frame_index
        == frame_index
}

/// The report that a step takes, if it takes one.
pub open spec fn taken_report(s: ServerView, event: ServerEvent) -> Option<LatencyTestFrameReport> {
    match (s.phase, event) {
        (
            ServerPhase::PollingControl,
            ServerEvent::Control(Some(LatencyTestControlMessage::FrameReport(r))),
        ) => Some(r),
        (
            ServerPhase::Draining,
            ServerEvent::Message(Ok(LatencyTestControlMessage::FrameReport(r))),
        ) => Some(r),
        _ => None,
    }
}

/// Whether a step takes a report on a frame.
pub open spec fn takes_report(s: ServerView, event: ServerEvent, frame_index: u64) -> bool {
    match taken_report(s, event) {
        Some(r) => r.frame_index == frame_index,
        None => false,
    }
}

/// A frame is outstanding from the moment it is sent until a report on it is taken.
pub proof fn a_frame_is_outstanding_from_its_sending_to_its_report(
    s: ServerView,
    event: ServerEvent,
    frame_index: u64,
)
    ensures
        server_step(s, event).0.frames_sent.contains_key(frame_index) <==> sends_frame(
            s,
            event,
            frame_index,
        ) || (s.frames_sent.contains_key(frame_index) && !takes_report(s, event, frame_index)),
{
}

/// The shards of one frame of a test.
pub open spec fn configured_shards(config: LatencyTestConfig, params: LinkParams) -> u32 {
    shard_count(config.frame_size_kb, params.max_shard_data_size as int, header_wire_len()) as u32
}

/// Whether the number of shards is known once packets are answered, every outstanding frame has
/// that many, and there is none before.
pub open spec fn shards_as_expected(s: ServerView) -> bool {
    &&& s.phase is ReadingStart || s.phase is ReadingFirstCheck || stage(s.phase) == 1
        ==> s.expected_shards_count == configured_shards(s.config, s.params)
    &&& stage(s.phase) == 0 ==> s.frames_sent == Map::<u64, u32>::empty()
    &&& forall|i: u64|
        #[trigger] s.frames_sent.contains_key(i) ==> s.frames_sent[i] == configured_shards(
            s.config,
            s.params,
        )
}

/// Whatever happens, a run keeps the configuration it was begun with, and every outstanding frame
/// has the number of shards that goes with it.
pub proof fn a_run_keeps_its_shards_as_expected(start: ServerView, events: Seq<ServerEvent>)
    requires
        shards_as_expected(start),
    ensures
        shards_as_expected(server_after(start, events)),
        server_after(start, events).config == start.config,
        server_after(start, events).params == start.params,
    decreases events.len(),
{
    if events.len() > 0 {
        a_run_keeps_its_shards_as_expected(start, events.drop_last());
    }
}

/// A line in the results says of a frame that all its shards were sent if it was sent and not yet
/// reported on, and that none were otherwise.
pub proof fn rows_carry_all_shards_or_none(
    config: LatencyTestConfig,
    params: LinkParams,
    events: Seq<ServerEvent>,
    event: ServerEvent,
)
    ensures
        ({
            let s = server_after(fresh_server(config, params), events);
            server_step(s, event).1 matches ServerAction::WriteRow { report, server_shards_sent }
                ==> {
                &&& takes_report(s, event, report.frame_index)
                &&& server_shards_sent == (if s.frames_sent.contains_key(report.frame_index) {
                    configured_shards(config, params)
                } else {
                    0
                })
            }
        }),
{
    a_run_keeps_its_shards_as_expected(fresh_server(config, params), events);
}

/// How often a frame was sent.
pub open spec fn times_sent(start: ServerView, events: Seq<ServerEvent>, frame_index: u64) -> nat
    decreases events.len(),
{
    if events.len() == 0 {
        0
    } else {
        times_sent(start, events.drop_last(), frame_index) + (if sends_frame(
            server_after(start, events.drop_last()),
            events.last(),
            frame_index,
        ) {
            1nat
        } else {
            0nat
        })
    }
}

/// Whether an action writes a line that credits the server with shards of a frame.
pub open spec fn credits_frame(action: ServerAction, frame_index: u64) -> bool {
    action matches ServerAction::WriteRow { report, server_shards_sent } && report.frame_index
        == frame_index && server_shards_sent > 0
}

/// How many lines credit the server with shards of a frame.
pub open spec fn times_credited(
    start: ServerView,
    events: Seq<ServerEvent>,
    frame_index: u64,
) -> nat
    decreases events.len(),
{
    if events.len() == 0 {
        0
    } else {
        times_credited(start, events.drop_last(), frame_index) + (if credits_frame(
            server_step(server_after(start, events.drop_last()), events.last()).1,
            frame_index,
        ) {
            1nat
        } else {
            0nat
        })
    }
}

/// The results credit the server with no sending twice: of each frame there are at most as many
/// lines with shards sent as it was sent times, however often the client reports on it.
pub proof fn no_sending_is_credited_twice(
    config: LatencyTestConfig,
    params: LinkParams,
    events: Seq<ServerEvent>,
    frame_index: u64,
)
    ensures
        times_credited(fresh_server(config, params), events, frame_index) <= times_sent(
            fresh_server(config, params),
            events,
            frame_index,
        ),
{
    lemma_credits(fresh_server(config, params), events, frame_index);
}

proof fn lemma_credits(start: ServerView, events: Seq<ServerEvent>, frame_index: u64)
    requires
        start.frames_sent == Map::<u64, u32>::empty(),
    ensures
        times_credited(start, events, frame_index) + (if server_after(
            start,
            events,
        ).frames_sent.contains_key(frame_index) {
            1nat
        } else {
            0nat
        }) <= times_sent(start, events, frame_index),
    decreases events.len(),
{
    if events.len() > 0 {
        lemma_credits(start, events.drop_last(), frame_index);
        let s = server_after(start, events.drop_last());
        a_frame_is_outstanding_from_its_sending_to_its_report(s, events.last(), frame_index);
    }
}

/// The reports that were taken over a row of events, in order.
pub open spec fn reports_taken(start: ServerView, events: Seq<ServerEvent>) -> Seq<
    LatencyTestFrameReport,
>
    decreases events.len(),
{
    if events.len() == 0 {
        Seq::empty()
    } else {
        let before = reports_taken(start, events.drop_last());
        match taken_report(server_after(start, events.drop_last()), events.last()) {
            Some(report) => before.push(report),
            None => before,
        }
    }
}

/// The reports of which a line was written over a row of events, in order.
pub open spec fn rows_written(start: ServerView, events: Seq<ServerEvent>) -> Seq<
    LatencyTestFrameReport,
>
    decreases events.len(),
{
    if events.len() == 0 {
        Seq::empty()
    } else {
        let before = rows_written(start, events.drop_last());
        match server_step(server_after(start, events.drop_last()), events.last()).1 {
            ServerAction::WriteRow { report, .. } => before.push(report),
            _ => before,
        }
    }
}

/// Where there is a results file, every report that was taken has its line in it, in the order in
/// which they came; where there is none, no line is written.
pub proof fn every_report_has_its_line(
    config: LatencyTestConfig,
    params: LinkParams,
    events: Seq<ServerEvent>,
)
    ensures
        server_after(fresh_server(config, params), events).csv ==> rows_written(
            fresh_server(config, params),
            events,
        ) == reports_taken(fresh_server(config, params), events),
        !server_after(fresh_server(config, params), events).csv ==> rows_written(
            fresh_server(config, params),
            events,
        ).len() == 0,
{
    lemma_rows(fresh_server(config, params), events);
}

proof fn lemma_rows(start: ServerView, events: Seq<ServerEvent>)
    requires
        start.phase is Starting,
        !start.csv,
    ensures
        ({
            let s = server_after(start, events);
            let taken = reports_taken(start, events);
            &&& stage(s.phase) == 0 ==> taken.len() == 0
            &&& rows_written(start, events) == if s.csv {
                taken
            } else {
                Seq::empty()
            }
        }),
    decreases events.len(),
{
    if events.len() > 0 {
        lemma_rows(start, events.drop_last());
    }
}

/// A packet is answered with a frame of its own index and time stamp, and with the times at which
/// it was received and answered.
pub proof fn a_packet_is_answered_with_its_own_stamp(
    s: ServerView,
    packet: LatencyTestSensorPacket,
    received_ns: u64,
    answered_ns: u64,
)
    requires
        s.phase is ReceivingSensor,
    ensures
        ({
            let s1 = server_step(s, ServerEvent::Sensor(SensorOutcome::Packet(packet))).0;
            let s2 = server_step(s1, ServerEvent::Clock(received_ns)).0;
            server_step(s2, ServerEvent::Clock(answered_ns)).1 == ServerAction::AllocateFrame(
                LatencyTestFrameHeader {
                    frame_index: packet.frame_index,
                    client_send_timestamp_ns: packet.client_send_timestamp_ns,
                    server_recv_timestamp_ns: time_since(s.start_ns, received_ns),
                    server_send_timestamp_ns: time_since(s.start_ns, answered_ns),
                },
            )
        }),
{
}

/// Whether an action hands a frame to the data link.
pub open spec fn is_frame_action(action: ServerAction) -> bool {
    action is AllocateFrame || action is SendFrame
}

/// A run goes from setting up to answering packets to winding down and never back; frames are
/// handed to the data link only while packets are answered, and the client is told to stop only
/// after that.
pub proof fn stages_never_go_back(s: ServerView, event: ServerEvent)
    ensures
        stage(server_step(s, event).0.phase) >= stage(s.phase),
        is_frame_action(server_step(s, event).1) ==> stage(s.phase) == 1,
        server_step(s, event).1 == ServerAction::SendControl(LatencyTestControlMessage::StopTest)
            ==> stage(s.phase) == 2,
{
}

/// Whether the client has been told that the data link is ready, or is being told.
pub open spec fn ready_announced(phase: ServerPhase) -> bool {
    match phase {
        ServerPhase::Starting
        | ServerPhase::SendingStart
        | ServerPhase::AwaitingAck
        | ServerPhase::ParsingAddress
        | ServerPhase::Connecting
        | ServerPhase::Failed => false,
        _ => true,
    }
}

/// Whether the `k`-th event of a row tells that the data link was opened, and leads to telling the
/// client so.
pub open spec fn announces_ready(start: ServerView, events: Seq<ServerEvent>, k: int) -> bool {
    &&& server_after(start, events.take(k)).phase is Connecting
    &&& events[k] == ServerEvent::Done(true)
    &&& server_action_at(start, events, k) == ServerAction::SendControl(
        LatencyTestControlMessage::DataReady,
    )
}

proof fn lemma_ready(start: ServerView, events: Seq<ServerEvent>)
    requires
        start.phase is Starting,
        ready_announced(server_after(start, events).phase),
    ensures
        exists|k: int| 0 <= k < events.len() && announces_ready(start, events, k),
    decreases events.len(),
{
    let before = events.drop_last();
    let last = events.len() - 1;
    assert(events.take(last) =~= before);
    if ready_announced(server_after(start, before).phase) {
        lemma_ready(start, before);
        let k = choose|k: int| 0 <= k < before.len() && announces_ready(start, before, k);
        assert(before.take(k) =~= events.take(k));
        assert(before[k] == events[k]);
        assert(announces_ready(start, events, k));
    } else {
        assert(announces_ready(start, events, last));
    }
}

/// No frame is handed to the data link before the link was opened and the client was told that it
/// is ready.
pub proof fn ready_is_announced_before_any_frame(
    config: LatencyTestConfig,
    params: LinkParams,
    events: Seq<ServerEvent>,
    i: int,
)
    requires
        0 <= i < events.len(),
        is_frame_action(server_action_at(fresh_server(config, params), events, i)),
    ensures
        exists|k: int| 0 <= k < i && announces_ready(fresh_server(config, params), events, k),
{
    let start = fresh_server(config, params);
    let before = events.take(i);
    lemma_ready(start, before);
    let k = choose|k: int| 0 <= k < before.len() && announces_ready(start, before, k);
    assert(before.take(k) =~= events.take(k));
    assert(before[k] == events[k]);
    assert(announces_ready(start, events, k));
}

/// Packets are answered exactly as long as the test is to go on and its time is not up.
pub proof fn packets_are_answered_until_time_is_up(s: ServerView, running: bool, now_ns: u64)
    requires
        s.phase is Polling,
    ensures
        ({
            let next = server_step(s, ServerEvent::Polled { running, now_ns }).0.phase;
            if running && time_since(s.start_ns, now_ns) < test_duration_ns(s.config) {
                next is ReceivingSensor
            } else {
                next is StoppingReceiver
            }
        }),
{
}

/// A run that failed stays failed, and the flag that says that a test is running is lowered only
/// by a run that was wound down to the end.
pub proof fn only_a_run_that_was_wound_down_lowers_the_flag(s: ServerView, event: ServerEvent)
    ensures
        s.phase is Failed ==> server_step(s, event) == (s, ServerAction::Fail),
        server_step(s, event).1 is ClearRunning ==> s.phase is DrainClock || s.phase is Draining
            || s.phase is Flushing,
        s.phase is ClearingRunning && event is Done ==> server_step(s, event).1 is Finish,
{
}

/// Waiting for the last reports ends when its time is up, whatever the client does.
pub proof fn draining_ends_at_the_deadline(s: ServerView, now_ns: u64)
    requires
        s.phase is DrainClock,
    ensures
        server_step(s, ServerEvent::Clock(now_ns)).1 is ReceiveControl <==> now_ns
            < s.drain_deadline_ns,
{
}

/// The first reading of the clock in a row of events.
pub open spec fn first_reading(events: Seq<ServerEvent>) -> Option<u64>
    decreases events.len(),
{
    if events.len() == 0 {
        None
    } else if first_reading(events.drop_last()) is Some {
        first_reading(events.drop_last())
    } else {
        match events.last() {
            ServerEvent::Clock(now_ns) => Some(now_ns),
            _ => None,
        }
    }
}

/// The reading of the clock after the last look for control messages, or before the first one.
pub open spec fn last_look(start: ServerView, events: Seq<ServerEvent>) -> Option<u64>
    decreases events.len(),
{
    if events.len() == 0 {
        None
    } else {
        let phase = server_after(start, events.drop_last()).phase;
        match events.last() {
            ServerEvent::Clock(now_ns) if phase is ReadingFirstCheck || phase is ClosingCheck
                => Some(now_ns),
            _ => last_look(start, events.drop_last()),
        }
    }
}

/// The reading of the clock after the client was told to stop.
pub open spec fn stop_reading(start: ServerView, events: Seq<ServerEvent>) -> Option<u64>
    decreases events.len(),
{
    if events.len() == 0 {
        None
    } else {
        let phase = server_after(start, events.drop_last()).phase;
        match events.last() {
            ServerEvent::Clock(now_ns) if phase is ReadingDeadline => Some(now_ns),
            _ => stop_reading(start, events.drop_last()),
        }
    }
}

/// Whether a phase is one in which the client's last reports are waited for.
pub open spec fn is_draining(phase: ServerPhase) -> bool {
    phase is SettingTimeout || phase is DrainClock || phase is Draining || phase is DrainWriting
}

proof fn lemma_readings(config: LatencyTestConfig, params: LinkParams, events: Seq<ServerEvent>)
    ensures
        ({
            let start = fresh_server(config, params);
            let s = server_after(start, events);
            &&& stage(s.phase) == 0 && !(s.phase is ReadingFirstCheck) ==> first_reading(events)
                is None
            &&& s.phase is ReadingFirstCheck || stage(s.phase) == 1 ==> first_reading(events)
                == Some(s.start_ns)
            &&& stage(s.phase) == 1 ==> last_look(start, events) == Some(s.last_check_ns)
            &&& is_draining(s.phase) ==> {
                &&& stop_reading(start, events) is Some
                &&& s.drain_deadline_ns == stop_reading(start, events)->0 + 3_000_000_000
            }
        }),
    decreases events.len(),
{
    if events.len() > 0 {
        lemma_readings(config, params, events.drop_last());
    }
}

/// Every frame of a test has the size that was asked for, 1024 bytes to the kilobyte, whatever
/// happened before it; and with its header it fills exactly the shards that are counted for it.
pub proof fn frames_have_the_size_that_was_asked_for(
    config: LatencyTestConfig,
    params: LinkParams,
    events: Seq<ServerEvent>,
    event: ServerEvent,
)
    requires
        can_run(config, params),
    ensures
        ({
            let s = server_after(fresh_server(config, params), events);
            let count = s.expected_shards_count;
            let max_shard = params.max_shard_data_size;
            server_step(s, event).1 matches ServerAction::SendFrame { payload_len } ==> {
                &&& payload_len == config.frame_size_kb * 1024
                &&& count >= 1
                &&& count * max_shard >= 32 + payload_len
                &&& count > 1 ==> (count - 1) * max_shard < 32 + payload_len
            }
        }),
{
    a_run_keeps_its_shards_as_expected(fresh_server(config, params), events);
    shards_are_as_many_as_header_and_payload_fill(
        config.frame_size_kb,
        params.max_shard_data_size as int,
    );
}

/// Tests of different frame sizes never send frames of the same size.
pub proof fn tests_of_other_sizes_send_other_frames(
    config: LatencyTestConfig,
    events: Seq<ServerEvent>,
    event: ServerEvent,
    other_config: LatencyTestConfig,
    other_events: Seq<ServerEvent>,
    other_event: ServerEvent,
    params: LinkParams,
    payload_len: u64,
)
    requires
        server_step(server_after(fresh_server(config, params), events), event).1 == (
        ServerAction::SendFrame { payload_len }),
        server_step(
            server_after(fresh_server(other_config, params), other_events),
            other_event,
        ).1 == (ServerAction::SendFrame { payload_len }),
    ensures
        config.frame_size_kb == other_config.frame_size_kb,
{
    a_run_keeps_its_shards_as_expected(fresh_server(config, params), events);
    a_run_keeps_its_shards_as_expected(fresh_server(other_config, params), other_events);
}

/// Packets are answered for the duration that was asked for and half a second, from the first
/// reading of the clock on, as long as the test is to go on: a look at the flag and at the clock
/// leads to a wait of ten milliseconds for a packet within that time, and to the winding down after
/// it.
pub proof fn packets_are_answered_for_the_duration_and_half_a_second(
    config: LatencyTestConfig,
    params: LinkParams,
    events: Seq<ServerEvent>,
    running: bool,
    now_ns: u64,
)
    ensures
        ({
            let s = server_after(fresh_server(config, params), events);
            let action = server_step(s, ServerEvent::Polled { running, now_ns }).1;
            s.phase is Polling ==> {
                let end = first_reading(events)->0 + config.duration_secs * 1_000_000_000
                    + 500_000_000;
                &&& first_reading(events) is Some
                &&& running && now_ns < end ==> action == ServerAction::ReceiveSensor(10)
                &&& !running || now_ns >= end ==> action == ServerAction::StopReceiver
            }
        }),
{
    lemma_readings(config, params, events);
    a_run_keeps_its_shards_as_expected(fresh_server(config, params), events);
}

/// Control messages are looked for when the last look is 50 milliseconds ago or longer, and not
/// before.
pub proof fn control_messages_are_looked_for_every_fifty_milliseconds(
    config: LatencyTestConfig,
    params: LinkParams,
    events: Seq<ServerEvent>,
    now_ns: u64,
)
    ensures
        ({
            let start = fresh_server(config, params);
            let s = server_after(start, events);
            let action = server_step(s, ServerEvent::Clock(now_ns)).1;
            s.phase is CheckingClock ==> {
                let due = last_look(start, events)->0 + 50_000_000;
                &&& last_look(start, events) is Some
                &&& now_ns >= due ==> action == ServerAction::PollControl
                &&& now_ns < due ==> action == ServerAction::Poll
            }
        }),
{
    lemma_readings(config, params, events);
}

/// The client's last reports are waited for until three seconds after the reading of the clock that
/// followed the word to stop, and no longer: whatever came in between, a look at the clock before
/// that time leads to waiting for a message, and one from that time on ends the waiting.
pub proof fn the_last_reports_are_waited_for_three_seconds(
    config: LatencyTestConfig,
    params: LinkParams,
    events: Seq<ServerEvent>,
    now_ns: u64,
)
    ensures
        ({
            let start = fresh_server(config, params);
            let s = server_after(start, events);
            let action = server_step(s, ServerEvent::Clock(now_ns)).1;
            s.phase is DrainClock ==> {
                let end = stop_reading(start, events)->0 + 3_000_000_000;
                &&& stop_reading(start, events) is Some
                &&& now_ns < end ==> action == ServerAction::ReceiveControl
                &&& now_ns >= end && s.csv ==> action == ServerAction::FlushCsv
                &&& now_ns >= end && !s.csv ==> action == ServerAction::ClearRunning
            }
        }),
{
    lemma_readings(config, params, events);
}

/// Whatever comes while the last reports are waited for, the run looks at the clock again and goes
/// on, unless it is the word that the test is complete or an error that is no timeout; a report is
/// written down before that if there is a file.
pub proof fn waiting_for_reports_goes_on_unless_it_is_over(
    s: ServerView,
    message: Result<LatencyTestControlMessage, RecvError>,
)
    requires
        s.phase is Draining,
    ensures
        ({
            let (next, action) = server_step(s, ServerEvent::Message(message));
            let over = message == Ok::<LatencyTestControlMessage, RecvError>(
                LatencyTestControlMessage::TestComplete,
            ) || message == Err::<LatencyTestControlMessage, RecvError>(RecvError::Other);
            &&& over ==> action == (if s.csv {
                ServerAction::FlushCsv
            } else {
                ServerAction::ClearRunning
            })
            &&& !over && message is Ok && message->Ok_0 is FrameReport && s.csv ==> {
                &&& action is WriteRow
                &&& action->report == message->Ok_0->FrameReport_0
                &&& server_step(next, ServerEvent::Done(true)).0.phase is DrainClock
                &&& server_step(next, ServerEvent::Done(false)).0.phase is DrainClock
            }
            &&& !over && !(message is Ok && message->Ok_0 is FrameReport && s.csv) ==> action
                == ServerAction::ReadClock && next.phase is DrainClock
        }),
{
}

/// Whatever a look for control messages finds, the next look follows at once, unless there is no
/// further message or the test is complete; a report is written down before that if there is a file.
pub proof fn looking_goes_on_while_there_are_messages(
    s: ServerView,
    message: Option<LatencyTestControlMessage>,
)
    requires
        s.phase is PollingControl,
    ensures
        ({
            let (next, action) = server_step(s, ServerEvent::Control(message));
            let reported = message is Some && message->0 is FrameReport && s.csv;
            &&& message is None ==> action == ServerAction::ReadClock && next.phase is ClosingCheck
            &&& message == Some(LatencyTestControlMessage::TestComplete) ==> action
                == ServerAction::StopReceiver
            &&& reported ==> {
                &&& action is WriteRow
                &&& action->report == message->0->FrameReport_0
                &&& server_step(next, ServerEvent::Done(true)).1 == ServerAction::PollControl
                &&& server_step(next, ServerEvent::Done(false)).1 == ServerAction::PollControl
            }
            &&& message is Some && !reported && !(message->0 is TestComplete) ==> action
                == ServerAction::PollControl && next.phase is PollingControl
        }),
{
}

/// A packet is answered with a frame of its own index and stamp; the times of receiving and
/// answering it are counted from the first reading of the clock; and once the frame is sent it is
/// outstanding under that index, with as many shards as header and payload fill, while the other
/// frames stay as they were.
pub proof fn an_answered_packet_is_stamped_and_outstanding(
    config: LatencyTestConfig,
    params: LinkParams,
    events: Seq<ServerEvent>,
    packet: LatencyTestSensorPacket,
    received_ns: u64,
    answered_ns: u64,
)
    requires
        can_run(config, params),
        server_after(fresh_server(config, params), events).phase is ReceivingSensor,
    ensures
        ({
            let s = server_after(fresh_server(config, params), events);
            let began_ns = first_reading(events)->0;
            let max_shard = params.max_shard_data_size;
            let s1 = server_step(s, ServerEvent::Sensor(SensorOutcome::Packet(packet))).0;
            let s2 = server_step(s1, ServerEvent::Clock(received_ns)).0;
            let (s3, action) = server_step(s2, ServerEvent::Clock(answered_ns));
            let s4 = server_step(s3, ServerEvent::Done(true)).0;
            let s5 = server_step(s4, ServerEvent::Done(true)).0;
            let header = action->AllocateFrame_0;
            let shards = s5.frames_sent[packet.frame_index];
            &&& first_reading(events) is Some
            &&& action is AllocateFrame
            &&& server_step(s3, ServerEvent::Done(true)).1 is SendFrame
            &&& server_step(s4, ServerEvent::Done(true)).1 is ReadClock
            &&& s5.phase is CheckingClock
            &&& header.frame_index == packet.frame_index
            &&& header.client_send_timestamp_ns == packet.client_send_timestamp_ns
            &&& began_ns <= received_ns ==> header.server_recv_timestamp_ns == received_ns
                - began_ns
            &&& began_ns > received_ns ==> header.server_recv_timestamp_ns == 0
            &&& began_ns <= answered_ns ==> header.server_send_timestamp_ns == answered_ns
                - began_ns
            &&& began_ns > answered_ns ==> header.server_send_timestamp_ns == 0
            &&& s5.frames_sent.contains_key(packet.frame_index)
            &&& shards >= 1
            &&& shards * max_shard >= 32 + config.frame_size_kb * 1024
            &&& shards > 1 ==> (shards - 1) * max_shard < 32 + config.frame_size_kb * 1024
            &&& s5.frames_sent.remove(packet.frame_index) == s.frames_sent.remove(
                packet.frame_index,
            )
        }),
{
    let s = server_after(fresh_server(config, params), events);
    lemma_readings(config, params, events);
    a_run_keeps_its_shards_as_expected(fresh_server(config, params), events);
    shards_are_as_many_as_header_and_payload_fill(
        config.frame_size_kb,
        params.max_shard_data_size as int,
    );
    assert(s.frames_sent.insert(packet.frame_index, s.expected_shards_count).remove(
        packet.frame_index,
    ) =~= s.frames_sent.remove(packet.frame_index));
}

/// Whatever happens before it, an action carries what the run was begun with: the configuration, the
/// ports, the streams and the sizes; an address is the one that was read; and a line credits a frame
/// that is outstanding with as many shards as header and payload fill, and any other with none.
pub proof fn actions_carry_what_the_run_was_begun_with(
    config: LatencyTestConfig,
    params: LinkParams,
    events: Seq<ServerEvent>,
    event: ServerEvent,
)
    requires
        can_run(config, params),
    ensures
        ({
            let s = server_after(fresh_server(config, params), events);
            let max_shard = params.max_shard_data_size;
            match server_step(s, event).1 {
                ServerAction::SendControl(message) => {
                    ||| message == LatencyTestControlMessage::StartTest(config)
                    ||| message is DataReady
                    ||| message is StopTest
                },
                ServerAction::ParseAddress(text) => text == config.client_ip,
                ServerAction::ConnectData { ip, data_port, max_packet_size, recv_timeout_ms } => {
                    &&& event == ServerEvent::Address(Some(ip))
                    &&& data_port == params.data_port
                    &&& max_packet_size == params.max_packet_size
                    &&& recv_timeout_ms == 10
                },
                ServerAction::OpenStreams { frame_stream_id, sensor_stream_id, max_unread } => {
                    &&& frame_stream_id == params.frame_stream_id
                    &&& sensor_stream_id == params.sensor_stream_id
                    &&& max_unread == 256
                },
                ServerAction::ReceiveSensor(ms) => ms == 10,
                ServerAction::SetReadTimeout(ms) => ms == 100,
                ServerAction::WriteRow { report, server_shards_sent: count } => {
                    &&& s.frames_sent.contains_key(report.frame_index) ==> {
                        &&& count >= 1
                        &&& count * max_shard >= 32 + config.frame_size_kb * 1024
                        &&& count > 1 ==> (count - 1) * max_shard < 32 + config.frame_size_kb
                            * 1024
                    }
                    &&& !s.frames_sent.contains_key(report.frame_index) ==> count == 0
                },
                _ => true,
            }
        }),
{
    a_run_keeps_its_shards_as_expected(fresh_server(config, params), events);
    shards_are_as_many_as_header_and_payload_fill(
        config.frame_size_kb,
        params.max_shard_data_size as int,
    );
}

/// An action that fails ends the run where the run cannot go on without it: sending a control
/// message and opening the data link. A frame that cannot be allocated or sent leads to the winding
/// down. A results file that cannot be created is done without. Anywhere else a failure makes no
/// difference.
pub proof fn some_failures_end_the_run(s: ServerView)
    ensures
        ({
            let failed = server_step(s, ServerEvent::Done(false));
            let worked = server_step(s, ServerEvent::Done(true));
            let fatal = s.phase is SendingStart || s.phase is Connecting || s.phase is SendingReady
                || s.phase is SendingStop;
            let to_wind_down = s.phase is Allocating || s.phase is SendingFrame;
            &&& fatal ==> failed.1 == ServerAction::Fail && failed.0.phase is Failed
            &&& to_wind_down ==> failed.1 == ServerAction::StopReceiver
                && failed.0.phase is StoppingReceiver
            &&& s.phase is CreatingCsv ==> {
                &&& failed.1 == worked.1
                &&& failed.0.phase == worked.0.phase
                &&& !failed.0.csv
                &&& worked.0.csv
            }
            &&& !fatal && !to_wind_down && !(s.phase is CreatingCsv) ==> failed == worked
        }),
{
}

/// What is received in place of the acknowledgement does not matter, but nothing at all does; and
/// without an address there is no link.
pub proof fn the_client_has_to_answer_and_to_have_an_address(
    s: ServerView,
    message: Result<LatencyTestControlMessage, RecvError>,
    address: Option<IpAddress>,
)
    ensures
        s.phase is AwaitingAck ==> (server_step(s, ServerEvent::Message(message)).1
            == ServerAction::ParseAddress(s.config.client_ip) <==> message is Ok),
        s.phase is AwaitingAck && message is Err ==> server_step(
            s,
            ServerEvent::Message(message),
        ).1 == ServerAction::Fail,
        s.phase is ParsingAddress && address is None ==> server_step(
            s,
            ServerEvent::Address(address),
        ).1 == ServerAction::Fail,
        s.phase is ParsingAddress && address is Some ==> server_step(
            s,
            ServerEvent::Address(address),
        ).1 is ConnectData,
{
}

/// What comes on the sensor stream decides what is done: a packet is stamped, one that cannot be
/// decoded is passed over, a wait in which nothing came leads to the check of the clock, and a
/// stream that failed to the winding down.
pub proof fn the_sensor_stream_decides(s: ServerView, outcome: SensorOutcome)
    requires
        s.phase is ReceivingSensor,
    ensures
        ({
            let (next, action) = server_step(s, ServerEvent::Sensor(outcome));
            &&& outcome is Packet ==> action == ServerAction::ReadClock && next.sensor
                == outcome->Packet_0
            &&& outcome is Undecodable ==> action == ServerAction::Poll
            &&& outcome is TryAgain ==> action == ServerAction::ReadClock
                && next.phase is CheckingClock
            &&& outcome is Failed ==> action == ServerAction::StopReceiver
            &&& next.frames_sent == s.frames_sent
        }),
{
}

/// Where everything works, a run tells the client to start, hears from it, opens the link, says that
/// it is ready, and makes its file, its streams and its loop before it looks at the clock and at the
/// flag.
pub proof fn a_run_is_set_up_in_order(
    s: ServerView,
    answer: LatencyTestControlMessage,
    ip: IpAddress,
    start_ns: u64,
    check_ns: u64,
)
    requires
        s.phase is Starting,
    ensures
        ({
            let s1 = server_step(s, ServerEvent::Begin);
            let s2 = server_step(s1.0, ServerEvent::Done(true));
            let s3 = server_step(s2.0, ServerEvent::Message(Ok(answer)));
            let s4 = server_step(s3.0, ServerEvent::Address(Some(ip)));
            let s5 = server_step(s4.0, ServerEvent::Done(true));
            let s6 = server_step(s5.0, ServerEvent::Done(true));
            let s7 = server_step(s6.0, ServerEvent::Done(true));
            let s8 = server_step(s7.0, ServerEvent::Done(true));
            let s9 = server_step(s8.0, ServerEvent::Done(true));
            let s10 = server_step(s9.0, ServerEvent::Clock(start_ns));
            let s11 = server_step(s10.0, ServerEvent::Clock(check_ns));
            &&& s1.1 == ServerAction::SendControl(LatencyTestControlMessage::StartTest(s.config))
            &&& s2.1 is ReceiveControl
            &&& s3.1 is ParseAddress
            &&& s4.1 is ConnectData
            &&& s5.1 == ServerAction::SendControl(LatencyTestControlMessage::DataReady)
            &&& s6.1 is CreateCsv
            &&& s7.1 is OpenStreams
            &&& s8.1 is SpawnReceiver
            &&& s9.1 is ReadClock
            &&& s10.1 is ReadClock
            &&& s11.1 is Poll
            &&& s11.0.phase is Polling
            &&& s11.0.csv
        }),
{
}

/// In the winding down the loop that reads the link is ended and waited for, the client is told to
/// stop, and its last reports are waited for; after that the file is flushed if there is one, and
/// the flag is lowered.
pub proof fn a_run_is_wound_down_in_order(s: ServerView, now_ns: u64)
    ensures
        s.phase is StoppingReceiver ==> ({
            let s1 = server_step(s, ServerEvent::Done(true));
            let s2 = server_step(s1.0, ServerEvent::Done(true));
            let s3 = server_step(s2.0, ServerEvent::Done(true));
            let s4 = server_step(s3.0, ServerEvent::Clock(now_ns));
            let s5 = server_step(s4.0, ServerEvent::Done(true));
            &&& s1.1 is JoinReceiver
            &&& s2.1 == ServerAction::SendControl(LatencyTestControlMessage::StopTest)
            &&& s3.1 is ReadClock
            &&& s4.1 == ServerAction::SetReadTimeout(100)
            &&& s5.1 is ReadClock
            &&& s5.0.phase is DrainClock
        }),
        s.phase is Flushing ==> server_step(s, ServerEvent::Done(true)).1 is ClearRunning,
        s.phase is ClearingRunning ==> server_step(s, ServerEvent::Done(true)).1 is Finish,
        s.phase is Finished ==> server_step(s, ServerEvent::Clock(now_ns)) == (
            s,
            ServerAction::Finish,
        ),
{
}

} // verus!
