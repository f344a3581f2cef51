//! One latency test on the client: the data link is set up, the server says that its end is ready,
//! one sensor packet is sent per frame at the requested rate, and everything is wound down.

use vstd::prelude::*;
use crate::client::calculate_expected_shards_count;
use crate::packets::{
    IpAddress, LatencyTestConfig, LatencyTestControlMessage, LatencyTestSensorPacket, LinkParams,
};
use crate::shards::{
    can_be_cut, header_wire_len, shard_count, shards_are_as_many_as_header_and_payload_fill,
};

verus! {

/// How long the server may take to open the data link.
pub const CONNECT_TIMEOUT_MS: u64 = 5000;

/// How long one read on the data link lasts.
pub const DATA_RECV_TIMEOUT_MS: u64 = 10;

/// How long frames are still waited for after the last packet.
pub const DRAIN_GRACE_PERIOD_MS: u64 = 500;

/// Pause between two turns of the sending loop.
pub const SEND_PAUSE_MS: u64 = 1;

/// How many frames may wait unread on a stream.
pub const MAX_UNREAD_FRAMES: usize = 256;

/// What the run is waiting to hear about.
#[derive(Clone, Copy, Debug, PartialEq, Eq)]
pub enum ClientPhase {
    Starting,
    Listening,
    Accepting,
    OpeningStreams,
    AwaitingReady,
    StartingReceiver,
    StartingProcessor,
    CloningStream,
    StartingReporter,
    ReadingClock,
    Polling,
    Stamping,
    SendingPacket,
    Publishing,
    Resting,
    Grace,
    StoppingReceiver,
    JoiningReceiver,
    JoiningProcessor,
    JoiningReporter,
    Finished,
    Failed,
}

/// How an action of the run ended.
#[derive(Debug, PartialEq, Eq)]
pub enum ClientEvent {
    /// The run begins.
    Begin,
    /// The action was carried out, and whether that worked.
    Done(bool),
    /// The control message that was waited for, or nothing where receiving failed.
    Message(Option<LatencyTestControlMessage>),
    /// Nanoseconds since the test began.
    Clock(u64),
    /// Whether the listener is running, whether the test is to stop, and the time.
    Polled { running: bool, stop: bool, now_ns: u64 },
}

/// What the run does.
#[derive(Clone, Copy, Debug, PartialEq, Eq)]
pub enum ClientAction {
    /// Listen for the server on this UDP port.
    Listen { data_port: u16, recv_timeout_ms: u64 },
    /// Accept the data link from the server.
    Accept { server_ip: IpAddress, data_port: u16, max_packet_size: usize, timeout_ms: u64 },
    /// Open the sensor stream for sending and the frame stream for receiving.
    OpenStreams { sensor_stream_id: u16, frame_stream_id: u16, max_unread: usize },
    /// Wait for a control message.
    ReceiveControl,
    /// Start the loop that reads the data link.
    SpawnReceiver,
    /// Start the test's clock, and the loop that turns frames into reports.
    SpawnProcessor { expected_shards_count: u32 },
    /// Clone the control connection for the reports.
    CloneStream,
    /// Start the loop that forwards reports.
    SpawnReporter,
    /// Read the test's clock.
    ReadClock,
    /// Look at the flags and at the clock.
    Poll,
    /// Send a sensor packet.
    SendPacket(LatencyTestSensorPacket),
    /// Let the report loop know how many frames have been asked for.
    PublishSentCount(u64),
    /// Sleep this many milliseconds.
    Sleep(u64),
    /// Tell the loop that reads the data link to end.
    StopReceiver,
    JoinReceiver,
    JoinProcessor,
    JoinReporter,
    /// The test is over.
    Finish,
    /// The test is over with the error of the action that failed.
    Fail,
}

/// State of a run.
#[derive(Clone, Copy, Debug, PartialEq, Eq)]
pub struct ClientRun {
    pub phase: ClientPhase,
    pub params: LinkParams,
    pub server_ip: IpAddress,
    pub expected_shards_count: u32,
    /// How many frames are asked for in all.
    pub total_frames: u64,
    pub frame_interval_ns: u64,
    /// When the first packet is due.
    pub first_frame_time_ns: u64,
    /// When the next packet is due.
    pub next_frame_time_ns: u128,
    /// The next frame to ask for, and so the number of frames asked for.
    pub current_frame_index: u64,
}

impl ClientRun {
    /// The next packet is due a whole number of intervals after the first one, and no more frames
    /// are asked for than the test has.
    pub open spec fn wf(self) -> bool {
        &&& self.current_frame_index <= self.total_frames
        &&& self.phase is Stamping || self.phase is SendingPacket ==> self.current_frame_index
            < self.total_frames
        &&& self.next_frame_time_ns == self.first_frame_time_ns + self.current_frame_index
            * self.frame_interval_ns
        &&& !past_clock(self.phase) ==> self.current_frame_index == 0
    }

    /// A run that has not begun. A rate of no frames has no interval between them.
    pub fn new(
        config: &LatencyTestConfig,
        params: LinkParams,
        server_ip: IpAddress,
        frame_interval_ns: u64,
    ) -> (run: Self)
        requires
            config.frame_rate_hz > 0,
            can_be_cut(
                config.frame_size_kb,
                params.max_shard_data_size as int,
                header_wire_len(),
            ),
        ensures
            run == fresh_run(*config, params, server_ip, frame_interval_ns),
            run.wf(),
            run.total_frames == config.frame_rate_hz * config.duration_secs,
            run.params == params,
            run.server_ip == server_ip,
            run.frame_interval_ns == frame_interval_ns,
            run.current_frame_index == 0,
    {
        let expected_shards_count: u32 = calculate_expected_shards_count(
            config.frame_size_kb,
            params.max_shard_data_size,
        );
        assert(config.frame_rate_hz as int * config.duration_secs as int <= u64::MAX)
            by (nonlinear_arith)
            requires
                config.frame_rate_hz <= u32::MAX,
                config.duration_secs <= u32::MAX,
        ;
        ClientRun {
            phase: ClientPhase::Starting,
            params,
            server_ip,
            expected_shards_count,
            total_frames: config.frame_rate_hz as u64 * config.duration_secs as u64,
            frame_interval_ns,
            first_frame_time_ns: 0,
            next_frame_time_ns: 0,
            current_frame_index: 0,
        }
    }
}

/// The state in which a run begins: as many frames as the rate gives over the duration.
pub open spec fn fresh_run(
    config: LatencyTestConfig,
    params: LinkParams,
    server_ip: IpAddress,
    frame_interval_ns: u64,
) -> ClientRun {
    ClientRun {
        phase: ClientPhase::Starting,
        params,
        server_ip,
        expected_shards_count: shard_count(
            config.frame_size_kb,
            params.max_shard_data_size as int,
            header_wire_len(),
        ) as u32,
        total_frames: (config.frame_rate_hz * config.duration_secs) as u64,
        frame_interval_ns,
        first_frame_time_ns: 0,
        next_frame_time_ns: 0,
        current_frame_index: 0,
    }
}

/// Whether the time of the first packet has been fixed.
pub open spec fn past_clock(phase: ClientPhase) -> bool {
    match phase {
        ClientPhase::Starting
        | ClientPhase::Listening
        | ClientPhase::Accepting
        | ClientPhase::OpeningStreams
        | ClientPhase::AwaitingReady
        | ClientPhase::StartingReceiver
        | ClientPhase::StartingProcessor
        | ClientPhase::CloningStream
        | ClientPhase::StartingReporter
        | ClientPhase::ReadingClock => false,
        _ => true,
    }
}

/// Whether another packet is to be sent, now or later.
pub open spec fn goes_on(s: ClientRun, running: bool, stop: bool) -> bool {
    running && s.current_frame_index < s.total_frames && !stop
}

/// A state with another phase.
pub open spec fn with_phase(s: ClientRun, phase: ClientPhase) -> ClientRun {
    ClientRun { phase, ..s }
}

/// The next state and action. An action that fails where that matters ends the run with an error,
/// and so does an event that does not belong to the phase. Once the streams are open the server has
/// to say that its end of the link is ready; a wait for that which fails, and any other message,
/// end the run with an error, before anything is started.
pub open spec fn client_step(s: ClientRun, event: ClientEvent) -> (ClientRun, ClientAction) {
    match (s.phase, event) {
        (ClientPhase::Starting, ClientEvent::Begin) => (
            with_phase(s, ClientPhase::Listening),
            ClientAction::Listen {
                data_port: s.params.data_port,
                recv_timeout_ms: DATA_RECV_TIMEOUT_MS,
            },
        ),
        (ClientPhase::Listening, ClientEvent::Done(true)) => (
            with_phase(s, ClientPhase::Accepting),
            ClientAction::Accept {
                server_ip: s.server_ip,
                data_port: s.params.data_port,
                max_packet_size: s.params.max_packet_size,
                timeout_ms: CONNECT_TIMEOUT_MS,
            },
        ),
        (ClientPhase::Accepting, ClientEvent::Done(true)) => (
            with_phase(s, ClientPhase::OpeningStreams),
            ClientAction::OpenStreams {
                sensor_stream_id: s.params.sensor_stream_id,
                frame_stream_id: s.params.frame_stream_id,
                max_unread: MAX_UNREAD_FRAMES,
            },
        ),
        (ClientPhase::OpeningStreams, ClientEvent::Done(_)) => (
            with_phase(s, ClientPhase::AwaitingReady),
            ClientAction::ReceiveControl,
        ),
        (
            ClientPhase::AwaitingReady,
            ClientEvent::Message(Some(LatencyTestControlMessage::DataReady)),
        ) => (with_phase(s, ClientPhase::StartingReceiver), ClientAction::SpawnReceiver),
        (ClientPhase::StartingReceiver, ClientEvent::Done(_)) => (
            with_phase(s, ClientPhase::StartingProcessor),
            ClientAction::SpawnProcessor { expected_shards_count: s.expected_shards_count },
        ),
        (ClientPhase::StartingProcessor, ClientEvent::Done(_)) => (
            with_phase(s, ClientPhase::CloningStream),
            ClientAction::CloneStream,
        ),
        (ClientPhase::CloningStream, ClientEvent::Done(true)) => (
            with_phase(s, ClientPhase::StartingReporter),
            ClientAction::SpawnReporter,
        ),
        (ClientPhase::StartingReporter, ClientEvent::Done(_)) => (
            with_phase(s, ClientPhase::ReadingClock),
            ClientAction::ReadClock,
        ),
        (ClientPhase::ReadingClock, ClientEvent::Clock(now_ns)) => (
            ClientRun {
                phase: ClientPhase::Polling,
                first_frame_time_ns: now_ns,
                next_frame_time_ns: now_ns as u128,
                ..s
            },
            ClientAction::Poll,
        ),
        (ClientPhase::Polling, ClientEvent::Polled { running, stop, now_ns }) => if !goes_on(
            s,
            running,
            stop,
        ) {
            (with_phase(s, ClientPhase::Grace), ClientAction::Sleep(DRAIN_GRACE_PERIOD_MS))
        } else if now_ns >= s.next_frame_time_ns {
            (with_phase(s, ClientPhase::Stamping), ClientAction::ReadClock)
        } else {
            (with_phase(s, ClientPhase::Resting), ClientAction::Sleep(SEND_PAUSE_MS))
        },
        (ClientPhase::Stamping, ClientEvent::Clock(now_ns)) => (
            with_phase(s, ClientPhase::SendingPacket),
            ClientAction::SendPacket(
                LatencyTestSensorPacket {
                    frame_index: s.current_frame_index,
                    client_send_timestamp_ns: now_ns,
                },
            ),
        ),
        (ClientPhase::SendingPacket, ClientEvent::Done(true)) => (
            ClientRun {
                phase: ClientPhase::Publishing,
                current_frame_index: (s.current_frame_index + 1) as u64,
                next_frame_time_ns: (s.next_frame_time_ns + s.frame_interval_ns) as u128,
                ..s
            },
            ClientAction::PublishSentCount((s.current_frame_index + 1) as u64),
        ),
        (ClientPhase::Publishing, ClientEvent::Done(_)) => (
            with_phase(s, ClientPhase::Resting),
            ClientAction::Sleep(SEND_PAUSE_MS),
        ),
        (ClientPhase::Resting, ClientEvent::Done(_)) => (
            with_phase(s, ClientPhase::Polling),
            ClientAction::Poll,
        ),
        (ClientPhase::Grace, ClientEvent::Done(_)) => (
            with_phase(s, ClientPhase::StoppingReceiver),
            ClientAction::StopReceiver,
        ),
        (ClientPhase::StoppingReceiver, ClientEvent::Done(_)) => (
            with_phase(s, ClientPhase::JoiningReceiver),
            ClientAction::JoinReceiver,
        ),
        (ClientPhase::JoiningReceiver, ClientEvent::Done(_)) => (
            with_phase(s, ClientPhase::JoiningProcessor),
            ClientAction::JoinProcessor,
        ),
        (ClientPhase::JoiningProcessor, ClientEvent::Done(_)) => (
            with_phase(s, ClientPhase::JoiningReporter),
            ClientAction::JoinReporter,
        ),
        (ClientPhase::JoiningReporter, ClientEvent::Done(_)) => (
            with_phase(s, ClientPhase::Finished),
            ClientAction::Finish,
        ),
        (ClientPhase::Finished, _) => (s, ClientAction::Finish),
        _ => (with_phase(s, ClientPhase::Failed), ClientAction::Fail),
    }
}

proof fn lemma_next_frame_time(first: u64, index: u64, interval: u64, next: u128)
    requires
        index < u64::MAX,
        next == first + index * interval,
    ensures
        next + interval <= u128::MAX,
        next + interval == first + (index + 1) * interval,
{
    assert(first + (index + 1) * interval <= 0xffff_ffff_ffff_ffff * 0x1_0000_0000_0000_0000)
        by (nonlinear_arith)
        requires
            index < u64::MAX,
            interval <= u64::MAX,
            first <= u64::MAX,
    ;
    assert((index + 1) * interval == index * interval + interval) by (nonlinear_arith);
}

impl ClientRun {
    /// One turn of the run.
    pub fn run_latency_test(&mut self, event: ClientEvent) -> (action: ClientAction)
        requires
            old(self).wf(),
        ensures
            (*final(self), action) == client_step(*old(self), event),
            final(self).wf(),
    {
        match (self.phase, event) {
            (ClientPhase::Starting, ClientEvent::Begin) => {
                self.phase = ClientPhase::Listening;
                ClientAction::Listen {
                    data_port: self.params.data_port,
                    recv_timeout_ms: DATA_RECV_TIMEOUT_MS,
                }
            },
            (ClientPhase::Listening, ClientEvent::Done(true)) => {
                self.phase = ClientPhase::Accepting;
                ClientAction::Accept {
                    server_ip: self.server_ip,
                    data_port: self.params.data_port,
                    max_packet_size: self.params.max_packet_size,
                    timeout_ms: CONNECT_TIMEOUT_MS,
                }
            },
            (ClientPhase::Accepting, ClientEvent::Done(true)) => {
                self.phase = ClientPhase::OpeningStreams;
                ClientAction::OpenStreams {
                    sensor_stream_id: self.params.sensor_stream_id,
                    frame_stream_id: self.params.frame_stream_id,
                    max_unread: MAX_UNREAD_FRAMES,
                }
            },
            (ClientPhase::OpeningStreams, ClientEvent::Done(_)) => {
                self.phase = ClientPhase::AwaitingReady;
                ClientAction::ReceiveControl
            },
            (
                ClientPhase::AwaitingReady,
                ClientEvent::Message(Some(LatencyTestControlMessage::DataReady)),
            ) => {
                self.phase = ClientPhase::StartingReceiver;
                ClientAction::SpawnReceiver
            },
            (ClientPhase::StartingReceiver, ClientEvent::Done(_)) => {
                self.phase = ClientPhase::StartingProcessor;
                ClientAction::SpawnProcessor { expected_shards_count: self.expected_shards_count }
            },
            (ClientPhase::StartingProcessor, ClientEvent::Done(_)) => {
                self.phase = ClientPhase::CloningStream;
                ClientAction::CloneStream
            },
            (ClientPhase::CloningStream, ClientEvent::Done(true)) => {
                self.phase = ClientPhase::StartingReporter;
                ClientAction::SpawnReporter
            },
            (ClientPhase::StartingReporter, ClientEvent::Done(_)) => {
                self.phase = ClientPhase::ReadingClock;
                ClientAction::ReadClock
            },
            (ClientPhase::ReadingClock, ClientEvent::Clock(now_ns)) => {
                self.phase = ClientPhase::Polling;
                self.first_frame_time_ns = now_ns;
                self.next_frame_time_ns = now_ns as u128;
                ClientAction::Poll
            },
            (ClientPhase::Polling, ClientEvent::Polled { running, stop, now_ns }) => {
                if !(running && self.current_frame_index < self.total_frames && !stop) {
                    self.phase = ClientPhase::Grace;
                    ClientAction::Sleep(DRAIN_GRACE_PERIOD_MS)
                } else if now_ns as u128 >= self.next_frame_time_ns {
                    self.phase = ClientPhase::Stamping;
                    ClientAction::ReadClock
                } else {
                    self.phase = ClientPhase::Resting;
                    ClientAction::Sleep(SEND_PAUSE_MS)
                }
            },
            (ClientPhase::Stamping, ClientEvent::Clock(now_ns)) => {
                self.phase = ClientPhase::SendingPacket;
                ClientAction::SendPacket(
                    LatencyTestSensorPacket {
                        frame_index: self.current_frame_index,
                        client_send_timestamp_ns: now_ns,
                    },
                )
            },
            (ClientPhase::SendingPacket, ClientEvent::Done(true)) => {
                proof {
                    lemma_next_frame_time(
                        self.first_frame_time_ns,
                        self.current_frame_index,
                        self.frame_interval_ns,
                        self.next_frame_time_ns,
                    );
                }
                self.phase = ClientPhase::Publishing;
                self.current_frame_index = self.current_frame_index + 1;
                self.next_frame_time_ns = self.next_frame_time_ns + self.frame_interval_ns as u128;
                ClientAction::PublishSentCount(self.current_frame_index)
            },
            (ClientPhase::Publishing, ClientEvent::Done(_)) => {
                self.phase = ClientPhase::Resting;
                ClientAction::Sleep(SEND_PAUSE_MS)
            },
            (ClientPhase::Resting, ClientEvent::Done(_)) => {
                self.phase = ClientPhase::Polling;
                ClientAction::Poll
            },
            (ClientPhase::Grace, ClientEvent::Done(_)) => {
                self.phase = ClientPhase::StoppingReceiver;
                ClientAction::StopReceiver
            },
            (ClientPhase::StoppingReceiver, ClientEvent::Done(_)) => {
                self.phase = ClientPhase::JoiningReceiver;
                ClientAction::JoinReceiver
            },
            (ClientPhase::JoiningReceiver, ClientEvent::Done(_)) => {
                self.phase = ClientPhase::JoiningProcessor;
                ClientAction::JoinProcessor
            },
            (ClientPhase::JoiningProcessor, ClientEvent::Done(_)) => {
                self.phase = ClientPhase::JoiningReporter;
                ClientAction::JoinReporter
            },
            (ClientPhase::JoiningReporter, ClientEvent::Done(_)) => {
                self.phase = ClientPhase::Finished;
                ClientAction::Finish
            },
            (ClientPhase::Finished, _) => ClientAction::Finish,
            _ => {
                self.phase = ClientPhase::Failed;
                ClientAction::Fail
            },
        }
    }
}

/// The state after a row of events.
pub open spec fn run_after(start: ClientRun, events: Seq<ClientEvent>) -> ClientRun
    decreases events.len(),
{
    if events.len() == 0 {
        start
    } else {
        client_step(run_after(start, events.drop_last()), events.last()).0
    }
}

/// The packets that were sent over a row of events, in order.
pub open spec fn packets_after(start: ClientRun, events: Seq<ClientEvent>) -> Seq<
    LatencyTestSensorPacket,
>
    decreases events.len(),
{
    if events.len() == 0 {
        Seq::empty()
    } else {
        let before = packets_after(start, events.drop_last());
        match client_step(run_after(start, events.drop_last()), events.last()).1 {
            ClientAction::SendPacket(packet) => before.push(packet),
            _ => before,
        }
    }
}

proof fn lemma_step_keeps_wf(s: ClientRun, event: ClientEvent)
    requires
        s.wf(),
    ensures
        client_step(s, event).0.wf(),
{
    if s.phase is SendingPacket && event == ClientEvent::Done(true) {
        lemma_next_frame_time(
            s.first_frame_time_ns,
            s.current_frame_index,
            s.frame_interval_ns,
            s.next_frame_time_ns,
        );
    }
    if s.phase is ReadingClock {
        assert(s.current_frame_index * s.frame_interval_ns == 0) by (nonlinear_arith)
            requires
                s.current_frame_index == 0,
        ;
    }
}

/// The frames are asked for one after the other, beginning with frame 0, and never more of them
/// than the rate gives over the duration.
pub proof fn packets_are_numbered_from_zero(start: ClientRun, events: Seq<ClientEvent>)
    requires
        start.wf(),
        start.phase is Starting,
    ensures
        run_after(start, events).wf(),
        packets_after(start, events).len() <= start.total_frames,
        forall|i: int|
            0 <= i < packets_after(start, events).len() ==> (#[trigger] packets_after(
                start,
                events,
            )[i]).frame_index == i,
{
    lemma_packets(start, events);
}

proof fn lemma_packets(start: ClientRun, events: Seq<ClientEvent>)
    requires
        start.wf(),
        start.phase is Starting,
    ensures
        ({
            let s = run_after(start, events);
            let packets = packets_after(start, events);
            &&& s.wf()
            &&& s.total_frames == start.total_frames
            &&& !(s.phase is Failed) ==> packets.len() == s.current_frame_index + (
            if s.phase is SendingPacket {
                1int
            } else {
                0int
            })
            &&& packets.len() <= start.total_frames
            &&& forall|i: int|
                0 <= i < packets.len() ==> (#[trigger] packets[i]).frame_index == i
        }),
    decreases events.len(),
{
    if events.len() > 0 {
        let before = events.drop_last();
        lemma_packets(start, before);
        lemma_step_keeps_wf(run_after(start, before), events.last());
    }
}

/// Whether the server has said that its end of the link is ready, in a run that goes on.
pub open spec fn past_ready(phase: ClientPhase) -> bool {
    match phase {
        ClientPhase::Starting
        | ClientPhase::Listening
        | ClientPhase::Accepting
        | ClientPhase::OpeningStreams
        | ClientPhase::AwaitingReady
        | ClientPhase::Failed => false,
        _ => true,
    }
}

/// Whether the `k`-th event of a row is the server's word that its end of the link is ready, and
/// came when it was waited for.
pub open spec fn becomes_ready(start: ClientRun, events: Seq<ClientEvent>, k: int) -> bool {
    &&& run_after(start, events.take(k)).phase is AwaitingReady
    &&& events[k] == ClientEvent::Message(Some(LatencyTestControlMessage::DataReady))
}

proof fn lemma_past_ready(start: ClientRun, events: Seq<ClientEvent>)
    requires
        start.phase is Starting,
        past_ready(run_after(start, events).phase),
    ensures
        exists|k: int| 0 <= k < events.len() && becomes_ready(start, events, k),
    decreases events.len(),
{
    let before = events.drop_last();
    let last = events.len() - 1;
    assert(events.take(last) =~= before);
    if past_ready(run_after(start, before).phase) {
        lemma_past_ready(start, before);
        let k = choose|k: int| 0 <= k < before.len() && becomes_ready(start, before, k);
        assert(before.take(k) =~= events.take(k));
        assert(becomes_ready(start, events, k));
    } else {
        assert(becomes_ready(start, events, last));
    }
}

/// No packet is sent before the server has said that its end of the link is ready: where any packet
/// was sent, that message came, and no packet had been sent by then.
pub proof fn no_packet_is_sent_before_the_link_is_ready(start: ClientRun, events: Seq<ClientEvent>)
    requires
        start.wf(),
        start.phase is Starting,
        packets_after(start, events).len() > 0,
    ensures
        exists|k: int|
            0 <= k < events.len() && #[trigger] events[k] == ClientEvent::Message(
                Some(LatencyTestControlMessage::DataReady),
            ) && packets_after(start, events.take(k)).len() == 0,
    decreases events.len(),
{
    let before = events.drop_last();
    if packets_after(start, before).len() > 0 {
        no_packet_is_sent_before_the_link_is_ready(start, before);
        let k = choose|k: int|
            0 <= k < before.len() && #[trigger] before[k] == ClientEvent::Message(
                Some(LatencyTestControlMessage::DataReady),
            ) && packets_after(start, before.take(k)).len() == 0;
        assert(before.take(k) =~= events.take(k));
        assert(events[k] == before[k]);
    } else {
        lemma_past_ready(start, before);
        let k = choose|k: int| 0 <= k < before.len() && becomes_ready(start, before, k);
        assert(before.take(k) =~= events.take(k));
        assert(events[k] == before[k]);
        lemma_packets(start, events.take(k));
    }
}

/// The number of frames asked for that was last published over a row of events.
pub open spec fn published_after(start: ClientRun, events: Seq<ClientEvent>) -> u64
    decreases events.len(),
{
    if events.len() == 0 {
        0
    } else {
        match client_step(run_after(start, events.drop_last()), events.last()).1 {
            ClientAction::PublishSentCount(count) => count,
            _ => published_after(start, events.drop_last()),
        }
    }
}

/// The number that is published is the number of packets sent, or one less while the last of them
/// is still to be counted. So a frame that comes back has an index that is at most that number.
pub proof fn published_count_lags_by_one_at_most(start: ClientRun, events: Seq<ClientEvent>)
    requires
        start.wf(),
        start.phase is Starting,
    ensures
        published_after(start, events) <= packets_after(start, events).len() <= published_after(
            start,
            events,
        ) + 1,
{
    lemma_published(start, events);
}

proof fn lemma_published(start: ClientRun, events: Seq<ClientEvent>)
    requires
        start.wf(),
        start.phase is Starting,
    ensures
        ({
            let s = run_after(start, events);
            let published = published_after(start, events);
            let sent = packets_after(start, events).len();
            &&& published == s.current_frame_index
            &&& published <= sent <= published + 1
        }),
    decreases events.len(),
{
    lemma_packets(start, events);
    if events.len() > 0 {
        lemma_published(start, events.drop_last());
        lemma_packets(start, events.drop_last());
    }
}

/// A packet is sent only when it is due: its frame's number of intervals after the first.
pub proof fn no_packet_is_sent_early(s: ClientRun, event: ClientEvent)
    requires
        s.wf(),
        client_step(s, event).0.phase is Stamping,
    ensures
        event is Polled,
        event->now_ns >= s.first_frame_time_ns + s.current_frame_index * s.frame_interval_ns,
        s.current_frame_index < s.total_frames,
        event->running && !event->stop,
{
}

/// Sending ends when the listener stops, when the test is told to stop, or when every frame has
/// been asked for, and for no other reason than a failure.
pub proof fn sending_ends_for_a_reason(s: ClientRun, running: bool, stop: bool, now_ns: u64)
    requires
        s.wf(),
        s.phase is Polling,
    ensures
        client_step(s, ClientEvent::Polled { running, stop, now_ns }).0.phase is Grace <==> !running
            || stop || s.current_frame_index == s.total_frames,
{
}

/// The first reading of the clock in a row of events.
pub open spec fn first_reading(events: Seq<ClientEvent>) -> Option<u64>
    decreases events.len(),
{
    if events.len() == 0 {
        None
    } else if first_reading(events.drop_last()) is Some {
        first_reading(events.drop_last())
    } else {
        match events.last() {
            ClientEvent::Clock(now_ns) => Some(now_ns),
            _ => None,
        }
    }
}

proof fn lemma_frames_in_all(config: LatencyTestConfig)
    ensures
        0 <= config.frame_rate_hz * config.duration_secs <= u64::MAX,
{
    assert(0 <= config.frame_rate_hz * config.duration_secs <= u64::MAX) by (nonlinear_arith)
        requires
            0 <= config.frame_rate_hz <= u32::MAX,
            0 <= config.duration_secs <= u32::MAX,
    ;
}

proof fn lemma_run(
    config: LatencyTestConfig,
    params: LinkParams,
    server_ip: IpAddress,
    frame_interval_ns: u64,
    events: Seq<ClientEvent>,
)
    ensures
        ({
            let start = fresh_run(config, params, server_ip, frame_interval_ns);
            let s = run_after(start, events);
            &&& start.wf()
            &&& s.wf()
            &&& start.total_frames == config.frame_rate_hz * config.duration_secs
            &&& s.total_frames == start.total_frames
            &&& s.params == params
            &&& s.server_ip == server_ip
            &&& s.expected_shards_count == start.expected_shards_count
            &&& s.frame_interval_ns == frame_interval_ns
            &&& !past_clock(s.phase) ==> first_reading(events) is None
            &&& past_clock(s.phase) && !(s.phase is Failed) ==> first_reading(events) == Some(
                s.first_frame_time_ns,
            )
        }),
    decreases events.len(),
{
    lemma_frames_in_all(config);
    let start = fresh_run(config, params, server_ip, frame_interval_ns);
    if events.len() > 0 {
        lemma_run(config, params, server_ip, frame_interval_ns, events.drop_last());
        lemma_step_keeps_wf(run_after(start, events.drop_last()), events.last());
    }
}

/// A test asks for as many frames as its rate gives over its duration: never for more, and for fewer
/// only if the listener stops, the test is told to stop, or something fails. Whatever happens before
/// it, a look at the flags ends the sending exactly when one of them says so or all frames have been
/// asked for.
pub proof fn a_test_asks_for_its_rate_times_its_duration(
    config: LatencyTestConfig,
    params: LinkParams,
    server_ip: IpAddress,
    frame_interval_ns: u64,
    events: Seq<ClientEvent>,
    running: bool,
    stop: bool,
    now_ns: u64,
)
    ensures
        ({
            let start = fresh_run(config, params, server_ip, frame_interval_ns);
            let s = run_after(start, events);
            let sent = packets_after(start, events).len();
            let next = client_step(s, ClientEvent::Polled { running, stop, now_ns });
            &&& sent <= config.frame_rate_hz * config.duration_secs
            &&& s.phase is Polling ==> (next.0.phase is Grace <==> !running || stop || sent
                == config.frame_rate_hz * config.duration_secs)
            &&& s.phase is Polling && next.0.phase is Grace ==> next.1 == ClientAction::Sleep(500)
        }),
{
    let start = fresh_run(config, params, server_ip, frame_interval_ns);
    lemma_run(config, params, server_ip, frame_interval_ns, events);
    lemma_packets(start, events);
}

/// The packets keep the rate: after the first reading of the clock the packet for each frame is due
/// that many intervals later, and it is stamped for sending at the first look at the clock that finds
/// it due, and not at one that does not.
pub proof fn packets_keep_the_rate(
    config: LatencyTestConfig,
    params: LinkParams,
    server_ip: IpAddress,
    frame_interval_ns: u64,
    events: Seq<ClientEvent>,
    now_ns: u64,
)
    ensures
        ({
            let start = fresh_run(config, params, server_ip, frame_interval_ns);
            let s = run_after(start, events);
            let sent = packets_after(start, events).len();
            let action = client_step(
                s,
                ClientEvent::Polled { running: true, stop: false, now_ns },
            ).1;
            s.phase is Polling && sent < config.frame_rate_hz * config.duration_secs ==> {
                &&& first_reading(events) is Some
                &&& now_ns >= first_reading(events)->0 + sent * frame_interval_ns ==> action
                    == ClientAction::ReadClock
                &&& now_ns < first_reading(events)->0 + sent * frame_interval_ns ==> action
                    == ClientAction::Sleep(1)
            }
        }),
{
    let start = fresh_run(config, params, server_ip, frame_interval_ns);
    lemma_run(config, params, server_ip, frame_interval_ns, events);
    lemma_packets(start, events);
}

/// Whatever happens before it, an action carries what the run was begun with: the ports, the
/// streams, the sizes, the server's address, and as many shards as header and payload fill. A packet
/// carries the number of the packets before it, and the reading of the clock that led to it; and the
/// count that is published is that of the packets sent.
pub proof fn actions_carry_what_the_run_was_begun_with(
    config: LatencyTestConfig,
    params: LinkParams,
    server_ip: IpAddress,
    frame_interval_ns: u64,
    events: Seq<ClientEvent>,
    event: ClientEvent,
)
    requires
        can_be_cut(config.frame_size_kb, params.max_shard_data_size as int, header_wire_len()),
    ensures
        ({
            let start = fresh_run(config, params, server_ip, frame_interval_ns);
            let sent = packets_after(start, events).len();
            let max_shard = params.max_shard_data_size;
            match client_step(run_after(start, events), event).1 {
                ClientAction::Listen { data_port, recv_timeout_ms } => {
                    data_port == params.data_port && recv_timeout_ms == 10
                },
                ClientAction::Accept { server_ip: ip, data_port, max_packet_size, timeout_ms } => {
                    &&& ip == server_ip
                    &&& data_port == params.data_port
                    &&& max_packet_size == params.max_packet_size
                    &&& timeout_ms == 5000
                },
                ClientAction::OpenStreams { sensor_stream_id, frame_stream_id, max_unread } => {
                    &&& sensor_stream_id == params.sensor_stream_id
                    &&& frame_stream_id == params.frame_stream_id
                    &&& max_unread == 256
                },
                ClientAction::SpawnProcessor { expected_shards_count: count } => {
                    &&& count >= 1
                    &&& count * max_shard >= 32 + config.frame_size_kb * 1024
                    &&& count > 1 ==> (count - 1) * max_shard < 32 + config.frame_size_kb * 1024
                },
                ClientAction::SendPacket(packet) => {
                    &&& packet.frame_index == sent
                    &&& event == ClientEvent::Clock(packet.client_send_timestamp_ns)
                },
                ClientAction::PublishSentCount(count) => count == sent,
                ClientAction::Sleep(ms) => ms == 1 || ms == 500,
                _ => true,
            }
        }),
{
    let start = fresh_run(config, params, server_ip, frame_interval_ns);
    lemma_run(config, params, server_ip, frame_interval_ns, events);
    lemma_packets(start, events);
    shards_are_as_many_as_header_and_payload_fill(
        config.frame_size_kb,
        params.max_shard_data_size as int,
    );
}

/// An action that fails ends the run where the run cannot go on without it: listening, accepting the
/// link, cloning the control connection and sending a packet. Anywhere else it makes no difference.
/// A run that has failed does nothing more, and neither does one that is over.
pub proof fn some_failures_end_the_run(s: ClientRun, event: ClientEvent)
    ensures
        s.phase is Listening || s.phase is Accepting || s.phase is CloningStream
            || s.phase is SendingPacket ==> client_step(s, ClientEvent::Done(false)).1
            == ClientAction::Fail && client_step(s, ClientEvent::Done(false)).0.phase is Failed,
        !(s.phase is Listening || s.phase is Accepting || s.phase is CloningStream
            || s.phase is SendingPacket) ==> client_step(s, ClientEvent::Done(false))
            == client_step(s, ClientEvent::Done(true)),
        s.phase is Failed ==> client_step(s, event) == (s, ClientAction::Fail),
        s.phase is Finished ==> client_step(s, event) == (s, ClientAction::Finish),
{
}

/// Where everything works, a run listens, accepts the link, opens the streams, waits for the
/// server's word, and starts its three loops before it looks at the clock and at the flags.
pub proof fn a_run_is_set_up_in_order(s: ClientRun, now_ns: u64)
    requires
        s.phase is Starting,
    ensures
        ({
            let s1 = client_step(s, ClientEvent::Begin);
            let s2 = client_step(s1.0, ClientEvent::Done(true));
            let s3 = client_step(s2.0, ClientEvent::Done(true));
            let s4 = client_step(s3.0, ClientEvent::Done(true));
            let s5 = client_step(
                s4.0,
                ClientEvent::Message(Some(LatencyTestControlMessage::DataReady)),
            );
            let s6 = client_step(s5.0, ClientEvent::Done(true));
            let s7 = client_step(s6.0, ClientEvent::Done(true));
            let s8 = client_step(s7.0, ClientEvent::Done(true));
            let s9 = client_step(s8.0, ClientEvent::Done(true));
            let s10 = client_step(s9.0, ClientEvent::Clock(now_ns));
            &&& s1.1 is Listen
            &&& s2.1 is Accept
            &&& s3.1 is OpenStreams
            &&& s4.1 is ReceiveControl
            &&& s5.1 is SpawnReceiver
            &&& s6.1 is SpawnProcessor
            &&& s7.1 is CloneStream
            &&& s8.1 is SpawnReporter
            &&& s9.1 is ReadClock
            &&& s10.1 is Poll
            &&& s10.0.phase is Polling
        }),
{
}

/// A packet that is due is stamped, sent and counted, and after a pause the next look follows; a
/// look that finds none due is followed by the next one in the same way.
pub proof fn a_due_packet_is_sent_and_counted(s: ClientRun, now_ns: u64)
    ensures
        s.phase is Stamping ==> ({
            let s1 = client_step(s, ClientEvent::Clock(now_ns));
            let s2 = client_step(s1.0, ClientEvent::Done(true));
            let s3 = client_step(s2.0, ClientEvent::Done(true));
            &&& s1.1 is SendPacket
            &&& s2.1 is PublishSentCount
            &&& s3.1 == ClientAction::Sleep(1)
            &&& s3.0.phase is Resting
        }),
        s.phase is Resting ==> client_step(s, ClientEvent::Done(true)).1 is Poll && client_step(
            s,
            ClientEvent::Done(true),
        ).0.phase is Polling,
{
}

/// After the last packets had their time, the loops are ended and waited for, the one that reads the
/// link first and the one that reports last.
pub proof fn a_run_is_wound_down_in_order(s: ClientRun)
    requires
        s.phase is Grace,
    ensures
        ({
            let s1 = client_step(s, ClientEvent::Done(true));
            let s2 = client_step(s1.0, ClientEvent::Done(true));
            let s3 = client_step(s2.0, ClientEvent::Done(true));
            let s4 = client_step(s3.0, ClientEvent::Done(true));
            let s5 = client_step(s4.0, ClientEvent::Done(true));
            &&& s1.1 is StopReceiver
            &&& s2.1 is JoinReceiver
            &&& s3.1 is JoinProcessor
            &&& s4.1 is JoinReporter
            &&& s5.1 is Finish
        }),
{
}

} // verus!
