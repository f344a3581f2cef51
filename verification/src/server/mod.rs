//! The server's side of the latency test.

use vstd::prelude::*;
use crate::packets::{IpAddress, LatencyTestConfig};
use crate::shards::{
    can_be_cut, header_wire_len, measure_header, shard_count,
    shards_are_as_many_as_header_and_payload_fill, shards_for_header, ShardCountError,
};

pub mod results;
pub mod run;

verus! {

/// How long connecting to the client may take.
pub const CONNECT_TIMEOUT_MS: u64 = 5000;

/// How long one read on the control connection lasts.
pub const READ_TIMEOUT_MS: u64 = 1000;

/// The number of shards in which each frame is sent, or an error where the frame header cannot be
/// measured.
pub fn calculate_expected_shards_count(frame_size_kb: u32, max_shard_data_size: usize) -> (count:
    Result<u32, ShardCountError>)
    requires
        can_be_cut(frame_size_kb, max_shard_data_size as int, header_wire_len()),
    ensures
        count is Ok,
        count->Ok_0 == shard_count(frame_size_kb, max_shard_data_size as int, header_wire_len()),
        count->Ok_0 >= 1,
        count->Ok_0 * max_shard_data_size >= 32 + frame_size_kb * 1024,
        count->Ok_0 > 1 ==> (count->Ok_0 - 1) * max_shard_data_size < 32 + frame_size_kb * 1024,
{
    proof {
        shards_are_as_many_as_header_and_payload_fill(frame_size_kb, max_shard_data_size as int);
    }
    match measure_header() {
        Ok(size) => Ok(shards_for_header(frame_size_kb, max_shard_data_size, size)),
        Err(e) => Err(e),
    }
}

/// The test as its owner sees it.
#[derive(Clone, Copy, Debug, PartialEq, Eq)]
pub struct LatencyTestServer {
    /// Whether the test is to go on.
    pub running: bool,
    /// Whether there is a thread that has not been joined.
    pub test_thread: bool,
}

/// How an action of starting a test ended.
#[derive(Clone, Copy, Debug, PartialEq, Eq)]
pub enum StartEvent {
    /// The start is asked for.
    Begin,
    /// The test that was running has been stopped.
    Stopped,
    /// The client's address, or nothing where the text is no address.
    AddressParsed(Option<IpAddress>),
    /// The connection was made, or not.
    Connected(bool),
    /// The read timeout was set, or not.
    ReadTimeoutSet(bool),
    /// The sending of small packets at once was switched on, or not.
    NoDelaySet(bool),
}

/// What starting a test does.
#[derive(Debug, PartialEq, Eq)]
pub enum StartAction {
    /// Wait for the thread of the test that was running, if there is one.
    JoinPrevious { join: bool },
    /// Read the client's address.
    ParseAddress(String),
    /// Connect to the client.
    Connect { ip: IpAddress, port: u16, timeout_ms: u64 },
    /// Limit each read to this many milliseconds.
    SetReadTimeout(u64),
    /// Send small packets at once.
    SetNoDelay,
    /// Start the thread that runs the test; the start succeeded.
    Spawn,
    /// The start failed with the error of the action that failed.
    Fail,
}

/// The action that an event leads to.
pub open spec fn start_action(
    server: LatencyTestServer,
    config: LatencyTestConfig,
    port: u16,
    event: StartEvent,
) -> StartAction {
    match event {
        StartEvent::Begin => if server.running {
            StartAction::JoinPrevious { join: server.test_thread }
        } else {
            StartAction::ParseAddress(config.client_ip)
        },
        StartEvent::Stopped => StartAction::ParseAddress(config.client_ip),
        StartEvent::AddressParsed(Some(ip)) => StartAction::Connect {
            ip,
            port,
            timeout_ms: CONNECT_TIMEOUT_MS,
        },
        StartEvent::Connected(true) => StartAction::SetReadTimeout(READ_TIMEOUT_MS),
        StartEvent::ReadTimeoutSet(true) => StartAction::SetNoDelay,
        StartEvent::NoDelaySet(true) => StartAction::Spawn,
        _ => StartAction::Fail,
    }
}

/// The state that an event leads to: a running test is stopped first, and the flag is raised only
/// when everything has worked.
pub open spec fn start_state(server: LatencyTestServer, event: StartEvent) -> LatencyTestServer {
    match event {
        StartEvent::Begin => if server.running {
            LatencyTestServer { running: false, test_thread: false }
        } else {
            server
        },
        StartEvent::NoDelaySet(true) => LatencyTestServer { running: true, test_thread: true },
        _ => server,
    }
}

impl LatencyTestServer {
    /// A test that runs has a thread.
    pub open spec fn wf(self) -> bool {
        self.running ==> self.test_thread
    }

    pub fn new() -> (server: Self)
        ensures
            server.wf(),
            !server.running,
            !server.test_thread,
    {
        LatencyTestServer { running: false, test_thread: false }
    }

    /// Starts a test, one action at a time.
    pub fn start(&mut self, config: &LatencyTestConfig, port: u16, event: StartEvent) -> (action:
        StartAction)
        requires
            old(self).wf(),
        ensures
            final(self).wf(),
            action == start_action(*old(self), *config, port, event),
            *final(self) == start_state(*old(self), event),
    {
        match event {
            StartEvent::Begin => {
                if self.running {
                    let join = self.stop();
                    StartAction::JoinPrevious { join }
                } else {
                    StartAction::ParseAddress(config.client_ip.clone())
                }
            },
            StartEvent::Stopped => StartAction::ParseAddress(config.client_ip.clone()),
            StartEvent::AddressParsed(Some(ip)) => StartAction::Connect {
                ip,
                port,
                timeout_ms: CONNECT_TIMEOUT_MS,
            },
            StartEvent::Connected(true) => StartAction::SetReadTimeout(READ_TIMEOUT_MS),
            StartEvent::ReadTimeoutSet(true) => StartAction::SetNoDelay,
            StartEvent::NoDelaySet(true) => {
                self.running = true;
                self.test_thread = true;
                StartAction::Spawn
            },
            _ => StartAction::Fail,
        }
    }

    /// Stops the test; the result says whether there is a thread to join.
    pub fn stop(&mut self) -> (join: bool)
        ensures
            join == old(self).test_thread,
            !final(self).running,
            !final(self).test_thread,
    {
        let join = self.test_thread;
        self.running = false;
        self.test_thread = false;
        join
    }

    /// Notes that the test has ended by itself, or that its data link has failed. The thread
    /// stays to be joined.
    pub fn clear_running(&mut self)
        ensures
            !final(self).running,
            final(self).test_thread == old(self).test_thread,
    {
        self.running = false;
    }

    pub fn is_running(&self) -> (running: bool)
        ensures
            running == self.running,
    {
        self.running
    }
}

/// The state after a row of events of a start.
pub open spec fn started(server: LatencyTestServer, events: Seq<StartEvent>) -> LatencyTestServer
    decreases events.len(),
{
    if events.len() == 0 {
        server
    } else {
        start_state(started(server, events.drop_last()), events.last())
    }
}

/// Whether a row of events is one start: it begins with the request, which comes once.
pub open spec fn is_one_start(events: Seq<StartEvent>) -> bool {
    &&& events.len() > 0
    &&& events[0] is Begin
    &&& forall|i: int| 1 <= i < events.len() ==> !(#[trigger] events[i] is Begin)
}

/// A start in which the last step did not work leaves no test running, not even the one that was
/// running before.
pub proof fn a_failed_start_leaves_nothing_running(
    server: LatencyTestServer,
    events: Seq<StartEvent>,
)
    requires
        is_one_start(events),
        forall|i: int|
            0 <= i < events.len() ==> #[trigger] events[i] != StartEvent::NoDelaySet(true),
    ensures
        !started(server, events).running,
    decreases events.len(),
{
    assert(events[events.len() - 1] == events.last());
    if events.len() == 1 {
        assert(events.drop_last() =~= Seq::empty());
        reveal_with_fuel(started, 2);
    } else {
        let before = events.drop_last();
        assert(forall|i: int| 0 <= i < before.len() ==> #[trigger] before[i] == events[i]);
        a_failed_start_leaves_nothing_running(server, before);
    }
}

/// Both sides expect the same number of shards: the client's count is the server's.
pub proof fn both_sides_count_the_same_shards(
    frame_size_kb: u32,
    max_shard_data_size: usize,
    client_count: u32,
    server_count: Result<u32, ShardCountError>,
)
    requires
        call_ensures(
            crate::client::calculate_expected_shards_count,
            (frame_size_kb, max_shard_data_size),
            client_count,
        ),
        call_ensures(
            calculate_expected_shards_count,
            (frame_size_kb, max_shard_data_size),
            server_count,
        ),
    ensures
        server_count == Ok::<u32, ShardCountError>(client_count),
{
}

/// A start connects to the address that was read from the configuration's own text, on the port that
/// was asked for, within five seconds, and limits each read to one second; it fails with the first
/// thing that does not work, and starts a test exactly when everything has worked.
pub proof fn a_start_goes_to_the_client_that_was_asked_for(
    server: LatencyTestServer,
    config: LatencyTestConfig,
    port: u16,
    event: StartEvent,
)
    ensures
        ({
            let action = start_action(server, config, port, event);
            &&& action is ParseAddress <==> event is Stopped || (event is Begin && !server.running)
            &&& action is ParseAddress ==> action->ParseAddress_0 == config.client_ip
            &&& action is JoinPrevious <==> event is Begin && server.running
            &&& action is JoinPrevious ==> action->join == server.test_thread
            &&& action is Connect <==> event is AddressParsed && event->AddressParsed_0 is Some
            &&& action is Connect ==> {
                &&& action->ip == event->AddressParsed_0->0
                &&& action->port == port
                &&& action->timeout_ms == 5000
            }
            &&& action == StartAction::SetReadTimeout(1000) <==> event == StartEvent::Connected(
                true,
            )
            &&& action is SetNoDelay <==> event == StartEvent::ReadTimeoutSet(true)
            &&& action is Spawn <==> event == StartEvent::NoDelaySet(true)
            &&& action is Fail <==> {
                ||| event == StartEvent::AddressParsed(None)
                ||| event == StartEvent::Connected(false)
                ||| event == StartEvent::ReadTimeoutSet(false)
                ||| event == StartEvent::NoDelaySet(false)
            }
            &&& start_state(server, event).running <==> action is Spawn || (server.running && !(
            event is Begin))
            &&& action is Spawn ==> start_state(server, event).test_thread
            &&& action is JoinPrevious ==> !start_state(server, event).test_thread
            &&& !(action is Spawn) && !(action is JoinPrevious) ==> start_state(server, event)
                == server
        }),
{
}

} // verus!
