//! The client's listener: its life, the loop that accepts connections, and what is done with one.

use vstd::prelude::*;
use crate::packets::{IpAddress, LatencyTestConfig, LatencyTestControlMessage};

verus! {

/// How long one read on the control connection lasts.
pub const READ_TIMEOUT_MS: u64 = 1000;

/// Pause between two looks for a connection.
pub const ACCEPT_PAUSE_MS: u64 = 100;

/// The listener as its owner sees it.
#[derive(Clone, Copy, Debug, PartialEq, Eq)]
pub struct LatencyTestClient {
    /// Whether the listener is to go on.
    pub running: bool,
    /// Whether there is a thread that has not been joined.
    pub listener_thread: bool,
}

/// How an action of starting the listener ended.
#[derive(Clone, Copy, Debug, PartialEq, Eq)]
pub enum ListenEvent {
    /// The start is asked for.
    Begin,
    /// The port was bound, or not.
    Bound(bool),
    /// The socket was made nonblocking, or not.
    NonblockingSet(bool),
}

/// What starting the listener does.
#[derive(Clone, Copy, Debug, PartialEq, Eq)]
pub enum ListenAction {
    /// Bind this TCP port on every interface.
    Bind { port: u16 },
    /// Make the socket nonblocking.
    SetNonblocking,
    /// Start the thread that runs the loop; the start succeeded.
    Spawn,
    /// The listener runs already; the start succeeded.
    AlreadyRunning,
    /// The start failed with the error of the action that failed.
    Fail,
}

/// The action that an event of starting the listener leads to.
pub open spec fn listen_action(
    client: LatencyTestClient,
    port: u16,
    event: ListenEvent,
) -> ListenAction {
    match event {
        ListenEvent::Begin => if client.running {
            ListenAction::AlreadyRunning
        } else {
            ListenAction::Bind { port }
        },
        ListenEvent::Bound(true) => ListenAction::SetNonblocking,
        ListenEvent::NonblockingSet(true) => ListenAction::Spawn,
        _ => ListenAction::Fail,
    }
}

impl LatencyTestClient {
    /// A listener that runs has a thread.
    pub open spec fn wf(self) -> bool {
        self.running ==> self.listener_thread
    }

    pub fn new() -> (client: Self)
        ensures
            client.wf(),
            !client.running,
            !client.listener_thread,
    {
        LatencyTestClient { running: false, listener_thread: false }
    }

    /// Starts the listener on a port, one action at a time.
    pub fn start_listener(&mut self, port: u16, event: ListenEvent) -> (action: ListenAction)
        requires
            old(self).wf(),
        ensures
            final(self).wf(),
            action == (match event {
                ListenEvent::Begin => if old(self).running {
                    ListenAction::AlreadyRunning
                } else {
                    ListenAction::Bind { port }
                },
                ListenEvent::Bound(true) => ListenAction::SetNonblocking,
                ListenEvent::NonblockingSet(true) => ListenAction::Spawn,
                _ => ListenAction::Fail,
            }),
            action is Spawn ==> final(self).running && final(self).listener_thread,
            action == listen_action(*old(self), port, event),
            !(action is Spawn) ==> *final(self) == *old(self),
    {
        match event {
            ListenEvent::Begin => {
                if self.running {
                    ListenAction::AlreadyRunning
                } else {
                    ListenAction::Bind { port }
                }
            },
            ListenEvent::Bound(true) => ListenAction::SetNonblocking,
            ListenEvent::NonblockingSet(true) => {
                self.running = true;
                self.listener_thread = true;
                ListenAction::Spawn
            },
            _ => ListenAction::Fail,
        }
    }

    /// Stops the listener; the result says whether there is a thread to join.
    pub fn stop_listener(&mut self) -> (join: bool)
        ensures
            join == old(self).listener_thread,
            !final(self).running,
            !final(self).listener_thread,
    {
        let join = self.listener_thread;
        self.running = false;
        self.listener_thread = false;
        join
    }

    pub fn is_running(&self) -> (running: bool)
        ensures
            running == self.running,
    {
        self.running
    }
}

/// How the last action of the accepting loop ended.
#[derive(Clone, Copy, Debug, PartialEq, Eq)]
pub enum AcceptEvent {
    /// There was none yet, or a connection was dealt with, or a pause is over.
    Resume,
    /// A connection was accepted.
    Accepted,
    /// No connection is waiting.
    WouldBlock,
    /// Accepting failed.
    Failed,
}

/// What the accepting loop does.
#[derive(Clone, Copy, Debug, PartialEq, Eq)]
pub enum AcceptStep {
    /// Look for a connection.
    Accept,
    /// Deal with the connection; an error in that does not end the loop.
    Handle,
    /// Sleep this many milliseconds.
    Sleep(u64),
    /// Leave the loop.
    Exit,
}

/// One turn of the accepting loop. Whether the listener still runs is looked at before each
/// look for a connection, and nowhere else.
pub fn listener_loop(running: bool, event: AcceptEvent) -> (step: AcceptStep)
    ensures
        step == (match event {
            AcceptEvent::Resume => if running {
                AcceptStep::Accept
            } else {
                AcceptStep::Exit
            },
            AcceptEvent::Accepted => AcceptStep::Handle,
            AcceptEvent::WouldBlock => AcceptStep::Sleep(ACCEPT_PAUSE_MS),
            AcceptEvent::Failed => AcceptStep::Exit,
        }),
{
    match event {
        AcceptEvent::Resume => {
            if running {
                AcceptStep::Accept
            } else {
                AcceptStep::Exit
            }
        },
        AcceptEvent::Accepted => AcceptStep::Handle,
        AcceptEvent::WouldBlock => AcceptStep::Sleep(ACCEPT_PAUSE_MS),
        AcceptEvent::Failed => AcceptStep::Exit,
    }
}

/// How one action on a connection ended.
#[derive(Debug, PartialEq, Eq)]
pub enum ConnectionReply {
    /// The action was carried out, and whether that worked.
    Done(bool),
    /// The message that was received, or nothing where receiving failed.
    Message(Option<LatencyTestControlMessage>),
    /// The address of the other side, or nothing where it could not be found out.
    Peer(Option<IpAddress>),
}

/// What is done with a connection.
#[derive(Debug, PartialEq, Eq)]
pub enum ConnectionStep {
    /// Limit each read to this many milliseconds.
    SetReadTimeout(u64),
    /// Send small packets at once.
    SetNoDelay,
    /// Receive a message.
    Receive,
    /// Send the acknowledgement.
    SendAck,
    /// Find out the address of the other side.
    FindPeer,
    /// Run the test with the server at this address.
    RunTest { config: LatencyTestConfig, server_ip: IpAddress },
    /// The connection was dealt with.
    Return,
    /// Dealing with the connection failed, with the error of the action that failed.
    Fail,
}

/// Whether the `i`-th action was carried out.
pub open spec fn worked(replies: Seq<ConnectionReply>, i: int) -> bool {
    replies[i] == ConnectionReply::Done(true)
}

/// What is done once `replies` have come back: the connection is set up, one message is received,
/// and only a start command is answered, with an acknowledgement and the test, run with the other
/// side as the server. Any other message ends the matter without an error.
pub open spec fn connection_step(replies: Seq<ConnectionReply>) -> ConnectionStep {
    if replies.len() == 0 {
        ConnectionStep::SetReadTimeout(READ_TIMEOUT_MS)
    } else if !worked(replies, 0) {
        ConnectionStep::Fail
    } else if replies.len() == 1 {
        ConnectionStep::SetNoDelay
    } else if !worked(replies, 1) {
        ConnectionStep::Fail
    } else if replies.len() == 2 {
        ConnectionStep::Receive
    } else {
        match replies[2] {
            ConnectionReply::Message(Some(LatencyTestControlMessage::StartTest(config))) => {
                if replies.len() == 3 {
                    ConnectionStep::SendAck
                } else if !worked(replies, 3) {
                    ConnectionStep::Fail
                } else if replies.len() == 4 {
                    ConnectionStep::FindPeer
                } else {
                    match replies[4] {
                        ConnectionReply::Peer(Some(server_ip)) => if replies.len() == 5 {
                            ConnectionStep::RunTest { config, server_ip }
                        } else if !worked(replies, 5) {
                            ConnectionStep::Fail
                        } else {
                            ConnectionStep::Return
                        },
                        _ => ConnectionStep::Fail,
                    }
                }
            },
            ConnectionReply::Message(Some(_)) => ConnectionStep::Return,
            _ => ConnectionStep::Fail,
        }
    }
}

fn reply_worked(replies: &Vec<ConnectionReply>, i: usize) -> (r: bool)
    requires
        i < replies@.len(),
    ensures
        r == worked(replies@, i as int),
{
    match &replies[i] {
        ConnectionReply::Done(ok) => *ok,
        _ => false,
    }
}

/// Deals with one connection: says what to do after the replies so far.
pub fn handle_connection(replies: &Vec<ConnectionReply>) -> (step: ConnectionStep)
    ensures
        step == connection_step(replies@),
{
    if replies.len() == 0 {
        return ConnectionStep::SetReadTimeout(READ_TIMEOUT_MS);
    }
    if !reply_worked(replies, 0) {
        return ConnectionStep::Fail;
    }
    if replies.len() == 1 {
        return ConnectionStep::SetNoDelay;
    }
    if !reply_worked(replies, 1) {
        return ConnectionStep::Fail;
    }
    if replies.len() == 2 {
        return ConnectionStep::Receive;
    }
    match &replies[2] {
        ConnectionReply::Message(Some(LatencyTestControlMessage::StartTest(config))) => {
            if replies.len() == 3 {
                ConnectionStep::SendAck
            } else if !reply_worked(replies, 3) {
                ConnectionStep::Fail
            } else if replies.len() == 4 {
                ConnectionStep::FindPeer
            } else {
                match &replies[4] {
                    ConnectionReply::Peer(Some(server_ip)) => {
                        if replies.len() == 5 {
                            ConnectionStep::RunTest {
                                config: config.clone(),
                                server_ip: *server_ip,
                            }
                        } else if !reply_worked(replies, 5) {
                            ConnectionStep::Fail
                        } else {
                            ConnectionStep::Return
                        }
                    },
                    _ => ConnectionStep::Fail,
                }
            }
        },
        ConnectionReply::Message(Some(_)) => ConnectionStep::Return,
        _ => ConnectionStep::Fail,
    }
}

/// A test is run only for the configuration of a start command that has been acknowledged, and with
/// the address of the side that sent it.
pub proof fn tests_run_only_after_an_acknowledged_start(
    replies: Seq<ConnectionReply>,
    config: LatencyTestConfig,
    server_ip: IpAddress,
)
    requires
        connection_step(replies) == (ConnectionStep::RunTest { config, server_ip }),
    ensures
        replies.len() == 5,
        replies[2] == ConnectionReply::Message(
            Some(LatencyTestControlMessage::StartTest(config)),
        ),
        connection_step(replies.take(3)) == ConnectionStep::SendAck,
        worked(replies, 3),
        connection_step(replies.take(4)) == ConnectionStep::FindPeer,
        replies[4] == ConnectionReply::Peer(Some(server_ip)),
{
}

/// The port that is bound is the one that was asked for, and only a listener that does not run binds
/// one; a thread is started exactly when the socket could be made nonblocking.
pub proof fn the_port_that_was_asked_for_is_bound(
    client: LatencyTestClient,
    port: u16,
    bound: u16,
    event: ListenEvent,
)
    ensures
        listen_action(client, port, event) == (ListenAction::Bind { port: bound }) <==> bound
            == port && event is Begin && !client.running,
        listen_action(client, port, event) is Spawn <==> event == ListenEvent::NonblockingSet(true),
        listen_action(client, port, event) is Fail <==> event == ListenEvent::Bound(false) || event
            == ListenEvent::NonblockingSet(false),
        listen_action(client, port, event) is AlreadyRunning <==> event is Begin && client.running,
{
}

/// What a turn of the accepting loop leads to.
pub proof fn the_accepting_loop_ends_when_it_is_stopped_or_fails(
    running: bool,
    event: AcceptEvent,
    step: AcceptStep,
)
    requires
        call_ensures(listener_loop, (running, event), step),
    ensures
        step is Exit <==> event is Failed || (event is Resume && !running),
        step is Accept <==> event is Resume && running,
        step is Handle <==> event is Accepted,
        step == AcceptStep::Sleep(100) <==> event is WouldBlock,
{
}

/// Dealing with a connection fails exactly when an action that was due failed, and ends without an
/// error exactly when the first message was no start command or the test was run.
pub proof fn a_connection_fails_with_the_first_failure(replies: Seq<ConnectionReply>)
    ensures
        ({
            let n = replies.len();
            let worked_at = |i: int| replies[i] == ConnectionReply::Done(true);
            let message = replies[2]->Message_0;
            let started = replies[2] is Message && message is Some && message->0 is StartTest;
            let ended = replies[2] is Message && message is Some && !(message->0 is StartTest);
            let found = replies[4] is Peer && replies[4]->Peer_0 is Some;
            let options_set = (n < 1 || worked_at(0)) && (n < 2 || worked_at(1));
            &&& connection_step(replies) is Fail <==> {
                ||| !options_set
                ||| n >= 3 && !started && !ended
                ||| n >= 4 && started && !worked_at(3)
                ||| n >= 5 && started && !found
                ||| n >= 6 && started && !worked_at(5)
            }
            &&& connection_step(replies) is Return <==> {
                &&& options_set
                &&& n >= 3
                &&& ended || (n >= 6 && started && worked_at(3) && found && worked_at(5))
            }
            &&& n == 0 ==> connection_step(replies) == ConnectionStep::SetReadTimeout(1000)
            &&& n == 1 && options_set ==> connection_step(replies) is SetNoDelay
            &&& n == 2 && options_set ==> connection_step(replies) is Receive
            &&& n == 3 && options_set && started ==> connection_step(replies) is SendAck
            &&& n == 4 && options_set && started && worked_at(3) ==> connection_step(
                replies,
            ) is FindPeer
            &&& n == 5 && options_set && started && worked_at(3) && found ==> connection_step(
                replies,
            ) == (ConnectionStep::RunTest {
                config: message->0->StartTest_0,
                server_ip: replies[4]->Peer_0->0,
            })
        }),
{
}

} // verus!
