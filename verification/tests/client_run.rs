use latency_link::client::listener::{
    handle_connection, listener_loop, AcceptEvent, AcceptStep, ConnectionReply, ConnectionStep,
    LatencyTestClient, ListenAction, ListenEvent,
};
use latency_link::client::run::{ClientAction, ClientEvent, ClientPhase, ClientRun};
use latency_link::data_link::{data_receive_loop, DataLinkEvent, DataLinkStep};
use latency_link::packets::{
    IpAddress, LatencyTestConfig, LatencyTestControlMessage, LatencyTestSensorPacket, LinkParams,
};

fn config() -> LatencyTestConfig {
    LatencyTestConfig {
        client_ip: "10.0.0.2".to_string(),
        frame_size_kb: 100,
        frame_rate_hz: 3,
        duration_secs: 1,
    }
}

fn params() -> LinkParams {
    LinkParams {
        control_port: 9950,
        data_port: 9951,
        frame_stream_id: 11,
        sensor_stream_id: 12,
        max_packet_size: 1450,
        max_shard_data_size: 1400,
    }
}

fn server_ip() -> IpAddress {
    IpAddress::V4([10, 0, 0, 1])
}

fn ready_to_send(first_ns: u64) -> ClientRun {
    let mut run = ClientRun::new(&config(), params(), server_ip(), 100);
    assert_eq!(
        run.run_latency_test(ClientEvent::Begin),
        ClientAction::Listen { data_port: 9951, recv_timeout_ms: 10 }
    );
    assert_eq!(
        run.run_latency_test(ClientEvent::Done(true)),
        ClientAction::Accept {
            server_ip: server_ip(),
            data_port: 9951,
            max_packet_size: 1450,
            timeout_ms: 5000
        }
    );
    assert_eq!(
        run.run_latency_test(ClientEvent::Done(true)),
        ClientAction::OpenStreams { sensor_stream_id: 12, frame_stream_id: 11, max_unread: 256 }
    );
    assert_eq!(run.run_latency_test(ClientEvent::Done(true)), ClientAction::ReceiveControl);
    assert_eq!(
        run.run_latency_test(ClientEvent::Message(Some(LatencyTestControlMessage::DataReady))),
        ClientAction::SpawnReceiver
    );
    assert_eq!(
        run.run_latency_test(ClientEvent::Done(true)),
        ClientAction::SpawnProcessor { expected_shards_count: 74 }
    );
    assert_eq!(run.run_latency_test(ClientEvent::Done(true)), ClientAction::CloneStream);
    assert_eq!(run.run_latency_test(ClientEvent::Done(true)), ClientAction::SpawnReporter);
    assert_eq!(run.run_latency_test(ClientEvent::Done(true)), ClientAction::ReadClock);
    assert_eq!(run.run_latency_test(ClientEvent::Clock(first_ns)), ClientAction::Poll);
    run
}

fn polled(now_ns: u64) -> ClientEvent {
    ClientEvent::Polled { running: true, stop: false, now_ns }
}

fn wound_down(run: &mut ClientRun) {
    let done = || ClientEvent::Done(true);
    assert_eq!(run.run_latency_test(done()), ClientAction::StopReceiver);
    assert_eq!(run.run_latency_test(done()), ClientAction::JoinReceiver);
    assert_eq!(run.run_latency_test(done()), ClientAction::JoinProcessor);
    assert_eq!(run.run_latency_test(done()), ClientAction::JoinReporter);
    assert_eq!(run.run_latency_test(done()), ClientAction::Finish);
    assert_eq!(run.phase, ClientPhase::Finished);
}

#[test]
fn every_frame_is_asked_for_in_its_time() {
    let mut run = ready_to_send(50);
    let mut sent = Vec::new();
    let mut now = 50;
    let mut action = run.run_latency_test(polled(now));
    loop {
        action = match action {
            ClientAction::ReadClock => run.run_latency_test(ClientEvent::Clock(now + 1)),
            ClientAction::SendPacket(packet) => {
                assert!(now >= 50 + 100 * packet.frame_index);
                sent.push(packet);
                run.run_latency_test(ClientEvent::Done(true))
            }
            ClientAction::PublishSentCount(n) => {
                assert_eq!(n, sent.len() as u64);
                run.run_latency_test(ClientEvent::Done(true))
            }
            ClientAction::Sleep(1) => {
                now += 30;
                run.run_latency_test(ClientEvent::Done(true))
            }
            ClientAction::Poll => run.run_latency_test(polled(now)),
            other => {
                assert_eq!(other, ClientAction::Sleep(500));
                break;
            }
        }
    }
    assert_eq!(
        sent[0],
        LatencyTestSensorPacket { frame_index: 0, client_send_timestamp_ns: 51 }
    );
    let indices: Vec<u64> = sent.iter().map(|p| p.frame_index).collect();
    assert_eq!(indices, vec![0, 1, 2]);
    wound_down(&mut run);
}

#[test]
fn nothing_is_sent_before_it_is_due() {
    let mut run = ready_to_send(50);
    assert_eq!(run.run_latency_test(polled(49)), ClientAction::Sleep(1));
}

#[test]
fn a_test_that_is_told_to_stop_is_wound_down() {
    for (running, stop) in [(false, false), (true, true)] {
        let mut run = ready_to_send(0);
        let event = ClientEvent::Polled { running, stop, now_ns: 0 };
        assert_eq!(run.run_latency_test(event), ClientAction::Sleep(500));
        wound_down(&mut run);
    }
}

#[test]
fn a_packet_that_cannot_be_sent_ends_the_test() {
    let mut run = ready_to_send(0);
    run.run_latency_test(polled(0));
    run.run_latency_test(ClientEvent::Clock(0));
    assert_eq!(run.run_latency_test(ClientEvent::Done(false)), ClientAction::Fail);
    assert_eq!(run.run_latency_test(ClientEvent::Done(true)), ClientAction::Fail);
    assert_eq!(run.current_frame_index, 0);
}

#[test]
fn a_link_that_cannot_be_opened_ends_the_test() {
    let mut run = ClientRun::new(&config(), params(), server_ip(), 100);
    run.run_latency_test(ClientEvent::Begin);
    assert_eq!(run.run_latency_test(ClientEvent::Done(false)), ClientAction::Fail);
}

#[test]
fn nothing_is_started_before_the_server_is_ready() {
    let messages = [
        None,
        Some(LatencyTestControlMessage::Ack),
        Some(LatencyTestControlMessage::StopTest),
    ];
    for message in messages {
        let mut run = ClientRun::new(&config(), params(), server_ip(), 100);
        run.run_latency_test(ClientEvent::Begin);
        for _ in 0..2 {
            run.run_latency_test(ClientEvent::Done(true));
        }
        assert_eq!(
            run.run_latency_test(ClientEvent::Done(true)),
            ClientAction::ReceiveControl
        );
        assert_eq!(run.phase, ClientPhase::AwaitingReady);
        assert_eq!(run.run_latency_test(ClientEvent::Message(message)), ClientAction::Fail);
        assert_eq!(run.run_latency_test(ClientEvent::Done(true)), ClientAction::Fail);
    }
}

#[test]
fn the_number_of_frames_does_not_overflow() {
    let mut c = config();
    c.frame_rate_hz = u32::MAX;
    c.duration_secs = u32::MAX;
    let run = ClientRun::new(&c, params(), server_ip(), u64::MAX);
    assert_eq!(run.total_frames, 18446744065119617025);
}

#[test]
fn the_listener_is_started_once() {
    let mut client = LatencyTestClient::new();
    assert!(!client.is_running());
    assert_eq!(client.start_listener(9950, ListenEvent::Begin), ListenAction::Bind { port: 9950 });
    assert_eq!(
        client.start_listener(9950, ListenEvent::Bound(true)),
        ListenAction::SetNonblocking
    );
    assert!(!client.is_running());
    assert_eq!(
        client.start_listener(9950, ListenEvent::NonblockingSet(true)),
        ListenAction::Spawn
    );
    assert!(client.is_running());
    assert_eq!(
        client.start_listener(9950, ListenEvent::Begin),
        ListenAction::AlreadyRunning
    );
    assert!(client.stop_listener());
    assert!(!client.is_running());
    assert!(!client.stop_listener());
    assert_eq!(client, LatencyTestClient::new());
}

#[test]
fn a_listener_that_cannot_be_bound_is_not_running() {
    for event in [ListenEvent::Bound(false), ListenEvent::NonblockingSet(false)] {
        let mut client = LatencyTestClient::new();
        assert_eq!(client.start_listener(1, event), ListenAction::Fail);
        assert!(!client.is_running());
    }
}

#[test]
fn connections_are_accepted_while_the_listener_runs() {
    assert_eq!(listener_loop(true, AcceptEvent::Resume), AcceptStep::Accept);
    assert_eq!(listener_loop(false, AcceptEvent::Resume), AcceptStep::Exit);
    assert_eq!(listener_loop(false, AcceptEvent::Accepted), AcceptStep::Handle);
    assert_eq!(listener_loop(true, AcceptEvent::WouldBlock), AcceptStep::Sleep(100));
    assert_eq!(listener_loop(true, AcceptEvent::Failed), AcceptStep::Exit);
}

#[test]
fn a_start_command_is_acknowledged_and_run() {
    let mut replies = Vec::new();
    assert_eq!(handle_connection(&replies), ConnectionStep::SetReadTimeout(1000));
    replies.push(ConnectionReply::Done(true));
    assert_eq!(handle_connection(&replies), ConnectionStep::SetNoDelay);
    replies.push(ConnectionReply::Done(true));
    assert_eq!(handle_connection(&replies), ConnectionStep::Receive);
    replies.push(ConnectionReply::Message(Some(LatencyTestControlMessage::StartTest(config()))));
    assert_eq!(handle_connection(&replies), ConnectionStep::SendAck);
    replies.push(ConnectionReply::Done(true));
    assert_eq!(handle_connection(&replies), ConnectionStep::FindPeer);
    replies.push(ConnectionReply::Peer(None));
    assert_eq!(handle_connection(&replies), ConnectionStep::Fail);
    replies.pop();
    replies.push(ConnectionReply::Peer(Some(server_ip())));
    assert_eq!(
        handle_connection(&replies),
        ConnectionStep::RunTest { config: config(), server_ip: server_ip() }
    );
    replies.push(ConnectionReply::Done(true));
    assert_eq!(handle_connection(&replies), ConnectionStep::Return);
    replies.pop();
    replies.push(ConnectionReply::Done(false));
    assert_eq!(handle_connection(&replies), ConnectionStep::Fail);
}

#[test]
fn other_first_messages_end_the_connection() {
    let with = |m| {
        handle_connection(&vec![
            ConnectionReply::Done(true),
            ConnectionReply::Done(true),
            ConnectionReply::Message(m),
        ])
    };
    assert_eq!(with(Some(LatencyTestControlMessage::StopTest)), ConnectionStep::Return);
    assert_eq!(with(None), ConnectionStep::Fail);
}

#[test]
fn a_failing_data_link_stops_the_test() {
    assert_eq!(data_receive_loop(true, DataLinkEvent::Begin), DataLinkStep::Receive);
    assert_eq!(data_receive_loop(true, DataLinkEvent::Received), DataLinkStep::Receive);
    assert_eq!(data_receive_loop(true, DataLinkEvent::TryAgain), DataLinkStep::Receive);
    assert_eq!(data_receive_loop(false, DataLinkEvent::TryAgain), DataLinkStep::Exit);
    assert_eq!(data_receive_loop(true, DataLinkEvent::Failed), DataLinkStep::StopTestAndExit);
}
