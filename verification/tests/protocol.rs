use latency_link::client::frames::{FrameEvent, FrameProcessor, FrameStep};
use latency_link::client::listener::{handle_connection, ConnectionReply, ConnectionStep};
use latency_link::client::reports::{ReportAction, ReportEvent, ReportForwarder};
use latency_link::client::run::{ClientAction, ClientEvent, ClientRun};
use latency_link::packets::{
    IpAddress, LatencyTestConfig, LatencyTestControlMessage, LatencyTestFrameHeader,
    LatencyTestFrameReport, LatencyTestSensorPacket, LinkParams,
};
use latency_link::server::results::csv_row;
use latency_link::server::run::{SensorOutcome, ServerAction, ServerEvent, ServerRun};

fn params() -> LinkParams {
    LinkParams {
        control_port: 9943,
        data_port: 9944,
        frame_stream_id: 1,
        sensor_stream_id: 2,
        max_packet_size: 1450,
        max_shard_data_size: 1400,
    }
}

fn config() -> LatencyTestConfig {
    LatencyTestConfig {
        client_ip: "10.0.0.2".to_string(),
        frame_size_kb: 100,
        frame_rate_hz: 3,
        duration_secs: 1,
    }
}

/// What the server says once its end of the data link is open.
fn ready_message() -> LatencyTestControlMessage {
    let mut server = ServerRun::new(config(), params());
    server.run_latency_test(ServerEvent::Begin);
    server.run_latency_test(ServerEvent::Done(true));
    server.run_latency_test(ServerEvent::Message(Ok(LatencyTestControlMessage::Ack)));
    server.run_latency_test(ServerEvent::Address(Some(IpAddress::V4([10, 0, 0, 2]))));
    match server.run_latency_test(ServerEvent::Done(true)) {
        ServerAction::SendControl(message) => message,
        other => panic!("{:?}", other),
    }
}

/// The packets of a whole run, with a clock that goes on only while the run sleeps.
fn packets_of_a_run() -> Vec<LatencyTestSensorPacket> {
    let mut run = ClientRun::new(&config(), params(), IpAddress::V4([10, 0, 0, 1]), 333_333_333);
    let mut packets = Vec::new();
    let mut now_ns: u64 = 0;
    let mut event = ClientEvent::Begin;
    loop {
        event = match run.run_latency_test(event) {
            ClientAction::ReadClock => ClientEvent::Clock(now_ns),
            ClientAction::Poll => ClientEvent::Polled { running: true, stop: false, now_ns },
            ClientAction::Sleep(ms) => {
                now_ns += ms * 1_000_000;
                ClientEvent::Done(true)
            }
            ClientAction::SendPacket(packet) => {
                packets.push(packet);
                ClientEvent::Done(true)
            }
            ClientAction::ReceiveControl => {
                assert!(packets.is_empty());
                ClientEvent::Message(Some(ready_message()))
            }
            ClientAction::Finish => return packets,
            ClientAction::Fail => panic!("the run failed"),
            _ => ClientEvent::Done(true),
        };
    }
}

/// The frames that answer some packets, and the server right after it told the client to stop.
fn answers(packets: &[LatencyTestSensorPacket]) -> (ServerRun, Vec<LatencyTestFrameHeader>) {
    let mut run = ServerRun::new(config(), params());
    let mut headers = Vec::new();
    let mut waiting = packets.iter();
    let mut event = ServerEvent::Begin;
    loop {
        let now_ns: u64 = 1_000_000;
        event = match run.run_latency_test(event) {
            ServerAction::ReceiveControl => {
                ServerEvent::Message(Ok(LatencyTestControlMessage::Ack))
            }
            ServerAction::ParseAddress(text) => {
                assert_eq!(text, "10.0.0.2");
                ServerEvent::Address(Some(IpAddress::V4([10, 0, 0, 2])))
            }
            ServerAction::ReadClock => ServerEvent::Clock(now_ns),
            ServerAction::Poll => {
                ServerEvent::Polled { running: waiting.len() > 0, now_ns }
            }
            ServerAction::ReceiveSensor(_) => match waiting.next() {
                Some(packet) => ServerEvent::Sensor(SensorOutcome::Packet(*packet)),
                None => ServerEvent::Sensor(SensorOutcome::TryAgain),
            },
            ServerAction::AllocateFrame(header) => {
                headers.push(header);
                ServerEvent::Done(true)
            }
            ServerAction::SendControl(LatencyTestControlMessage::StopTest) => {
                return (run, headers)
            }
            ServerAction::Fail => panic!("the run failed"),
            _ => ServerEvent::Done(true),
        };
    }
}

/// The messages by which some reports reach the server.
fn forwarded(reports: Vec<LatencyTestFrameReport>) -> Vec<LatencyTestControlMessage> {
    let mut loop_state = ReportForwarder::new();
    let mut messages = Vec::new();
    let mut waiting = reports.into_iter();
    let mut event = ReportEvent::Begin;
    loop {
        let action = loop_state.tcp_report_loop(event);
        if let Some(message) = action.message() {
            messages.push(message);
        }
        event = match action {
            ReportAction::Wait(_) => match waiting.next() {
                Some(report) => ReportEvent::Report(report),
                None => ReportEvent::Disconnected,
            },
            ReportAction::Take => match waiting.next() {
                Some(report) => ReportEvent::Report(report),
                None => ReportEvent::Empty { ms_since_check: 0 },
            },
            ReportAction::Exit => return messages,
            ReportAction::Send(_) => ReportEvent::Sent { ok: true, ms_since_check: 0 },
            _ => ReportEvent::Done,
        };
    }
}

/// The lines that the server writes for some messages after it told the client to stop, and
/// whether it then finished.
fn lines(mut run: ServerRun, messages: Vec<LatencyTestControlMessage>) -> (Vec<String>, bool) {
    let mut lines = Vec::new();
    let mut waiting = messages.into_iter();
    let mut event = ServerEvent::Done(true);
    loop {
        event = match run.run_latency_test(event) {
            ServerAction::ReadClock => ServerEvent::Clock(2_000_000),
            ServerAction::ReceiveControl => match waiting.next() {
                Some(message) => ServerEvent::Message(Ok(message)),
                None => return (lines, false),
            },
            ServerAction::WriteRow { report, server_shards_sent } => {
                lines.push(csv_row(&report, server_shards_sent));
                ServerEvent::Done(true)
            }
            ServerAction::Finish => return (lines, true),
            ServerAction::Fail => panic!("the run failed"),
            _ => ServerEvent::Done(true),
        };
    }
}

#[test]
fn a_start_message_makes_the_client_run_the_same_test() {
    let mut server = ServerRun::new(config(), params());
    let message = match server.run_latency_test(ServerEvent::Begin) {
        ServerAction::SendControl(message) => message,
        other => panic!("{:?}", other),
    };
    let replies = vec![
        ConnectionReply::Done(true),
        ConnectionReply::Done(true),
        ConnectionReply::Message(Some(message)),
        ConnectionReply::Done(true),
        ConnectionReply::Peer(Some(IpAddress::V4([10, 0, 0, 1]))),
    ];
    assert_eq!(
        handle_connection(&replies),
        ConnectionStep::RunTest {
            config: config(),
            server_ip: IpAddress::V4([10, 0, 0, 1])
        }
    );
}

#[test]
fn a_run_asks_for_its_frames_at_the_interval() {
    let packets = packets_of_a_run();
    assert_eq!(
        packets,
        vec![
            LatencyTestSensorPacket { frame_index: 0, client_send_timestamp_ns: 0 },
            LatencyTestSensorPacket { frame_index: 1, client_send_timestamp_ns: 334_000_000 },
            LatencyTestSensorPacket { frame_index: 2, client_send_timestamp_ns: 667_000_000 },
        ]
    );
}

#[test]
fn answers_carry_the_stamps_of_their_packets() {
    let packets = packets_of_a_run();
    let (_, headers) = answers(&packets);
    assert_eq!(headers.len(), 3);
    for (packet, header) in packets.iter().zip(headers.iter()) {
        assert_eq!(header.frame_index, packet.frame_index);
        assert_eq!(header.client_send_timestamp_ns, packet.client_send_timestamp_ns);
        assert_eq!(header.server_recv_timestamp_ns, 0);
    }
}

#[test]
fn a_whole_test_leaves_one_line_per_frame() {
    let packets = packets_of_a_run();
    let (server, headers) = answers(&packets);

    // The second frame is lost on its way back.
    let mut processor = FrameProcessor::new(74);
    let mut reports = Vec::new();
    for (index, delay_ns) in [(0, 5_000_000), (2, 7_500_999)] {
        let header = headers[index];
        let step = processor.frame_process_loop(FrameEvent::Frame {
            header,
            recv_time_ns: header.client_send_timestamp_ns + delay_ns,
            sent_frames: 3,
        });
        match step {
            FrameStep::Continue(batch) => reports.extend(batch),
            FrameStep::Finish(_) => panic!("the loop ended early"),
        }
    }
    match processor.frame_process_loop(FrameEvent::Closed { sent_frames: 3 }) {
        FrameStep::Finish(batch) => reports.extend(batch),
        FrameStep::Continue(_) => panic!("the loop went on"),
    }

    let messages = forwarded(reports);
    assert_eq!(messages.len(), 4);
    assert_eq!(messages[3], LatencyTestControlMessage::TestComplete);

    let (lines, finished) = lines(server, messages);
    assert_eq!(lines, vec!["0,74,74,5000\n", "1,74,0,0\n", "2,74,74,7500\n"]);
    assert!(finished);
}

#[test]
fn reports_without_a_last_message_leave_the_server_waiting() {
    let (server, _) = answers(&packets_of_a_run());
    let report = LatencyTestFrameReport {
        frame_index: 7,
        shards_sent: 74,
        shards_received: 74,
        rtt_us: 1,
    };
    let messages = vec![LatencyTestControlMessage::FrameReport(report)];
    assert_eq!(lines(server, messages), (vec!["7,0,74,1\n".to_string()], false));
}

#[test]
fn only_sending_actions_have_a_message() {
    let report = LatencyTestFrameReport {
        frame_index: 1,
        shards_sent: 2,
        shards_received: 2,
        rtt_us: 3,
    };
    assert_eq!(
        ReportAction::Send(report).message(),
        Some(LatencyTestControlMessage::FrameReport(report))
    );
    assert_eq!(
        ReportAction::SendComplete.message(),
        Some(LatencyTestControlMessage::TestComplete)
    );
    assert_eq!(ReportAction::Take.message(), None);
    assert_eq!(ReportAction::Exit.message(), None);
}

#[test]
fn the_stop_message_stops_a_client_that_looks_for_it() {
    let mut client = ReportForwarder::new();
    client.tcp_report_loop(ReportEvent::Begin);
    assert_eq!(client.tcp_report_loop(ReportEvent::Timeout), ReportAction::CheckControl);
    assert_eq!(
        client.tcp_report_loop(ReportEvent::Control(Some(LatencyTestControlMessage::StopTest))),
        ReportAction::RaiseStop
    );
}
