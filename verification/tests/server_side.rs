use latency_link::packets::{
    IpAddress, LatencyTestConfig, LatencyTestControlMessage, LatencyTestFrameHeader,
    LatencyTestFrameReport, LatencyTestSensorPacket, LinkParams,
};
use latency_link::server::results::{
    create_csv_file, csv_row, results_file_name, CsvReply, CsvStep, LocalTime,
};
use latency_link::server::run::{
    RecvError, SensorOutcome, ServerAction, ServerEvent, ServerPhase, ServerRun,
};
use latency_link::server::{LatencyTestServer, StartAction, StartEvent};

fn config() -> LatencyTestConfig {
    LatencyTestConfig {
        client_ip: "10.0.0.2".to_string(),
        frame_size_kb: 100,
        frame_rate_hz: 90,
        duration_secs: 30,
    }
}

fn params() -> LinkParams {
    LinkParams {
        control_port: 9950,
        data_port: 9951,
        frame_stream_id: 11,
        sensor_stream_id: 12,
        max_packet_size: 1450,
        max_shard_data_size: 1400,
    }
}

fn ip() -> IpAddress {
    IpAddress::V4([10, 0, 0, 2])
}

fn report(frame_index: u64) -> LatencyTestFrameReport {
    LatencyTestFrameReport { frame_index, shards_sent: 1, shards_received: 74, rtt_us: 2500 }
}

fn done() -> ServerEvent {
    ServerEvent::Done(true)
}

fn answering(csv: bool, start_ns: u64) -> ServerRun {
    let mut run = ServerRun::new(config(), params());
    assert_eq!(
        run.run_latency_test(ServerEvent::Begin),
        ServerAction::SendControl(LatencyTestControlMessage::StartTest(config()))
    );
    assert_eq!(run.run_latency_test(done()), ServerAction::ReceiveControl);
    assert_eq!(
        run.run_latency_test(ServerEvent::Message(Ok(LatencyTestControlMessage::Ack))),
        ServerAction::ParseAddress("10.0.0.2".to_string())
    );
    assert_eq!(
        run.run_latency_test(ServerEvent::Address(Some(ip()))),
        ServerAction::ConnectData {
            ip: ip(),
            data_port: 9951,
            max_packet_size: 1450,
            recv_timeout_ms: 10
        }
    );
    assert_eq!(
        run.run_latency_test(done()),
        ServerAction::SendControl(LatencyTestControlMessage::DataReady)
    );
    assert_eq!(run.run_latency_test(done()), ServerAction::CreateCsv);
    assert_eq!(
        run.run_latency_test(ServerEvent::Done(csv)),
        ServerAction::OpenStreams { frame_stream_id: 11, sensor_stream_id: 12, max_unread: 256 }
    );
    assert_eq!(run.run_latency_test(done()), ServerAction::SpawnReceiver);
    assert_eq!(run.run_latency_test(done()), ServerAction::ReadClock);
    assert_eq!(run.expected_shards_count, 74);
    assert_eq!(run.run_latency_test(ServerEvent::Clock(start_ns)), ServerAction::ReadClock);
    assert_eq!(run.run_latency_test(ServerEvent::Clock(start_ns)), ServerAction::Poll);
    run
}

fn poll(run: &mut ServerRun, now_ns: u64) -> ServerAction {
    run.run_latency_test(ServerEvent::Polled { running: true, now_ns })
}

/// Answers one packet and comes back to the check of the clock.
fn answer(run: &mut ServerRun, frame_index: u64, now_ns: u64) {
    assert_eq!(poll(run, now_ns), ServerAction::ReceiveSensor(10));
    let packet = LatencyTestSensorPacket { frame_index, client_send_timestamp_ns: 777 };
    assert_eq!(
        run.run_latency_test(ServerEvent::Sensor(SensorOutcome::Packet(packet))),
        ServerAction::ReadClock
    );
    assert_eq!(run.run_latency_test(ServerEvent::Clock(now_ns + 5)), ServerAction::ReadClock);
    assert_eq!(
        run.run_latency_test(ServerEvent::Clock(now_ns + 9)),
        ServerAction::AllocateFrame(LatencyTestFrameHeader {
            frame_index,
            client_send_timestamp_ns: 777,
            server_recv_timestamp_ns: now_ns + 5 - 1000,
            server_send_timestamp_ns: now_ns + 9 - 1000,
        })
    );
    assert_eq!(
        run.run_latency_test(done()),
        ServerAction::SendFrame { payload_len: 102_400 }
    );
    assert_eq!(run.run_latency_test(done()), ServerAction::ReadClock);
}

fn drained(run: &mut ServerRun, now_ns: u64) {
    assert_eq!(run.run_latency_test(done()), ServerAction::JoinReceiver);
    assert_eq!(
        run.run_latency_test(done()),
        ServerAction::SendControl(LatencyTestControlMessage::StopTest)
    );
    assert_eq!(run.run_latency_test(done()), ServerAction::ReadClock);
    assert_eq!(
        run.run_latency_test(ServerEvent::Clock(now_ns)),
        ServerAction::SetReadTimeout(100)
    );
    assert_eq!(run.run_latency_test(ServerEvent::Done(false)), ServerAction::ReadClock);
}

#[test]
fn packets_are_answered_and_reports_written_down() {
    let mut run = answering(true, 1000);
    answer(&mut run, 3, 2000);
    // Not yet time to look for control messages.
    assert_eq!(run.run_latency_test(ServerEvent::Clock(50_000_999)), ServerAction::Poll);
    answer(&mut run, 4, 60_000_000);
    assert_eq!(run.run_latency_test(ServerEvent::Clock(60_000_000)), ServerAction::PollControl);
    let control = |m| ServerEvent::Control(Some(m));
    assert_eq!(
        run.run_latency_test(control(LatencyTestControlMessage::FrameReport(report(3)))),
        ServerAction::WriteRow { report: report(3), server_shards_sent: 74 }
    );
    assert_eq!(run.run_latency_test(ServerEvent::Done(false)), ServerAction::PollControl);
    // A second report on the same frame, and one on a frame that was never sent.
    assert_eq!(
        run.run_latency_test(control(LatencyTestControlMessage::FrameReport(report(3)))),
        ServerAction::WriteRow { report: report(3), server_shards_sent: 0 }
    );
    run.run_latency_test(done());
    assert_eq!(
        run.run_latency_test(control(LatencyTestControlMessage::FrameReport(report(8)))),
        ServerAction::WriteRow { report: report(8), server_shards_sent: 0 }
    );
    run.run_latency_test(done());
    assert_eq!(
        run.run_latency_test(control(LatencyTestControlMessage::Ack)),
        ServerAction::PollControl
    );
    assert_eq!(run.run_latency_test(ServerEvent::Control(None)), ServerAction::ReadClock);
    assert_eq!(run.run_latency_test(ServerEvent::Clock(61_000_000)), ServerAction::Poll);
    // The last report comes while the test is wound down.
    let late = ServerEvent::Polled { running: false, now_ns: 62_000_000 };
    assert_eq!(run.run_latency_test(late), ServerAction::StopReceiver);
    drained(&mut run, 100);
    assert_eq!(run.run_latency_test(ServerEvent::Clock(100)), ServerAction::ReceiveControl);
    let message = ServerEvent::Message(Ok(LatencyTestControlMessage::FrameReport(report(4))));
    assert_eq!(
        run.run_latency_test(message),
        ServerAction::WriteRow { report: report(4), server_shards_sent: 74 }
    );
    assert_eq!(run.run_latency_test(done()), ServerAction::ReadClock);
    assert_eq!(run.run_latency_test(ServerEvent::Clock(200)), ServerAction::ReceiveControl);
    assert_eq!(
        run.run_latency_test(ServerEvent::Message(Ok(LatencyTestControlMessage::TestComplete))),
        ServerAction::FlushCsv
    );
    assert_eq!(run.run_latency_test(ServerEvent::Done(false)), ServerAction::ClearRunning);
    assert_eq!(run.run_latency_test(done()), ServerAction::Finish);
    assert_eq!(run.phase, ServerPhase::Finished);
}

#[test]
fn without_a_file_reports_are_only_settled() {
    let mut run = answering(false, 1000);
    answer(&mut run, 0, 60_000_000);
    run.run_latency_test(ServerEvent::Clock(60_000_000));
    let message = LatencyTestControlMessage::FrameReport(report(0));
    assert_eq!(
        run.run_latency_test(ServerEvent::Control(Some(message))),
        ServerAction::PollControl
    );
    assert!(run.frames_sent.is_empty());
    assert_eq!(
        run.run_latency_test(ServerEvent::Control(Some(LatencyTestControlMessage::TestComplete))),
        ServerAction::StopReceiver
    );
    drained(&mut run, 5);
    assert_eq!(
        run.run_latency_test(ServerEvent::Clock(3_000_000_005)),
        ServerAction::ClearRunning
    );
}

#[test]
fn the_test_ends_when_its_time_is_up() {
    let mut run = answering(true, 1000);
    assert_eq!(poll(&mut run, 30_500_000_999), ServerAction::ReceiveSensor(10));
    let mut run = answering(true, 1000);
    assert_eq!(poll(&mut run, 30_500_001_000), ServerAction::StopReceiver);
}

#[test]
fn a_packet_that_cannot_be_decoded_is_passed_over() {
    let mut run = answering(true, 1000);
    poll(&mut run, 2000);
    assert_eq!(
        run.run_latency_test(ServerEvent::Sensor(SensorOutcome::Undecodable)),
        ServerAction::Poll
    );
    poll(&mut run, 2000);
    assert_eq!(
        run.run_latency_test(ServerEvent::Sensor(SensorOutcome::TryAgain)),
        ServerAction::ReadClock
    );
}

#[test]
fn a_stream_that_fails_ends_the_answering() {
    let mut run = answering(true, 1000);
    poll(&mut run, 2000);
    assert_eq!(
        run.run_latency_test(ServerEvent::Sensor(SensorOutcome::Failed)),
        ServerAction::StopReceiver
    );
    let mut run = answering(true, 1000);
    poll(&mut run, 2000);
    let packet = LatencyTestSensorPacket { frame_index: 0, client_send_timestamp_ns: 0 };
    run.run_latency_test(ServerEvent::Sensor(SensorOutcome::Packet(packet)));
    run.run_latency_test(ServerEvent::Clock(0));
    run.run_latency_test(ServerEvent::Clock(0));
    assert_eq!(run.run_latency_test(ServerEvent::Done(false)), ServerAction::StopReceiver);
    assert!(run.frames_sent.is_empty());
}

#[test]
fn draining_survives_timeouts_but_not_other_errors() {
    for (error, action) in [
        (RecvError::TimedOut, ServerAction::ReadClock),
        (RecvError::WouldBlock, ServerAction::ReadClock),
        (RecvError::Other, ServerAction::FlushCsv),
    ] {
        let mut run = answering(true, 1000);
        run.run_latency_test(ServerEvent::Polled { running: false, now_ns: 0 });
        drained(&mut run, 0);
        run.run_latency_test(ServerEvent::Clock(0));
        assert_eq!(run.run_latency_test(ServerEvent::Message(Err(error))), action);
    }
}

#[test]
fn a_client_that_does_not_answer_fails_the_test() {
    let mut run = ServerRun::new(config(), params());
    run.run_latency_test(ServerEvent::Begin);
    run.run_latency_test(done());
    assert_eq!(
        run.run_latency_test(ServerEvent::Message(Err(RecvError::TimedOut))),
        ServerAction::Fail
    );
    assert_eq!(run.run_latency_test(done()), ServerAction::Fail);
}

#[test]
fn an_unexpected_answer_does_not_fail_the_test() {
    let mut run = ServerRun::new(config(), params());
    run.run_latency_test(ServerEvent::Begin);
    run.run_latency_test(done());
    assert_eq!(
        run.run_latency_test(ServerEvent::Message(Ok(LatencyTestControlMessage::TestComplete))),
        ServerAction::ParseAddress("10.0.0.2".to_string())
    );
    assert_eq!(run.run_latency_test(ServerEvent::Address(None)), ServerAction::Fail);
}

#[test]
fn a_test_is_started_and_stopped() {
    let mut server = LatencyTestServer::new();
    let c = config();
    assert_eq!(
        server.start(&c, 9950, StartEvent::Begin),
        StartAction::ParseAddress("10.0.0.2".to_string())
    );
    assert_eq!(
        server.start(&c, 9950, StartEvent::AddressParsed(Some(ip()))),
        StartAction::Connect { ip: ip(), port: 9950, timeout_ms: 5000 }
    );
    assert_eq!(
        server.start(&c, 9950, StartEvent::Connected(true)),
        StartAction::SetReadTimeout(1000)
    );
    assert_eq!(
        server.start(&c, 9950, StartEvent::ReadTimeoutSet(true)),
        StartAction::SetNoDelay
    );
    assert!(!server.is_running());
    assert_eq!(server.start(&c, 9950, StartEvent::NoDelaySet(true)), StartAction::Spawn);
    assert!(server.is_running());
    assert!(server.stop());
    assert!(!server.is_running());
    assert!(!server.stop());
}

#[test]
fn a_running_test_is_stopped_before_another_is_started() {
    let mut server = LatencyTestServer::new();
    let c = config();
    server.start(&c, 1, StartEvent::NoDelaySet(true));
    assert_eq!(
        server.start(&c, 1, StartEvent::Begin),
        StartAction::JoinPrevious { join: true }
    );
    assert!(!server.is_running());
    assert_eq!(
        server.start(&c, 1, StartEvent::Stopped),
        StartAction::ParseAddress("10.0.0.2".to_string())
    );
    for failure in [
        StartEvent::AddressParsed(None),
        StartEvent::Connected(false),
        StartEvent::ReadTimeoutSet(false),
        StartEvent::NoDelaySet(false),
    ] {
        assert_eq!(server.start(&c, 1, failure), StartAction::Fail);
        assert!(!server.is_running());
    }
}

#[test]
fn a_test_that_ended_leaves_its_thread_to_be_joined() {
    let mut server = LatencyTestServer::new();
    server.start(&config(), 1, StartEvent::NoDelaySet(true));
    server.clear_running();
    assert!(!server.is_running());
    assert!(server.stop());
}

fn moment() -> LocalTime {
    LocalTime { year: 2024, month: 2, day: 29, hour: 7, minute: 5, second: 9 }
}

#[test]
fn results_files_are_named_after_the_test_and_the_moment() {
    assert_eq!(
        results_file_name(&config(), &moment()),
        Some("latency_test_90Hz_100KB_20240229_070509.csv".to_string())
    );
    let mut early = moment();
    early.year = 33;
    early.day = 28;
    assert_eq!(
        results_file_name(&config(), &early),
        Some("latency_test_90Hz_100KB_00330228_070509.csv".to_string())
    );
    let mut late = moment();
    late.year = 12024;
    assert_eq!(
        results_file_name(&config(), &late),
        Some("latency_test_90Hz_100KB_+120240229_070509.csv".to_string())
    );
    let mut ancient = moment();
    ancient.year = -4;
    assert_eq!(
        results_file_name(&config(), &ancient),
        Some("latency_test_90Hz_100KB_-00040229_070509.csv".to_string())
    );
}

#[test]
fn there_is_no_name_for_a_moment_that_is_none() {
    let with = |f: fn(&mut LocalTime)| {
        let mut t = moment();
        f(&mut t);
        results_file_name(&config(), &t)
    };
    assert_eq!(with(|t| t.year = 2023), None);
    assert_eq!(with(|t| t.year = 1900), None);
    assert!(with(|t| t.year = 2000).is_some());
    assert_eq!(with(|t| t.month = 0), None);
    assert_eq!(with(|t| t.month = 13), None);
    assert_eq!(with(|t| t.day = 0), None);
    assert_eq!(with(|t| t.hour = 24), None);
    assert_eq!(with(|t| t.minute = 60), None);
    assert_eq!(with(|t| t.second = 60), None);
    assert!(with(|t| { t.year = 262142; t.day = 1 }).is_some());
    assert_eq!(with(|t| { t.year = 262143; t.day = 1 }), None);
    assert!(with(|t| { t.year = -262143; t.day = 1 }).is_some());
    assert_eq!(with(|t| { t.year = -262144; t.day = 1 }), None);
    for (month, last) in [(1, 31), (4, 30), (6, 30), (9, 30), (11, 30), (12, 31)] {
        let mut t = moment();
        t.month = month;
        t.day = last;
        assert!(results_file_name(&config(), &t).is_some());
        t.day = last + 1;
        assert!(results_file_name(&config(), &t).is_none());
    }
}

#[test]
fn a_results_file_is_created_step_by_step() {
    let mut replies = Vec::new();
    assert_eq!(create_csv_file(&config(), &replies), CsvStep::CreateDir("results".to_string()));
    replies.push(CsvReply::Done(true));
    assert_eq!(create_csv_file(&config(), &replies), CsvStep::ReadLocalTime);
    replies.push(CsvReply::Time(moment()));
    assert_eq!(
        create_csv_file(&config(), &replies),
        CsvStep::CreateFile("latency_test_90Hz_100KB_20240229_070509.csv".to_string())
    );
    replies.push(CsvReply::Done(true));
    assert_eq!(
        create_csv_file(&config(), &replies),
        CsvStep::Write("frame_index,shards_sent,shards_received,rtt_us\n".to_string())
    );
    replies.push(CsvReply::Done(true));
    assert_eq!(create_csv_file(&config(), &replies), CsvStep::Flush);
    replies.push(CsvReply::Done(true));
    assert_eq!(create_csv_file(&config(), &replies), CsvStep::Return);
    for i in [0usize, 2, 3, 4] {
        let mut failing = replies[..i].to_vec();
        failing.push(CsvReply::Done(false));
        assert_eq!(create_csv_file(&config(), &failing), CsvStep::Fail);
    }
}

#[test]
fn a_row_lists_the_frame_the_shards_and_the_time() {
    assert_eq!(csv_row(&report(12), 74), "12,74,74,2500\n");
    let lost =
        LatencyTestFrameReport { frame_index: 0, shards_sent: 74, shards_received: 0, rtt_us: 0 };
    assert_eq!(csv_row(&lost, 0), "0,0,0,0\n");
    assert_ne!(csv_row(&lost, 0), csv_row(&lost, 1));
}

#[test]
fn the_first_check_is_counted_from_its_own_reading_of_the_clock() {
    for (now_ns, action) in
        [(50_001_499, ServerAction::Poll), (50_001_500, ServerAction::PollControl)]
    {
        let mut run = ServerRun::new(config(), params());
        run.run_latency_test(ServerEvent::Begin);
        run.run_latency_test(done());
        run.run_latency_test(ServerEvent::Message(Ok(LatencyTestControlMessage::Ack)));
        run.run_latency_test(ServerEvent::Address(Some(ip())));
        for _ in 0..5 {
            run.run_latency_test(done());
        }
        assert_eq!(run.phase, ServerPhase::ReadingStart);
        assert_eq!(run.run_latency_test(ServerEvent::Clock(1_000)), ServerAction::ReadClock);
        assert_eq!(run.run_latency_test(ServerEvent::Clock(1_500)), ServerAction::Poll);
        assert_eq!((run.start_ns, run.last_check_ns), (1_000, 1_500));
        poll(&mut run, 2_000);
        run.run_latency_test(ServerEvent::Sensor(SensorOutcome::TryAgain));
        assert_eq!(run.run_latency_test(ServerEvent::Clock(now_ns)), action);
    }
}
