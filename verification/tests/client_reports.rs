use latency_link::client::reports::{ReportAction, ReportEvent, ReportForwarder, ReportPhase};
use latency_link::packets::{LatencyTestControlMessage, LatencyTestFrameReport};

fn report(frame_index: u64) -> LatencyTestFrameReport {
    LatencyTestFrameReport { frame_index, shards_sent: 1, shards_received: 1, rtt_us: 1 }
}

fn sent(ok: bool) -> ReportEvent {
    ReportEvent::Sent { ok, ms_since_check: 10 }
}

fn waiting() -> ReportForwarder {
    let mut f = ReportForwarder::new();
    assert_eq!(f.tcp_report_loop(ReportEvent::Begin), ReportAction::Wait(200));
    f
}

#[test]
fn reports_are_forwarded_and_counted() {
    let mut f = waiting();
    assert_eq!(f.tcp_report_loop(ReportEvent::Report(report(0))), ReportAction::Send(report(0)));
    assert_eq!(f.tcp_report_loop(sent(true)), ReportAction::Take);
    assert_eq!(f.tcp_report_loop(ReportEvent::Report(report(1))), ReportAction::Send(report(1)));
    assert_eq!(f.tcp_report_loop(sent(false)), ReportAction::Take);
    assert_eq!(
        f.tcp_report_loop(ReportEvent::Empty { ms_since_check: 10 }),
        ReportAction::Wait(190)
    );
    assert_eq!(f.total_frames_reported, 2);
}

#[test]
fn a_first_report_that_cannot_be_sent_ends_the_loop() {
    let mut f = waiting();
    f.tcp_report_loop(ReportEvent::Report(report(0)));
    assert_eq!(f.tcp_report_loop(sent(false)), ReportAction::Exit);
    assert_eq!(f.phase, ReportPhase::Ended);
    assert_eq!(f.total_frames_reported, 0);
}

#[test]
fn the_stop_command_raises_the_flag() {
    let mut f = waiting();
    assert_eq!(f.tcp_report_loop(ReportEvent::Timeout), ReportAction::CheckControl);
    assert_eq!(
        f.tcp_report_loop(ReportEvent::Control(Some(LatencyTestControlMessage::StopTest))),
        ReportAction::RaiseStop
    );
    assert_eq!(f.tcp_report_loop(ReportEvent::Done), ReportAction::Wait(200));
}

#[test]
fn other_messages_do_not_raise_the_flag() {
    for message in [None, Some(LatencyTestControlMessage::DataReady)] {
        let mut f = waiting();
        f.tcp_report_loop(ReportEvent::Timeout);
        assert_eq!(f.tcp_report_loop(ReportEvent::Control(message)), ReportAction::Wait(200));
    }
}

#[test]
fn the_stop_command_is_looked_for_under_load() {
    let mut f = waiting();
    f.tcp_report_loop(ReportEvent::Report(report(0)));
    f.tcp_report_loop(sent(true));
    assert_eq!(
        f.tcp_report_loop(ReportEvent::Empty { ms_since_check: 200 }),
        ReportAction::CheckControl
    );
}

#[test]
fn the_stop_command_is_looked_for_though_reports_never_cease() {
    let mut f = waiting();
    f.tcp_report_loop(ReportEvent::Report(report(0)));
    assert_eq!(
        f.tcp_report_loop(ReportEvent::Sent { ok: true, ms_since_check: 199 }),
        ReportAction::Take
    );
    f.tcp_report_loop(ReportEvent::Report(report(1)));
    assert_eq!(
        f.tcp_report_loop(ReportEvent::Sent { ok: false, ms_since_check: 200 }),
        ReportAction::CheckControl
    );
    assert_eq!(f.tcp_report_loop(ReportEvent::Control(None)), ReportAction::Take);
    f.tcp_report_loop(ReportEvent::Report(report(2)));
    f.tcp_report_loop(ReportEvent::Sent { ok: true, ms_since_check: 230 });
    assert_eq!(
        f.tcp_report_loop(ReportEvent::Control(Some(LatencyTestControlMessage::StopTest))),
        ReportAction::RaiseStop
    );
    assert_eq!(f.tcp_report_loop(ReportEvent::Done), ReportAction::Take);
    assert_eq!(f.total_frames_reported, 3);
}

#[test]
fn what_is_left_is_forwarded_before_completion() {
    let mut f = waiting();
    assert_eq!(f.tcp_report_loop(ReportEvent::Disconnected), ReportAction::Take);
    assert_eq!(f.tcp_report_loop(ReportEvent::Report(report(7))), ReportAction::Send(report(7)));
    assert_eq!(f.tcp_report_loop(sent(false)), ReportAction::Take);
    assert_eq!(
        f.tcp_report_loop(ReportEvent::Empty { ms_since_check: 1000 }),
        ReportAction::SendComplete
    );
    assert_eq!(f.tcp_report_loop(sent(true)), ReportAction::Exit);
    assert_eq!(f.tcp_report_loop(ReportEvent::Begin), ReportAction::Exit);
    assert_eq!(f.total_frames_reported, 1);
}
