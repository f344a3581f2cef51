use latency_link::client::frames::{FrameEvent, FrameProcessor, FrameStep};
use latency_link::packets::{LatencyTestFrameHeader, LatencyTestFrameReport};

fn frame(frame_index: u64, sent_ns: u64, recv_time_ns: u64, sent_frames: u64) -> FrameEvent {
    FrameEvent::Frame {
        header: LatencyTestFrameHeader {
            frame_index,
            client_send_timestamp_ns: sent_ns,
            server_recv_timestamp_ns: 0,
            server_send_timestamp_ns: 0,
        },
        recv_time_ns,
        sent_frames,
    }
}

fn report(frame_index: u64, shards_received: u32, rtt_us: u64) -> LatencyTestFrameReport {
    LatencyTestFrameReport { frame_index, shards_sent: 5, shards_received, rtt_us }
}

#[test]
fn a_frame_in_order_is_reported_with_its_round_trip() {
    let mut p = FrameProcessor::new(5);
    let step = p.frame_process_loop(frame(0, 1_000_000, 3_500_999, 1));
    assert_eq!(step, FrameStep::Continue(vec![report(0, 5, 2500)]));
    assert_eq!(p.next_expected_frame_index, 1);
}

#[test]
fn a_clock_that_went_back_gives_no_round_trip() {
    let mut p = FrameProcessor::new(5);
    let step = p.frame_process_loop(frame(0, 2_000, 1_000, 1));
    assert_eq!(step, FrameStep::Continue(vec![report(0, 5, 0)]));
}

#[test]
fn skipped_frames_are_lost() {
    let mut p = FrameProcessor::new(5);
    let step = p.frame_process_loop(frame(2, 0, 7_000, 3));
    assert_eq!(
        step,
        FrameStep::Continue(vec![report(0, 0, 0), report(1, 0, 0), report(2, 5, 7)])
    );
}

#[test]
fn a_late_frame_is_passed_over() {
    let mut p = FrameProcessor::new(5);
    p.frame_process_loop(frame(3, 0, 0, 4));
    assert_eq!(p.frame_process_loop(frame(1, 0, 0, 4)), FrameStep::Continue(vec![]));
    assert_eq!(p.frame_process_loop(frame(3, 0, 0, 4)), FrameStep::Continue(vec![]));
    assert_eq!(p.next_expected_frame_index, 4);
}

#[test]
fn frames_that_were_not_asked_for_are_not_lost() {
    let mut p = FrameProcessor::new(5);
    let step = p.frame_process_loop(frame(9, 0, 1_000, 2));
    assert_eq!(
        step,
        FrameStep::Continue(vec![report(0, 0, 0), report(1, 0, 0), report(9, 5, 1)])
    );
    assert_eq!(p.next_expected_frame_index, 10);
    assert_eq!(
        p.frame_process_loop(FrameEvent::Closed { sent_frames: 4 }),
        FrameStep::Finish(vec![])
    );
}

#[test]
fn a_frame_may_come_back_before_it_is_counted() {
    let mut p = FrameProcessor::new(5);
    assert_eq!(
        p.frame_process_loop(frame(0, 0, 1_000, 0)),
        FrameStep::Continue(vec![report(0, 5, 1)])
    );
    assert_eq!(
        p.frame_process_loop(frame(2, 0, 2_000, 2)),
        FrameStep::Continue(vec![report(1, 0, 0), report(2, 5, 2)])
    );
    assert_eq!(
        p.frame_process_loop(FrameEvent::Closed { sent_frames: 3 }),
        FrameStep::Finish(vec![])
    );
}

#[test]
fn nothing_is_reported_on_quiet_or_garbled_streams() {
    let mut p = FrameProcessor::new(5);
    assert_eq!(p.frame_process_loop(FrameEvent::TryAgain), FrameStep::Continue(vec![]));
    assert_eq!(p.frame_process_loop(FrameEvent::Undecodable), FrameStep::Continue(vec![]));
    assert_eq!(p, FrameProcessor::new(5));
}

#[test]
fn every_frame_is_reported_once_at_the_end() {
    let mut p = FrameProcessor::new(5);
    let mut all = Vec::new();
    let events = [
        frame(1, 0, 0, 2),
        FrameEvent::TryAgain,
        frame(0, 0, 0, 3),
        frame(4, 0, 0, 6),
        FrameEvent::Undecodable,
        FrameEvent::Closed { sent_frames: 8 },
    ];
    for event in events {
        match p.frame_process_loop(event) {
            FrameStep::Continue(r) => all.extend(r),
            FrameStep::Finish(r) => all.extend(r),
        }
    }
    let indices: Vec<u64> = all.iter().map(|r| r.frame_index).collect();
    assert_eq!(indices, vec![0, 1, 2, 3, 4, 5, 6, 7]);
    let received: Vec<u64> =
        all.iter().filter(|r| r.shards_received > 0).map(|r| r.frame_index).collect();
    assert_eq!(received, vec![1, 4]);
}
