//! The client's account of the frames that come back: each frame that was asked for is reported
//! once, as received or as lost.

use vstd::prelude::*;
use crate::packets::{LatencyTestFrameHeader, LatencyTestFrameReport};

verus! {

/// How long one wait for a frame lasts.
pub const FRAME_RECV_TIMEOUT_MS: u64 = 50;

/// The report on a frame that did not come back.
pub open spec fn lost_report(frame_index: int, shards: u32) -> LatencyTestFrameReport {
    LatencyTestFrameReport {
        frame_index: frame_index as u64,
        shards_sent: shards,
        shards_received: 0,
        rtt_us: 0,
    }
}

/// Reports on the frames from `from` up to but not at `to`, all lost.
pub open spec fn lost_reports(from: int, to: int, shards: u32) -> Seq<LatencyTestFrameReport> {
    Seq::new(
        if from < to {
            (to - from) as nat
        } else {
            0
        },
        |k: int| lost_report(from + k, shards),
    )
}

/// Round trip time in whole microseconds; none where the clock seems to have gone back.
pub open spec fn rtt_us(sent_ns: u64, received_ns: u64) -> u64 {
    if received_ns < sent_ns {
        0
    } else {
        ((received_ns - sent_ns) / 1000) as u64
    }
}

/// The report on a frame that came back.
pub open spec fn received_report(
    header: LatencyTestFrameHeader,
    recv_time_ns: u64,
    shards: u32,
) -> LatencyTestFrameReport {
    LatencyTestFrameReport {
        frame_index: header.frame_index,
        shards_sent: shards,
        shards_received: shards,
        rtt_us: rtt_us(header.client_send_timestamp_ns, recv_time_ns),
    }
}

/// What happened on the frame stream.
#[derive(Clone, Copy, Debug, PartialEq, Eq)]
pub enum FrameEvent {
    /// A frame came back, at `recv_time_ns`, when `sent_frames` frames had been asked for.
    Frame { header: LatencyTestFrameHeader, recv_time_ns: u64, sent_frames: u64 },
    /// A packet came whose header cannot be decoded.
    Undecodable,
    /// Nothing came in time.
    TryAgain,
    /// The stream ended, when `sent_frames` frames had been asked for.
    Closed { sent_frames: u64 },
}

/// What is done about it: these reports are handed on, in this order.
#[derive(Debug, PartialEq, Eq)]
pub enum FrameStep {
    /// Wait for the next frame.
    Continue(Vec<LatencyTestFrameReport>),
    /// Stop; no report follows.
    Finish(Vec<LatencyTestFrameReport>),
}

impl FrameStep {
    /// The reports that are handed on.
    pub open spec fn reports(self) -> Seq<LatencyTestFrameReport> {
        match self {
            FrameStep::Continue(r) => r@,
            FrameStep::Finish(r) => r@,
        }
    }
}

/// The reports that an event leads to, where the frames below `next` have been dealt with. A
/// frame that is late is passed over; one that is early makes those before it lost, as far as
/// they had been asked for.
pub open spec fn event_reports(next: u64, shards: u32, event: FrameEvent) -> Seq<
    LatencyTestFrameReport,
> {
    match event {
        FrameEvent::Frame { header, recv_time_ns, sent_frames } => {
            if header.frame_index < next {
                Seq::empty()
            } else {
                let gap_end = if header.frame_index < sent_frames {
                    header.frame_index
                } else {
                    sent_frames
                };
                lost_reports(next as int, gap_end as int, shards).push(
                    received_report(header, recv_time_ns, shards),
                )
            }
        },
        FrameEvent::Closed { sent_frames } => lost_reports(next as int, sent_frames as int, shards),
        _ => Seq::empty(),
    }
}

/// The first frame that has not been dealt with after an event.
pub open spec fn event_next(next: u64, event: FrameEvent) -> int {
    match event {
        FrameEvent::Frame { header, .. } => if header.frame_index < next {
            next as int
        } else {
            header.frame_index + 1
        },
        FrameEvent::Closed { sent_frames } => if sent_frames < next {
            next as int
        } else {
            sent_frames as int
        },
        _ => next as int,
    }
}

/// Whether an event's frame index leaves room for a next one.
pub open spec fn event_fits(event: FrameEvent) -> bool {
    event is Frame ==> event->header.frame_index < u64::MAX
}

/// State of the loop that turns frames into reports.
#[derive(Clone, Copy, Debug, PartialEq, Eq)]
pub struct FrameProcessor {
    pub expected_shards_count: u32,
    pub next_expected_frame_index: u64,
}

impl FrameProcessor {
    pub fn new(expected_shards_count: u32) -> (p: Self)
        ensures
            p.expected_shards_count == expected_shards_count,
            p.next_expected_frame_index == 0,
    {
        FrameProcessor { expected_shards_count, next_expected_frame_index: 0 }
    }

    fn report_lost_until(&mut self, end: u64, reports: &mut Vec<LatencyTestFrameReport>)
        ensures
            final(reports)@ == old(reports)@ + lost_reports(
                old(self).next_expected_frame_index as int,
                end as int,
                old(self).expected_shards_count,
            ),
            final(self).expected_shards_count == old(self).expected_shards_count,
            final(self).next_expected_frame_index == (if old(self).next_expected_frame_index < end {
                end
            } else {
                old(self).next_expected_frame_index
            }),
    {
        let ghost first = self.next_expected_frame_index as int;
        let ghost before = reports@;
        let ghost shards = self.expected_shards_count;
        proof {
            assert(before + lost_reports(first, first, shards) =~= before);
            if end <= first {
                assert(lost_reports(first, end as int, shards) =~= lost_reports(
                    first,
                    first,
                    shards,
                ));
            }
        }
        while self.next_expected_frame_index < end
            invariant
                first <= self.next_expected_frame_index,
                first < end ==> self.next_expected_frame_index <= end,
                first >= end ==> self.next_expected_frame_index == first,
                self.expected_shards_count == shards,
                reports@ == before + lost_reports(
                    first,
                    self.next_expected_frame_index as int,
                    shards,
                ),
            decreases end - self.next_expected_frame_index,
        {
            reports.push(
                LatencyTestFrameReport {
                    frame_index: self.next_expected_frame_index,
                    shards_sent: self.expected_shards_count,
                    shards_received: 0,
                    rtt_us: 0,
                },
            );
            proof {
                let n = self.next_expected_frame_index as int;
                assert(lost_reports(first, n + 1, shards) =~= lost_reports(first, n, shards).push(
                    lost_report(n, shards),
                ));
            }
            self.next_expected_frame_index = self.next_expected_frame_index + 1;
        }
    }

    /// One turn of the loop: the reports that an event leads to.
    pub fn frame_process_loop(&mut self, event: FrameEvent) -> (step: FrameStep)
        requires
            event_fits(event),
        ensures
            step.reports() == event_reports(
                old(self).next_expected_frame_index,
                old(self).expected_shards_count,
                event,
            ),
            step is Finish <==> event is Closed,
            final(self).expected_shards_count == old(self).expected_shards_count,
            final(self).next_expected_frame_index == event_next(
                old(self).next_expected_frame_index,
                event,
            ),
    {
        let mut reports: Vec<LatencyTestFrameReport> = Vec::new();
        match event {
            FrameEvent::Frame { header, recv_time_ns, sent_frames } => {
                let gap_end: u64 = if header.frame_index < sent_frames {
                    header.frame_index
                } else {
                    sent_frames
                };
                let ghost next = self.next_expected_frame_index;
                self.report_lost_until(gap_end, &mut reports);
                if header.frame_index < self.next_expected_frame_index {
                    return FrameStep::Continue(reports);
                }
                proof {
                    assert(reports@ =~= lost_reports(
                        next as int,
                        gap_end as int,
                        self.expected_shards_count,
                    ));
                }
                let rtt_us: u64 = recv_time_ns.saturating_sub(header.client_send_timestamp_ns)
                    / 1000;
                reports.push(
                    LatencyTestFrameReport {
                        frame_index: header.frame_index,
                        shards_sent: self.expected_shards_count,
                        shards_received: self.expected_shards_count,
                        rtt_us,
                    },
                );
                self.next_expected_frame_index = header.frame_index + 1;
                FrameStep::Continue(reports)
            },
            FrameEvent::Undecodable | FrameEvent::TryAgain => FrameStep::Continue(reports),
            FrameEvent::Closed { sent_frames } => {
                self.report_lost_until(sent_frames, &mut reports);
                FrameStep::Finish(reports)
            },
        }
    }
}

/// The first frame that has not been dealt with after a row of events.
pub open spec fn next_after(events: Seq<FrameEvent>) -> int
    decreases events.len(),
{
    if events.len() == 0 {
        0
    } else {
        event_next(next_after(events.drop_last()) as u64, events.last())
    }
}

/// All reports that a row of events leads to.
pub open spec fn reports_after(events: Seq<FrameEvent>, shards: u32) -> Seq<LatencyTestFrameReport>
    decreases events.len(),
{
    if events.len() == 0 {
        Seq::empty()
    } else {
        reports_after(events.drop_last(), shards) + event_reports(
            next_after(events.drop_last()) as u64,
            shards,
            events.last(),
        )
    }
}

/// Whether every event of a row can be taken.
pub open spec fn all_fit(events: Seq<FrameEvent>) -> bool {
    forall|i: int| 0 <= i < events.len() ==> event_fits(#[trigger] events[i])
}

/// The number of frames asked for that an event carries.
pub open spec fn sent_at(event: FrameEvent) -> Option<u64> {
    match event {
        FrameEvent::Frame { sent_frames, .. } => Some(sent_frames),
        FrameEvent::Closed { sent_frames } => Some(sent_frames),
        _ => None,
    }
}

/// Whether the events fit a test in which `total` frames are asked for in all: the number known to
/// be asked for is never above that, and only frames come back that were asked for. A frame may come
/// back just before it is counted, so its index may be the number known by then.
pub open spec fn only_requested_frames(events: Seq<FrameEvent>, total: u64) -> bool {
    &&& forall|i: int|
        0 <= i < events.len() && sent_at(#[trigger] events[i]) is Some ==> sent_at(events[i])->0
            <= total
    &&& forall|i: int|
        0 <= i < events.len() && #[trigger] events[i] is Frame ==> {
            &&& events[i]->header.frame_index <= events[i]->Frame_sent_frames
            &&& events[i]->header.frame_index < total
        }
}

proof fn lemma_next_in_range(events: Seq<FrameEvent>)
    requires
        all_fit(events),
    ensures
        0 <= next_after(events) <= u64::MAX,
    decreases events.len(),
{
    if events.len() > 0 {
        let before = events.drop_last();
        assert forall|i: int| 0 <= i < before.len() implies event_fits(#[trigger] before[i]) by {
            assert(before[i] == events[i]);
        }
        lemma_next_in_range(before);
        assert(event_fits(events[events.len() - 1]));
    }
}

/// Over a whole test the reports come in the order of their frames, no frame is reported twice,
/// and every reported frame counts as dealt with.
pub proof fn no_frame_is_reported_twice(events: Seq<FrameEvent>, shards: u32)
    requires
        all_fit(events),
    ensures
        forall|i: int, j: int|
            0 <= i < j < reports_after(events, shards).len() ==> (#[trigger] reports_after(
                events,
                shards,
            )[i]).frame_index < (#[trigger] reports_after(events, shards)[j]).frame_index,
        forall|i: int|
            0 <= i < reports_after(events, shards).len() ==> (#[trigger] reports_after(
                events,
                shards,
            )[i]).frame_index < next_after(events),
    decreases events.len(),
{
    if events.len() > 0 {
        let before = events.drop_last();
        assert forall|i: int| 0 <= i < before.len() implies event_fits(#[trigger] before[i]) by {
            assert(before[i] == events[i]);
        }
        no_frame_is_reported_twice(before, shards);
        lemma_next_in_range(before);
        let old_reports = reports_after(before, shards);
        let next = next_after(before) as u64;
        let new = event_reports(next, shards, events.last());
        let all = reports_after(events, shards);
        assert(event_fits(events[events.len() - 1]));
        assert(all == old_reports + new);
        assert forall|k: int| 0 <= k < new.len() implies next <= (#[trigger] new[k]).frame_index
            && new[k].frame_index < next_after(events) by {}
        assert forall|i: int, j: int| 0 <= i < j < all.len() implies (#[trigger] all[i]).frame_index
            < (#[trigger] all[j]).frame_index by {
            if j >= old_reports.len() {
                assert(all[j] == new[j - old_reports.len()]);
                if i >= old_reports.len() {
                    assert(all[i] == new[i - old_reports.len()]);
                } else {
                    assert(all[i] == old_reports[i]);
                }
            } else {
                assert(all[i] == old_reports[i] && all[j] == old_reports[j]);
            }
        }
        assert forall|i: int| 0 <= i < all.len() implies (#[trigger] all[i]).frame_index
            < next_after(events) by {
            if i >= old_reports.len() {
                assert(all[i] == new[i - old_reports.len()]);
            } else {
                assert(all[i] == old_reports[i]);
            }
        }
    }
}

proof fn lemma_reports_are_gapless(events: Seq<FrameEvent>, shards: u32, total: u64)
    requires
        only_requested_frames(events, total),
    ensures
        0 <= next_after(events) <= total,
        reports_after(events, shards).len() == next_after(events),
        forall|i: int|
            0 <= i < reports_after(events, shards).len() ==> (#[trigger] reports_after(
                events,
                shards,
            )[i]).frame_index == i,
    decreases events.len(),
{
    if events.len() > 0 {
        let before = events.drop_last();
        let last = events[events.len() - 1];
        assert(forall|i: int| 0 <= i < before.len() ==> #[trigger] before[i] == events[i]);
        lemma_reports_are_gapless(before, shards, total);
        let old_reports = reports_after(before, shards);
        let next = next_after(before) as u64;
        let new = event_reports(next, shards, last);
        let all = reports_after(events, shards);
        assert(sent_at(last) is Some ==> sent_at(last)->0 <= total);
        assert(all == old_reports + new);
        assert forall|i: int| 0 <= i < all.len() implies (#[trigger] all[i]).frame_index == i by {
            if i >= old_reports.len() {
                assert(all[i] == new[i - old_reports.len()]);
            } else {
                assert(all[i] == old_reports[i]);
            }
        }
    }
}

/// When the test is over, each frame that was asked for has been reported exactly once: the
/// `i`-th report is on frame `i`, and there are as many reports as frames asked for. This is said
/// of streams that bring back only frames that were asked for.
pub proof fn every_requested_frame_is_reported_once(
    events: Seq<FrameEvent>,
    shards: u32,
    sent_frames: u64,
)
    requires
        only_requested_frames(events, sent_frames),
        events.len() > 0,
        events.last() == (FrameEvent::Closed { sent_frames }),
    ensures
        reports_after(events, shards).len() == sent_frames,
        forall|i: int|
            0 <= i < sent_frames ==> (#[trigger] reports_after(events, shards)[i]).frame_index == i,
{
    lemma_reports_are_gapless(events, shards, sent_frames);
}

/// A report says one of two things: that nothing of the frame came, or that all of it came, in
/// the time between the stamps of a frame that did come back under that index.
pub proof fn a_report_is_on_a_lost_or_a_returned_frame(
    events: Seq<FrameEvent>,
    shards: u32,
    i: int,
)
    requires
        all_fit(events),
        0 <= i < reports_after(events, shards).len(),
    ensures
        ({
            let report = reports_after(events, shards)[i];
            ||| report == lost_report(report.frame_index as int, shards)
            ||| exists|k: int|
                0 <= k < events.len() && #[trigger] events[k] is Frame && report == received_report(
                    events[k]->header,
                    events[k]->recv_time_ns,
                    shards,
                )
        }),
    decreases events.len(),
{
    let before = events.drop_last();
    let old_reports = reports_after(before, shards);
    let report = reports_after(events, shards)[i];
    assert forall|k: int| 0 <= k < before.len() implies event_fits(#[trigger] before[k]) by {
        assert(before[k] == events[k]);
    }
    lemma_next_in_range(before);
    if i < old_reports.len() {
        assert(report == old_reports[i]);
        a_report_is_on_a_lost_or_a_returned_frame(before, shards, i);
        if report != lost_report(report.frame_index as int, shards) {
            let k = choose|k: int|
                0 <= k < before.len() && #[trigger] before[k] is Frame && report == received_report(
                    before[k]->header,
                    before[k]->recv_time_ns,
                    shards,
                );
            assert(events[k] == before[k]);
        }
    } else {
        let new = event_reports(next_after(before) as u64, shards, events.last());
        assert(report == new[i - old_reports.len()]);
        assert(events[events.len() - 1] == events.last());
        assert(event_fits(events[events.len() - 1]));
    }
}

/// The round trip time is the number of whole microseconds from the one stamp to the other, and none
/// where the clock seems to have gone back.
pub proof fn round_trips_are_whole_microseconds(sent_ns: u64, received_ns: u64)
    ensures
        sent_ns <= received_ns ==> 1000 * rtt_us(sent_ns, received_ns) <= received_ns - sent_ns
            < 1000 * (rtt_us(sent_ns, received_ns) + 1),
        received_ns < sent_ns ==> rtt_us(sent_ns, received_ns) == 0,
{
}

/// Whether a report says of a frame that nothing of it came back.
pub open spec fn says_lost(report: LatencyTestFrameReport, frame_index: int, shards: u32) -> bool {
    &&& report.frame_index == frame_index
    &&& report.shards_sent == shards
    &&& report.shards_received == 0
    &&& report.rtt_us == 0
}

/// A frame that comes back in its turn or early leads to a report on each frame that is still out,
/// below it and asked for, as lost, and to one on itself last, as whole and with the microseconds
/// between its stamps. A frame that comes back late leads to none.
pub proof fn a_returned_frame_is_reported_behind_the_lost_ones(
    next: u64,
    shards: u32,
    header: LatencyTestFrameHeader,
    recv_time_ns: u64,
    sent_frames: u64,
)
    ensures
        ({
            let reports = event_reports(
                next,
                shards,
                FrameEvent::Frame { header, recv_time_ns, sent_frames },
            );
            let index = header.frame_index;
            let sent_ns = header.client_send_timestamp_ns;
            &&& index < next ==> reports.len() == 0
            &&& index >= next ==> {
                let own = reports[reports.len() - 1];
                &&& reports.len() >= 1
                &&& forall|k: int|
                    0 <= k < reports.len() - 1 ==> {
                        &&& says_lost(#[trigger] reports[k], next + k, shards)
                        &&& next + k < index
                        &&& next + k < sent_frames
                    }
                &&& next + reports.len() - 1 == index || next + reports.len() - 1 >= sent_frames
                &&& own.frame_index == index
                &&& own.shards_sent == shards
                &&& own.shards_received == shards
                &&& sent_ns <= recv_time_ns ==> 1000 * own.rtt_us <= recv_time_ns - sent_ns < 1000
                    * (own.rtt_us + 1)
                &&& recv_time_ns < sent_ns ==> own.rtt_us == 0
            }
        }),
{
}

/// The end of the stream leads to a report on each frame that was asked for and is still out, as
/// lost, and to no other; and nothing is reported while nothing can be read.
pub proof fn the_end_reports_what_is_still_out(next: u64, shards: u32, sent_frames: u64)
    ensures
        ({
            let reports = event_reports(next, shards, FrameEvent::Closed { sent_frames });
            &&& reports.len() == (if next < sent_frames {
                sent_frames - next
            } else {
                0
            })
            &&& forall|k: int|
                0 <= k < reports.len() ==> says_lost(#[trigger] reports[k], next + k, shards)
        }),
        event_reports(next, shards, FrameEvent::Undecodable).len() == 0,
        event_reports(next, shards, FrameEvent::TryAgain).len() == 0,
{
}

/// The frames up to the last one that was reported are dealt with, and no further ones.
pub proof fn what_is_reported_is_dealt_with(next: u64, shards: u32, event: FrameEvent)
    ensures
        ({
            let reports = event_reports(next, shards, event);
            event_next(next, event) == (if reports.len() == 0 {
                next as int
            } else {
                reports[reports.len() - 1].frame_index + 1
            })
        }),
{
}

/// One wait for a frame lasts fifty milliseconds.
pub proof fn a_wait_for_a_frame_is_short()
    ensures
        FRAME_RECV_TIMEOUT_MS == 50,
{
}

} // verus!
