//! The loop that forwards reports to the server and listens for its stop command.

use vstd::prelude::*;
use crate::packets::{LatencyTestControlMessage, LatencyTestFrameReport};

verus! {

/// How often the server's stop command is looked for, and so how long one wait for a report lasts
/// at most.
pub const STOP_CHECK_INTERVAL_MS: u64 = 200;

/// What the loop is waiting to hear about.
#[derive(Clone, Copy, Debug, PartialEq, Eq)]
pub enum ReportPhase {
    /// Nothing has been done yet.
    Starting,
    /// A wait for a report.
    Waiting,
    /// The sending of the report that ended a wait.
    Forwarding,
    /// A look for further reports that are there already.
    Draining,
    /// The sending of one of them.
    DrainForwarding,
    /// A look for a control message.
    Checking,
    /// The raising of the stop flag.
    Raising,
    /// A look for a control message while further reports may be there.
    DrainChecking,
    /// The raising of the stop flag while further reports may be there.
    DrainRaising,
    /// A look for reports that are left after the reporting side has gone.
    Closing,
    /// The sending of one of them.
    CloseForwarding,
    /// The sending of the final message.
    Completing,
    /// The loop is over.
    Ended,
}

/// How an action of the loop ended.
#[derive(Debug, PartialEq, Eq)]
pub enum ReportEvent {
    /// The loop begins.
    Begin,
    /// A report was there.
    Report(LatencyTestFrameReport),
    /// No report came within the wait.
    Timeout,
    /// The wait found that no report will ever come.
    Disconnected,
    /// No report is there right now; the last look for a control message is this long ago.
    Empty { ms_since_check: u64 },
    /// The control message that was waiting, if there was one.
    Control(Option<LatencyTestControlMessage>),
    /// A message was sent, or could not be; the last look for a control message is this long ago.
    Sent { ok: bool, ms_since_check: u64 },
    /// The action was carried out.
    Done,
}

/// What the loop does.
#[derive(Clone, Copy, Debug, PartialEq, Eq)]
pub enum ReportAction {
    /// Wait this many milliseconds for a report.
    Wait(u64),
    /// Take a report if there is one right now.
    Take,
    /// Send a report to the server.
    Send(LatencyTestFrameReport),
    /// See whether a control message is waiting.
    CheckControl,
    /// Raise the flag that stops the test.
    RaiseStop,
    /// Tell the server that the test is complete.
    SendComplete,
    /// Leave the loop.
    Exit,
}

impl ReportAction {
    /// The message that an action sends to the server, if it sends one.
    pub open spec fn spec_message(self) -> Option<LatencyTestControlMessage> {
        match self {
            ReportAction::Send(report) => Some(LatencyTestControlMessage::FrameReport(report)),
            ReportAction::SendComplete => Some(LatencyTestControlMessage::TestComplete),
            _ => None,
        }
    }

    /// The message that an action sends to the server, if it sends one.
    pub fn message(&self) -> (message: Option<LatencyTestControlMessage>)
        ensures
            message == self.spec_message(),
    {
        match self {
            ReportAction::Send(report) => Some(LatencyTestControlMessage::FrameReport(*report)),
            ReportAction::SendComplete => Some(LatencyTestControlMessage::TestComplete),
            _ => None,
        }
    }
}

/// State of the loop.
#[derive(Clone, Copy, Debug, PartialEq, Eq)]
pub struct ReportForwarder {
    pub phase: ReportPhase,
    pub total_frames_reported: u64,
}

/// A state with that phase and the count left as it is.
pub open spec fn in_phase(s: ReportForwarder, phase: ReportPhase) -> ReportForwarder {
    ReportForwarder { phase, total_frames_reported: s.total_frames_reported }
}

/// A state with that phase and one more report counted.
pub open spec fn counted(s: ReportForwarder, phase: ReportPhase) -> ReportForwarder {
    ReportForwarder { phase, total_frames_reported: (s.total_frames_reported + 1) as u64 }
}

/// A report has been sent and counted: further ones are taken, after a look for a control message
/// if that is due.
pub open spec fn forwarded(s: ReportForwarder, ms_since_check: u64) -> (
    ReportForwarder,
    ReportAction,
) {
    if ms_since_check >= STOP_CHECK_INTERVAL_MS {
        (counted(s, ReportPhase::DrainChecking), ReportAction::CheckControl)
    } else {
        (counted(s, ReportPhase::Draining), ReportAction::Take)
    }
}

/// The next state and action. A report that ended a wait and cannot be sent ends the loop; one that
/// was there already and cannot be sent does not, and counts like the others. An event that does not
/// belong to the phase ends the loop.
pub open spec fn report_step(s: ReportForwarder, event: ReportEvent) -> (
    ReportForwarder,
    ReportAction,
) {
    let wait = (in_phase(s, ReportPhase::Waiting), ReportAction::Wait(STOP_CHECK_INTERVAL_MS));
    let check = (in_phase(s, ReportPhase::Checking), ReportAction::CheckControl);
    match (s.phase, event) {
        (ReportPhase::Starting, ReportEvent::Begin) => wait,
        (ReportPhase::Waiting, ReportEvent::Report(r)) => (
            in_phase(s, ReportPhase::Forwarding),
            ReportAction::Send(r),
        ),
        (ReportPhase::Waiting, ReportEvent::Timeout) => check,
        (ReportPhase::Waiting, ReportEvent::Disconnected) => (
            in_phase(s, ReportPhase::Closing),
            ReportAction::Take,
        ),
        (ReportPhase::Forwarding, ReportEvent::Sent { ok: true, ms_since_check }) => forwarded(
            s,
            ms_since_check,
        ),
        (ReportPhase::Forwarding, ReportEvent::Sent { ok: false, .. }) => (
            in_phase(s, ReportPhase::Ended),
            ReportAction::Exit,
        ),
        (ReportPhase::Draining, ReportEvent::Report(r)) => (
            in_phase(s, ReportPhase::DrainForwarding),
            ReportAction::Send(r),
        ),
        (ReportPhase::Draining, ReportEvent::Empty { ms_since_check }) => if ms_since_check
            >= STOP_CHECK_INTERVAL_MS {
            check
        } else {
            (
                in_phase(s, ReportPhase::Waiting),
                ReportAction::Wait((STOP_CHECK_INTERVAL_MS - ms_since_check) as u64),
            )
        },
        (ReportPhase::DrainForwarding, ReportEvent::Sent { ms_since_check, .. }) => forwarded(
            s,
            ms_since_check,
        ),
        (ReportPhase::DrainChecking, ReportEvent::Control(m)) => if m
            == Some(LatencyTestControlMessage::StopTest) {
            (in_phase(s, ReportPhase::DrainRaising), ReportAction::RaiseStop)
        } else {
            (in_phase(s, ReportPhase::Draining), ReportAction::Take)
        },
        (ReportPhase::DrainRaising, ReportEvent::Done) => (
            in_phase(s, ReportPhase::Draining),
            ReportAction::Take,
        ),
        (ReportPhase::Checking, ReportEvent::Control(m)) => if m
            == Some(LatencyTestControlMessage::StopTest) {
            (in_phase(s, ReportPhase::Raising), ReportAction::RaiseStop)
        } else {
            wait
        },
        (ReportPhase::Raising, ReportEvent::Done) => wait,
        (ReportPhase::Closing, ReportEvent::Report(r)) => (
            in_phase(s, ReportPhase::CloseForwarding),
            ReportAction::Send(r),
        ),
        (ReportPhase::Closing, ReportEvent::Empty { .. }) => (
            in_phase(s, ReportPhase::Completing),
            ReportAction::SendComplete,
        ),
        (ReportPhase::CloseForwarding, ReportEvent::Sent { .. }) => (
            counted(s, ReportPhase::Closing),
            ReportAction::Take,
        ),
        _ => (in_phase(s, ReportPhase::Ended), ReportAction::Exit),
    }
}

impl ReportForwarder {
    pub fn new() -> (s: Self)
        ensures
            s == fresh_forwarder(),
    {
        ReportForwarder { phase: ReportPhase::Starting, total_frames_reported: 0 }
    }

    /// One turn of the loop.
    pub fn tcp_report_loop(&mut self, event: ReportEvent) -> (action: ReportAction)
        requires
            old(self).total_frames_reported < u64::MAX,
        ensures
            (*final(self), action) == report_step(*old(self), event),
    {
        match (self.phase, event) {
            (ReportPhase::Starting, ReportEvent::Begin) => self.wait(STOP_CHECK_INTERVAL_MS),
            (ReportPhase::Waiting, ReportEvent::Report(r)) => {
                self.phase = ReportPhase::Forwarding;
                ReportAction::Send(r)
            },
            (ReportPhase::Waiting, ReportEvent::Timeout) => self.check(),
            (ReportPhase::Waiting, ReportEvent::Disconnected) => {
                self.phase = ReportPhase::Closing;
                ReportAction::Take
            },
            (ReportPhase::Forwarding, ReportEvent::Sent { ok: true, ms_since_check }) => {
                self.go_on_draining(ms_since_check)
            },
            (ReportPhase::Forwarding, ReportEvent::Sent { ok: false, .. }) => {
                self.phase = ReportPhase::Ended;
                ReportAction::Exit
            },
            (ReportPhase::Draining, ReportEvent::Report(r)) => {
                self.phase = ReportPhase::DrainForwarding;
                ReportAction::Send(r)
            },
            (ReportPhase::Draining, ReportEvent::Empty { ms_since_check }) => {
                if ms_since_check >= STOP_CHECK_INTERVAL_MS {
                    self.check()
                } else {
                    self.wait(STOP_CHECK_INTERVAL_MS - ms_since_check)
                }
            },
            (ReportPhase::DrainForwarding, ReportEvent::Sent { ms_since_check, .. }) => {
                self.go_on_draining(ms_since_check)
            },
            (ReportPhase::DrainChecking, ReportEvent::Control(m)) => {
                match m {
                    Some(LatencyTestControlMessage::StopTest) => {
                        self.phase = ReportPhase::DrainRaising;
                        ReportAction::RaiseStop
                    },
                    _ => {
                        self.phase = ReportPhase::Draining;
                        ReportAction::Take
                    },
                }
            },
            (ReportPhase::DrainRaising, ReportEvent::Done) => {
                self.phase = ReportPhase::Draining;
                ReportAction::Take
            },
            (ReportPhase::Checking, ReportEvent::Control(m)) => {
                match m {
                    Some(LatencyTestControlMessage::StopTest) => {
                        self.phase = ReportPhase::Raising;
                        ReportAction::RaiseStop
                    },
                    _ => self.wait(STOP_CHECK_INTERVAL_MS),
                }
            },
            (ReportPhase::Raising, ReportEvent::Done) => self.wait(STOP_CHECK_INTERVAL_MS),
            (ReportPhase::Closing, ReportEvent::Report(r)) => {
                self.phase = ReportPhase::CloseForwarding;
                ReportAction::Send(r)
            },
            (ReportPhase::Closing, ReportEvent::Empty { .. }) => {
                self.phase = ReportPhase::Completing;
                ReportAction::SendComplete
            },
            (ReportPhase::CloseForwarding, ReportEvent::Sent { .. }) => {
                self.total_frames_reported = self.total_frames_reported + 1;
                self.phase = ReportPhase::Closing;
                ReportAction::Take
            },
            _ => {
                self.phase = ReportPhase::Ended;
                ReportAction::Exit
            },
        }
    }

    fn go_on_draining(&mut self, ms_since_check: u64) -> (action: ReportAction)
        requires
            old(self).total_frames_reported < u64::MAX,
        ensures
            (*final(self), action) == forwarded(*old(self), ms_since_check),
    {
        self.total_frames_reported = self.total_frames_reported + 1;
        if ms_since_check >= STOP_CHECK_INTERVAL_MS {
            self.phase = ReportPhase::DrainChecking;
            ReportAction::CheckControl
        } else {
            self.phase = ReportPhase::Draining;
            ReportAction::Take
        }
    }

    fn wait(&mut self, ms: u64) -> (action: ReportAction)
        ensures
            *final(self) == in_phase(*old(self), ReportPhase::Waiting),
            action == ReportAction::Wait(ms),
    {
        self.phase = ReportPhase::Waiting;
        ReportAction::Wait(ms)
    }

    fn check(&mut self) -> (action: ReportAction)
        ensures
            *final(self) == in_phase(*old(self), ReportPhase::Checking),
            action == ReportAction::CheckControl,
    {
        self.phase = ReportPhase::Checking;
        ReportAction::CheckControl
    }
}

/// The state in which the loop begins.
pub open spec fn fresh_forwarder() -> ReportForwarder {
    ReportForwarder { phase: ReportPhase::Starting, total_frames_reported: 0 }
}

/// The state after a row of events.
pub open spec fn state_after(events: Seq<ReportEvent>) -> ReportForwarder
    decreases events.len(),
{
    if events.len() == 0 {
        fresh_forwarder()
    } else {
        report_step(state_after(events.drop_last()), events.last()).0
    }
}

/// The action that the `i`-th event of a row leads to.
pub open spec fn action_at(events: Seq<ReportEvent>, i: int) -> ReportAction {
    report_step(state_after(events.take(i)), events[i]).1
}

/// The reports that were sent, in order.
pub open spec fn reports_sent(events: Seq<ReportEvent>) -> Seq<LatencyTestFrameReport>
    decreases events.len(),
{
    if events.len() == 0 {
        Seq::empty()
    } else {
        let before = reports_sent(events.drop_last());
        match action_at(events, events.len() - 1) {
            ReportAction::Send(r) => before.push(r),
            _ => before,
        }
    }
}

/// The reports that were received, in order.
pub open spec fn reports_received(events: Seq<ReportEvent>) -> Seq<LatencyTestFrameReport>
    decreases events.len(),
{
    if events.len() == 0 {
        Seq::empty()
    } else {
        let before = reports_received(events.drop_last());
        match events.last() {
            ReportEvent::Report(r) => before.push(r),
            _ => before,
        }
    }
}

/// Whether a phase is one in which a report can be handed in.
pub open spec fn takes_reports(phase: ReportPhase) -> bool {
    phase is Waiting || phase is Draining || phase is Closing
}

/// Whether reports are handed in only when the loop asked for them.
pub open spec fn reports_only_when_asked(events: Seq<ReportEvent>) -> bool {
    forall|i: int|
        0 <= i < events.len() && #[trigger] events[i] is Report ==> takes_reports(
            state_after(events.take(i)).phase,
        )
}

/// The server is sent exactly the reports that the loop was given, each one, in their order.
pub proof fn reports_are_forwarded_in_order(events: Seq<ReportEvent>)
    requires
        reports_only_when_asked(events),
    ensures
        reports_sent(events) == reports_received(events),
    decreases events.len(),
{
    if events.len() > 0 {
        let before = events.drop_last();
        let last = events.len() - 1;
        assert forall|i: int| 0 <= i < before.len() && #[trigger] before[i] is Report implies takes_reports(
            state_after(before.take(i)).phase,
        ) by {
            assert(before[i] == events[i]);
            assert(before.take(i) =~= events.take(i));
        }
        reports_are_forwarded_in_order(before);
        assert(events.take(last) =~= before);
        assert(events[last] == events.last());
        assert(events[last] is Report ==> takes_reports(state_after(events.take(last)).phase));
    }
}

/// Whether a phase is a look for a control message.
pub open spec fn looks_for_stop(phase: ReportPhase) -> bool {
    phase is Checking || phase is DrainChecking
}

/// The time since the last look for a control message that an event tells, if it tells one.
pub open spec fn time_told(event: ReportEvent) -> Option<u64> {
    match event {
        ReportEvent::Empty { ms_since_check } => Some(ms_since_check),
        ReportEvent::Sent { ms_since_check, .. } => Some(ms_since_check),
        _ => None,
    }
}

/// Whether a phase is one of those in which reporting is over.
pub open spec fn is_closing(phase: ReportPhase) -> bool {
    phase is Closing || phase is CloseForwarding || phase is Completing
}

/// The stop flag is raised exactly when a look for a control message found the stop command.
pub proof fn stop_is_raised_on_the_stop_command_only(s: ReportForwarder, event: ReportEvent)
    ensures
        report_step(s, event).1 == ReportAction::RaiseStop <==> looks_for_stop(s.phase) && event
            == ReportEvent::Control(Some(LatencyTestControlMessage::StopTest)),
{
}

/// While the test runs, the stop command is looked for every 200 milliseconds, however fast reports come:
/// - whenever a report has been sent or none is left, and the last look is an interval ago, the
///   next thing is a look, unless the loop ends;
/// - a wait never goes beyond the interval, and one in which nothing came ends in a look.
pub proof fn stop_command_is_looked_for_every_interval(s: ReportForwarder, event: ReportEvent)
    ensures
        time_told(event) is Some && time_told(event)->0 >= 200 && !is_closing(
            s.phase,
        ) ==> report_step(s, event).1 is CheckControl || report_step(s, event).1 is Exit,
        report_step(s, event).1 matches ReportAction::Wait(ms) ==> ms + (match time_told(event) {
            Some(since) => since,
            None => 0,
        }) == 200,
        report_step(s, event).1 is Wait && time_told(event) is None ==> s.phase is Starting
            || s.phase is Checking || s.phase is Raising,
        s.phase is Waiting && event is Timeout ==> report_step(s, event).1 is CheckControl,
        report_step(s, event).1 is CheckControl ==> looks_for_stop(report_step(s, event).0.phase),
{
}

/// A report that ended a wait and cannot be sent ends the loop at once, without the final message.
/// One that was there already and cannot be sent does not end it, whether the reporting side has
/// gone or not: the loop does what it does after a report that was sent.
pub proof fn only_a_waited_for_report_ends_the_loop_where_it_cannot_be_sent(
    s: ReportForwarder,
    ok: bool,
    ms_since_check: u64,
)
    ensures
        s.phase is Forwarding ==> (report_step(s, ReportEvent::Sent { ok, ms_since_check }).1 is Exit
            <==> !ok),
        s.phase is Forwarding && !ok ==> report_step(
            s,
            ReportEvent::Sent { ok, ms_since_check },
        ).0.phase is Ended,
        s.phase is DrainForwarding || s.phase is CloseForwarding ==> {
            let next = report_step(s, ReportEvent::Sent { ok, ms_since_check });
            &&& next == report_step(s, ReportEvent::Sent { ok: true, ms_since_check })
            &&& !(next.1 is Exit)
        },
{
}

/// Forwarding goes on where it was after a look for a control message: no report that is there is
/// left behind.
pub proof fn a_look_does_not_end_the_forwarding(
    s: ReportForwarder,
    message: Option<LatencyTestControlMessage>,
)
    requires
        s.phase is DrainChecking,
    ensures
        ({
            let (looked, action) = report_step(s, ReportEvent::Control(message));
            if action is RaiseStop {
                report_step(looked, ReportEvent::Done).1 == ReportAction::Take
            } else {
                action == ReportAction::Take
            }
        }),
{
}

/// The final message is sent only once the reporting side has gone and no report is left, and the
/// loop ends right after it.
pub proof fn completion_is_announced_last(
    s: ReportForwarder,
    event: ReportEvent,
    next: ReportEvent,
)
    ensures
        report_step(s, event).1 == ReportAction::SendComplete <==> s.phase is Closing
            && event is Empty,
        report_step(s, event).1 == ReportAction::SendComplete ==> report_step(
            report_step(s, event).0,
            next,
        ).1 == ReportAction::Exit,
        s.phase is Ended ==> report_step(s, event) == (s, ReportAction::Exit),
{
}

/// The closing phases are entered only when the reporting side has gone, and left only to end.
pub proof fn closing_begins_when_reporting_is_over(s: ReportForwarder, event: ReportEvent)
    ensures
        ({
            let next = report_step(s, event).0.phase;
            &&& is_closing(next) && !is_closing(s.phase) ==> event is Disconnected
            &&& is_closing(s.phase) ==> is_closing(next) || next is Ended
        }),
{
}

/// Whether a phase is the sending of a report.
pub open spec fn is_forwarding(phase: ReportPhase) -> bool {
    phase is Forwarding || phase is DrainForwarding || phase is CloseForwarding
}

/// Every report that was sent is counted once, as soon as its sending is over. Only where the
/// sending of a report ended the loop, that one is not counted.
pub proof fn every_report_is_counted_once(events: Seq<ReportEvent>)
    requires
        events.len() < u64::MAX,
    ensures
        ({
            let s = state_after(events);
            let sent = reports_sent(events).len();
            &&& is_forwarding(s.phase) ==> sent == s.total_frames_reported + 1
            &&& !is_forwarding(s.phase) && !(s.phase is Ended) ==> sent == s.total_frames_reported
            &&& s.total_frames_reported <= sent <= s.total_frames_reported + 1
            &&& sent <= events.len()
        }),
    decreases events.len(),
{
    if events.len() > 0 {
        every_report_is_counted_once(events.drop_last());
        let last = events.len() - 1;
        assert(events.take(last) =~= events.drop_last());
        assert(events[last] == events.last());
    }
}

/// The server is sent a report as it is, or the word that the test is complete, and nothing else.
pub proof fn messages_carry_reports_as_they_are(
    action: ReportAction,
    message: LatencyTestControlMessage,
    report: LatencyTestFrameReport,
)
    ensures
        action.spec_message() == Some(LatencyTestControlMessage::FrameReport(report)) <==> action
            == ReportAction::Send(report),
        action.spec_message() == Some(LatencyTestControlMessage::TestComplete) <==> action
            == ReportAction::SendComplete,
        action.spec_message() == Some(message) ==> message is FrameReport
            || message is TestComplete,
{
}

/// What a wait brings decides what is done: a report is sent on as it is, silence leads to a look for
/// a control message, and the end of reporting to taking what is left before the final message.
pub proof fn a_wait_ends_in_one_of_three_ways(
    s: ReportForwarder,
    report: LatencyTestFrameReport,
    ms_since_check: u64,
)
    requires
        s.phase is Waiting,
    ensures
        report_step(s, ReportEvent::Report(report)).1 == ReportAction::Send(report),
        report_step(s, ReportEvent::Timeout).1 == ReportAction::CheckControl,
        ({
            let (closing, action) = report_step(s, ReportEvent::Disconnected);
            let (sending, left) = report_step(closing, ReportEvent::Report(report));
            let again = report_step(sending, ReportEvent::Sent { ok: true, ms_since_check });
            &&& action == ReportAction::Take
            &&& left == ReportAction::Send(report)
            &&& again.1 == ReportAction::Take
            &&& again.0.phase == closing.phase
            &&& report_step(closing, ReportEvent::Empty { ms_since_check }).1
                == ReportAction::SendComplete
        }),
{
}

} // verus!
