//! What holds between the two sides of a latency test.

use vstd::prelude::*;
use crate::client::frames::{
    every_requested_frame_is_reported_once, only_requested_frames, received_report,
    reports_after, rtt_us, FrameEvent,
};
use crate::client::listener::{connection_step, worked, ConnectionReply, ConnectionStep};
use crate::client::reports::{
    looks_for_stop, report_step, reports_are_forwarded_in_order, reports_only_when_asked, reports_received,
    reports_sent, ReportAction, ReportEvent, ReportForwarder,
};
use crate::client::run::{client_step, fresh_run, ClientAction, ClientEvent, ClientRun};
use crate::packets::{
    IpAddress, LatencyTestConfig, LatencyTestControlMessage, LatencyTestFrameHeader,
    LatencyTestSensorPacket, LinkParams,
};
use crate::server::run::{
    a_run_keeps_its_shards_as_expected, close_results, every_report_has_its_line, fresh_server,
    reports_taken, rows_written, server_after, server_step, SensorOutcome, ServerAction,
    ServerEvent, ServerView,
};

verus! {

/// The client runs exactly the test that the server was asked to run: the first message of the
/// server, once received and acknowledged, leads to a run with the server's configuration and with
/// the address that it came from.
pub proof fn the_client_runs_the_server_s_configuration(
    config: LatencyTestConfig,
    params: LinkParams,
    message: LatencyTestControlMessage,
    server_ip: IpAddress,
    replies: Seq<ConnectionReply>,
)
    requires
        server_step(fresh_server(config, params), ServerEvent::Begin).1
            == ServerAction::SendControl(message),
        replies.len() == 5,
        worked(replies, 0),
        worked(replies, 1),
        replies[2] == ConnectionReply::Message(Some(message)),
        worked(replies, 3),
        replies[4] == ConnectionReply::Peer(Some(server_ip)),
    ensures
        connection_step(replies) == (ConnectionStep::RunTest { config, server_ip }),
{
}

/// What the server says once it has opened its end of the data link is what the client waits for
/// before it starts anything: it lets the client begin, and no other message does.
pub proof fn the_server_s_ready_message_lets_the_client_begin(
    server: ServerView,
    message: LatencyTestControlMessage,
    client: ClientRun,
    received: Option<LatencyTestControlMessage>,
)
    requires
        server.phase is Connecting,
        server_step(server, ServerEvent::Done(true)).1 == ServerAction::SendControl(message),
        client.phase is AwaitingReady,
    ensures
        client_step(client, ClientEvent::Message(received)).1 == ClientAction::SpawnReceiver
            <==> received == Some(message),
        received != Some(message) ==> client_step(client, ClientEvent::Message(received)).1
            == ClientAction::Fail,
{
}

/// The round trip time in a report is measured with the client's clock alone: from the stamp that
/// the client put on the packet for that frame to the return of the frame. This follows a packet
/// from its sending through the server's answer to the report.
pub proof fn a_round_trip_is_measured_from_the_packet_s_own_stamp(
    client: ClientRun,
    sent_ns: u64,
    server: ServerView,
    server_received_ns: u64,
    server_answered_ns: u64,
    packet: LatencyTestSensorPacket,
    header: LatencyTestFrameHeader,
    returned_ns: u64,
    shards: u32,
)
    requires
        client_step(client, ClientEvent::Clock(sent_ns)).1 == ClientAction::SendPacket(packet),
        server.phase is ReceivingSensor,
        ({
            let s1 = server_step(server, ServerEvent::Sensor(SensorOutcome::Packet(packet))).0;
            let s2 = server_step(s1, ServerEvent::Clock(server_received_ns)).0;
            server_step(s2, ServerEvent::Clock(server_answered_ns)).1
                == ServerAction::AllocateFrame(header)
        }),
    ensures
        received_report(header, returned_ns, shards).frame_index == client.current_frame_index,
        received_report(header, returned_ns, shards).rtt_us == rtt_us(sent_ns, returned_ns),
{
}

/// A frame that came back is written down with as many shards received as sent: both sides cut
/// frames of the same configuration into the same number of shards.
pub proof fn a_returned_frame_is_written_down_whole(
    config: LatencyTestConfig,
    params: LinkParams,
    server_ip: IpAddress,
    frame_interval_ns: u64,
    events: Seq<ServerEvent>,
    event: ServerEvent,
    header: LatencyTestFrameHeader,
    returned_ns: u64,
)
    requires
        ({
            let s = server_after(fresh_server(config, params), events);
            let shards = fresh_run(
                config,
                params,
                server_ip,
                frame_interval_ns,
            ).expected_shards_count;
            &&& s.frames_sent.contains_key(header.frame_index)
            &&& server_step(s, event).1 matches ServerAction::WriteRow { report, .. } && report
                == received_report(header, returned_ns, shards)
        }),
    ensures
        ({
            let s = server_after(fresh_server(config, params), events);
            server_step(s, event).1 matches ServerAction::WriteRow { report, server_shards_sent }
                && server_shards_sent == report.shards_received
        }),
{
    a_run_keeps_its_shards_as_expected(fresh_server(config, params), events);
}

/// The results have one line for each frame that was asked for, in the order of the frames. This
/// follows the reports all the way: from the frames that come back, through the loop that forwards
/// them, to the server that takes them. It is said of tests in which the stream brings back only
/// frames that were asked for, the server takes every report that was sent to it, and there is
/// a results file.
pub proof fn the_results_have_one_line_per_requested_frame(
    frame_events: Seq<FrameEvent>,
    shards: u32,
    sent_frames: u64,
    report_events: Seq<ReportEvent>,
    config: LatencyTestConfig,
    params: LinkParams,
    server_events: Seq<ServerEvent>,
)
    requires
        only_requested_frames(frame_events, sent_frames),
        frame_events.len() > 0,
        frame_events.last() == (FrameEvent::Closed { sent_frames }),
        reports_only_when_asked(report_events),
        reports_received(report_events) == reports_after(frame_events, shards),
        reports_taken(fresh_server(config, params), server_events) == reports_sent(report_events),
        server_after(fresh_server(config, params), server_events).csv,
    ensures
        rows_written(fresh_server(config, params), server_events).len() == sent_frames,
        forall|i: int|
            0 <= i < sent_frames ==> (#[trigger] rows_written(
                fresh_server(config, params),
                server_events,
            )[i]).frame_index == i,
{
    every_requested_frame_is_reported_once(frame_events, shards, sent_frames);
    reports_are_forwarded_in_order(report_events);
    every_report_has_its_line(config, params, server_events);
}

/// The message by which the server ends a test stops the client, once the client looks for it.
pub proof fn the_server_s_stop_message_stops_the_client(
    server: ServerView,
    event: ServerEvent,
    message: LatencyTestControlMessage,
    client: ReportForwarder,
)
    requires
        server.phase is JoiningReceiver,
        server_step(server, event).1 == ServerAction::SendControl(message),
        looks_for_stop(client.phase),
    ensures
        report_step(client, ReportEvent::Control(Some(message))).1 == ReportAction::RaiseStop,
{
}

/// The client's last message ends the server's waiting for reports, and the messages before it do
/// not.
pub proof fn the_client_s_last_message_ends_the_draining(
    client: ReportForwarder,
    event: ReportEvent,
    message: LatencyTestControlMessage,
    server: ServerView,
)
    requires
        report_step(client, event).1.spec_message() == Some(message),
        server.phase is Draining,
    ensures
        server_step(server, ServerEvent::Message(Ok(message))) == close_results(server)
            <==> report_step(client, event).1 == ReportAction::SendComplete,
{
}

} // verus!
