//! The loop that reads the data link for its streams.

use vstd::prelude::*;

verus! {

/// How the last read of the data link ended.
#[derive(Clone, Copy, Debug, PartialEq, Eq)]
pub enum DataLinkEvent {
    /// There was none yet.
    Begin,
    /// Something was read.
    Received,
    /// Nothing came in time.
    TryAgain,
    /// The link failed.
    Failed,
}

/// What the loop does.
#[derive(Clone, Copy, Debug, PartialEq, Eq)]
pub enum DataLinkStep {
    /// Read the link.
    Receive,
    /// Leave the loop.
    Exit,
    /// Make the test stop, and leave the loop.
    StopTestAndExit,
}

/// One turn of the loop: it goes on as long as it is wanted (`recv_running`), and a link that
/// fails ends the whole test.
pub fn data_receive_loop(recv_running: bool, event: DataLinkEvent) -> (step: DataLinkStep)
    ensures
        step == DataLinkStep::StopTestAndExit <==> event is Failed,
        step == DataLinkStep::Receive <==> recv_running && !(event is Failed),
        step == DataLinkStep::Exit <==> !recv_running && !(event is Failed),
{
    match event {
        DataLinkEvent::Failed => DataLinkStep::StopTestAndExit,
        _ => {
            if recv_running {
                DataLinkStep::Receive
            } else {
                DataLinkStep::Exit
            }
        },
    }
}

/// A link that fails ends the test, whether or not it is still read; otherwise the link is read
/// again just as long as it is to be.
pub proof fn only_a_failing_link_ends_the_test(
    recv_running: bool,
    event: DataLinkEvent,
    step: DataLinkStep,
)
    requires
        call_ensures(data_receive_loop, (recv_running, event), step),
    ensures
        event is Failed ==> step is StopTestAndExit,
        !(event is Failed) && recv_running ==> step is Receive,
        !(event is Failed) && !recv_running ==> step is Exit,
{
}

} // verus!
