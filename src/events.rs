//! State transitions that the sinks report on the control channel.
use vstd::prelude::*;

verus! {

/// A transition of a sink, broadcast to the rest of the system. These are
/// advisory: nothing waits for them to be received.
#[derive(Clone, Copy, Debug, PartialEq, Eq, Structural)]
pub enum SinkEvent {
    RecordingStarted,
    RecordingStopped,
    StreamingStarted,
    StreamingStopped,
}

/// Whether a sink is doing nothing or holds an open resource.
#[derive(Clone, Copy, Debug, PartialEq, Eq, Structural)]
pub enum SinkState {
    Idle,
    Active,
}

/// Whether, among the transitions `started` and `stopped` in `events`, the
/// latest is `started`.
pub open spec fn stands_started(events: Seq<SinkEvent>, started: SinkEvent, stopped: SinkEvent) -> bool
    decreases events.len(),
{
    if events.len() == 0 {
        false
    } else if events.last() == started {
        true
    } else if events.last() == stopped {
        false
    } else {
        stands_started(events.drop_last(), started, stopped)
    }
}

} // verus!
