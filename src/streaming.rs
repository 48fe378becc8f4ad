//! Decisions of the streaming sink, which sends encoded frames to an Icecast
//! server while the desire to broadcast is asserted.
//!
//! The sink's thread owns the connection and performs every action; this
//! module decides, from the sink's state and what just happened, what to do
//! next and which transition to report.
use vstd::prelude::*;
use crate::events::{SinkEvent, SinkState, stands_started};

verus! {

/// Retry delay between two failed connection attempts, in seconds.
pub const CONNECT_RETRY_SECS: u64 = 3;

/// What the streaming thread does next.
#[derive(Clone, Copy, Debug, PartialEq, Eq, Structural)]
pub enum StreamingAction {
    /// Drop the frame and wait for the next one.
    Skip,
    /// Take a fresh configuration snapshot, connect (retrying every
    /// `CONNECT_RETRY_SECS` until connected or told to exit), then encode and
    /// send the frame.
    ConnectAndSend,
    /// Encode and send the frame over the open connection.
    Send,
    /// Close the connection and drop the frame.
    Close,
    /// Try once to re-establish the connection.
    Reconnect,
    /// Close the connection if one is open, and end the thread.
    Exit,
}

/// An action together with the transition to report, if any.
#[derive(Clone, Copy, Debug, PartialEq, Eq, Structural)]
pub struct StreamingDecision {
    pub action: StreamingAction,
    pub event: Option<SinkEvent>,
}

/// The streaming sink's own state.
#[derive(Clone, Copy, Debug, PartialEq, Eq, Structural)]
pub struct StreamingSink {
    /// `Active` while a connection is open.
    pub state: SinkState,
    /// Whether `StreamingStarted` was reported since the connection was made
    /// or last failed.
    pub announced: bool,
}

/// What the connecting loop does after an attempt.
#[derive(Clone, Copy, Debug, PartialEq, Eq, Structural)]
pub enum ConnectStep {
    /// The connection is open: go on to stream.
    Connected,
    /// Wait this many seconds, then try again.
    RetryAfter(u64),
    /// Shutdown was requested: stop trying.
    GiveUp,
}

/// Decides what follows a connection attempt that `connected` or not, while
/// shutdown is `exit_requested` or not. A requested shutdown wins, so the
/// loop stays responsive to it.
pub fn after_connect_attempt(connected: bool, exit_requested: bool) -> (r: ConnectStep)
    ensures
        r == if exit_requested {
            ConnectStep::GiveUp
        } else if connected {
            ConnectStep::Connected
        } else {
            ConnectStep::RetryAfter(CONNECT_RETRY_SECS)
        },
{
    if exit_requested {
        ConnectStep::GiveUp
    } else if connected {
        ConnectStep::Connected
    } else {
        ConnectStep::RetryAfter(CONNECT_RETRY_SECS)
    }
}

/// The sink and decision after a frame arrives while the desire is `desire`
/// and a configuration change is pending or not.
pub open spec fn frame_step(s: StreamingSink, desire: bool, config_changed: bool) -> (StreamingSink, StreamingDecision) {
    match s.state {
        SinkState::Idle => if desire {
            (
                StreamingSink { state: SinkState::Active, announced: false },
                StreamingDecision { action: StreamingAction::ConnectAndSend, event: None },
            )
        } else {
            (s, StreamingDecision { action: StreamingAction::Skip, event: None })
        },
        SinkState::Active => if desire && !config_changed {
            (s, StreamingDecision { action: StreamingAction::Send, event: None })
        } else {
            (
                StreamingSink { state: SinkState::Idle, announced: false },
                StreamingDecision {
                    action: StreamingAction::Close,
                    event: Some(SinkEvent::StreamingStopped),
                },
            )
        },
    }
}

/// The sink and decision after a send that succeeded or not.
pub open spec fn send_step(s: StreamingSink, ok: bool) -> (StreamingSink, StreamingDecision) {
    if ok {
        if s.announced {
            (s, StreamingDecision { action: StreamingAction::Skip, event: None })
        } else {
            (
                StreamingSink { announced: true, ..s },
                StreamingDecision { action: StreamingAction::Skip, event: Some(SinkEvent::StreamingStarted) },
            )
        }
    } else {
        (
            StreamingSink { announced: false, ..s },
            StreamingDecision {
                action: StreamingAction::Reconnect,
                event: Some(SinkEvent::StreamingStopped),
            },
        )
    }
}

/// Something that happens to the streaming sink.
#[derive(Clone, Copy, Debug, PartialEq, Eq, Structural)]
pub enum StreamingInput {
    Frame { desire: bool, config_changed: bool },
    SendResult { ok: bool },
    Shutdown,
}

/// One transition of the sink on an input. Sends happen only over an open
/// connection, so a send result while idle changes nothing.
pub open spec fn input_step(s: StreamingSink, input: StreamingInput) -> (StreamingSink, StreamingDecision) {
    match input {
        StreamingInput::Frame { desire, config_changed } => frame_step(s, desire, config_changed),
        StreamingInput::SendResult { ok } => if s.state == SinkState::Active {
            send_step(s, ok)
        } else {
            (s, StreamingDecision { action: StreamingAction::Skip, event: None })
        },
        StreamingInput::Shutdown => (
            StreamingSink { state: SinkState::Idle, announced: false },
            StreamingDecision { action: StreamingAction::Exit, event: Some(SinkEvent::StreamingStopped) },
        ),
    }
}

/// The sink after a run of inputs.
pub open spec fn run_state(s: StreamingSink, inputs: Seq<StreamingInput>) -> StreamingSink
    decreases inputs.len(),
{
    if inputs.len() == 0 {
        s
    } else {
        input_step(run_state(s, inputs.drop_last()), inputs.last()).0
    }
}

/// The transitions reported along a run of inputs, in order.
pub open spec fn run_events(s: StreamingSink, inputs: Seq<StreamingInput>) -> Seq<SinkEvent>
    decreases inputs.len(),
{
    if inputs.len() == 0 {
        Seq::empty()
    } else {
        let before = run_events(s, inputs.drop_last());
        match input_step(run_state(s, inputs.drop_last()), inputs.last()).1.event {
            Some(e) => before.push(e),
            None => before,
        }
    }
}

proof fn lemma_announced_tracks_events(s: StreamingSink, inputs: Seq<StreamingInput>)
    requires
        !s.announced,
    ensures
        run_state(s, inputs).announced == stands_started(run_events(s, inputs), SinkEvent::StreamingStarted, SinkEvent::StreamingStopped),
        run_state(s, inputs).state == SinkState::Idle ==> !run_state(s, inputs).announced,
        forall|k: int|
            0 <= k < run_events(s, inputs).len() && run_events(s, inputs)[k] == SinkEvent::StreamingStarted
                ==> !stands_started(
                #[trigger] run_events(s, inputs).take(k),
                SinkEvent::StreamingStarted,
                SinkEvent::StreamingStopped,
            ),
    decreases inputs.len(),
{
    if inputs.len() > 0 {
        let prev = inputs.drop_last();
        lemma_announced_tracks_events(s, prev);
        let before = run_events(s, prev);
        let after = run_events(s, inputs);
        match input_step(run_state(s, prev), inputs.last()).1.event {
            Some(e) => {
                assert(after == before.push(e));
                assert(after.drop_last() == before);
                assert(after.last() == e);
                assert forall|k: int|
                    0 <= k < after.len() && after[k] == SinkEvent::StreamingStarted implies !stands_started(
                    #[trigger] after.take(k),
                    SinkEvent::StreamingStarted,
                    SinkEvent::StreamingStopped,
                ) by {
                    if k < before.len() {
                        assert(after.take(k) == before.take(k));
                    } else {
                        assert(after.take(k) == before);
                    }
                }
            },
            None => {
                assert(after == before);
            },
        }
    }
}

/// A start is never reported twice in a row: starting from a sink that has
/// announced nothing, along any run of inputs, each `StreamingStarted` is
/// reported only where the transitions reported before it do not already
/// end in a start; so any two starts have a `StreamingStopped` between them.
pub proof fn lemma_no_repeated_start(s: StreamingSink, inputs: Seq<StreamingInput>)
    requires
        !s.announced,
    ensures
        forall|k: int|
            0 <= k < run_events(s, inputs).len() && run_events(s, inputs)[k] == SinkEvent::StreamingStarted
                ==> !stands_started(
                #[trigger] run_events(s, inputs).take(k),
                SinkEvent::StreamingStarted,
                SinkEvent::StreamingStopped,
            ),
        run_state(s, inputs).announced == stands_started(run_events(s, inputs), SinkEvent::StreamingStarted, SinkEvent::StreamingStopped),
{
    lemma_announced_tracks_events(s, inputs);
}

impl StreamingSink {
    /// A sink waiting for frames, with no connection.
    pub fn new() -> (r: StreamingSink)
        ensures
            r == (StreamingSink { state: SinkState::Idle, announced: false }),
    {
        StreamingSink { state: SinkState::Idle, announced: false }
    }

    /// Decides what to do with a frame that just arrived.
    pub fn on_frame(&mut self, desire: bool, config_changed: bool) -> (r: StreamingDecision)
        ensures
            (*final(self), r) == frame_step(*old(self), desire, config_changed),
    {
        match self.state {
            SinkState::Idle => {
                if desire {
                    self.state = SinkState::Active;
                    self.announced = false;
                    StreamingDecision { action: StreamingAction::ConnectAndSend, event: None }
                } else {
                    StreamingDecision { action: StreamingAction::Skip, event: None }
                }
            },
            SinkState::Active => {
                if desire && !config_changed {
                    StreamingDecision { action: StreamingAction::Send, event: None }
                } else {
                    self.state = SinkState::Idle;
                    self.announced = false;
                    StreamingDecision {
                        action: StreamingAction::Close,
                        event: Some(SinkEvent::StreamingStopped),
                    }
                }
            },
        }
    }

    /// Decides what follows a send over the open connection.
    pub fn on_send(&mut self, ok: bool) -> (r: StreamingDecision)
        requires
            old(self).state == SinkState::Active,
        ensures
            (*final(self), r) == send_step(*old(self), ok),
    {
        if ok {
            if self.announced {
                StreamingDecision { action: StreamingAction::Skip, event: None }
            } else {
                self.announced = true;
                StreamingDecision { action: StreamingAction::Skip, event: Some(SinkEvent::StreamingStarted) }
            }
        } else {
            self.announced = false;
            StreamingDecision {
                action: StreamingAction::Reconnect,
                event: Some(SinkEvent::StreamingStopped),
            }
        }
    }

    /// The frame bus closed or shutdown was requested: report the sink
    /// stopped and end the thread.
    pub fn on_shutdown(&mut self) -> (r: StreamingDecision)
        ensures
            *final(self) == (StreamingSink { state: SinkState::Idle, announced: false }),
            r == (StreamingDecision { action: StreamingAction::Exit, event: Some(SinkEvent::StreamingStopped) }),
    {
        self.state = SinkState::Idle;
        self.announced = false;
        StreamingDecision { action: StreamingAction::Exit, event: Some(SinkEvent::StreamingStopped) }
    }
}

} // verus!
