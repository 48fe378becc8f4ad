//! Decisions of the recording sink, which appends encoded frames to a file
//! named by the time the recording began, and hands each finished file to the
//! uploader.
use vstd::prelude::*;
use crate::events::{SinkEvent, SinkState, stands_started};

verus! {

/// Relies on `chrono::Local::now` formatted by `chrono::format` with the
/// pattern `%Y-%m-%dT%H%M%S.mp3`: the local time down to the second, then the
/// literal extension.
#[verifier::external_body]
fn local_time_file_name() -> (r: String)
    ensures
        has_mp3_extension(r@),
{
    chrono::Local::now().format("%Y-%m-%dT%H%M%S.mp3").to_string()
}

/// A path that ends in `.mp3`.
pub open spec fn has_mp3_extension(p: Seq<char>) -> bool {
    p.len() >= 4 && p.subrange(p.len() - 4, p.len() as int) == seq!['.', 'm', 'p', '3']
}

/// A finished recording, handed to the upload collaborator.
#[derive(Clone, Debug, PartialEq, Eq)]
pub struct UploadHandoff {
    pub file_path: String,
    pub destination_folder: String,
}

/// What the recording thread does next.
#[derive(Clone, Debug, PartialEq, Eq)]
pub enum RecordingAction {
    /// Drop the frame and wait for the next one.
    Skip,
    /// Create the file at this path, then encode the frame and append it.
    OpenAndWrite(String),
    /// Encode the frame and append it to the open file.
    Write,
    /// Close the file and hand it to the uploader.
    Finish(UploadHandoff),
    /// Leave the file as it is (possibly truncated) and stop writing to it.
    Abandon,
    /// End the thread.
    Exit,
    /// Close the file, hand it to the uploader, and end the thread.
    FinishAndExit(UploadHandoff),
}

/// An action together with the transition to report, if any.
#[derive(Clone, Debug, PartialEq, Eq)]
pub struct RecordingDecision {
    pub action: RecordingAction,
    pub event: Option<SinkEvent>,
}

/// The recording sink's own state: the file being written, if any.
#[derive(Clone, Debug, PartialEq, Eq)]
pub struct RecordingSink {
    file: Option<String>,
}

/// Something that happens to the recording sink.
#[derive(Clone, Copy, Debug, PartialEq, Eq, Structural)]
pub enum RecordingInput {
    Frame { desire: bool },
    WriteResult { ok: bool },
    Shutdown,
}

/// Whether the sink is recording after an input, and the transition it
/// reports, given whether it was recording before.
pub open spec fn recording_step(active: bool, input: RecordingInput) -> (bool, Option<SinkEvent>) {
    match input {
        RecordingInput::Frame { desire } => if !active && desire {
            (true, Some(SinkEvent::RecordingStarted))
        } else if active && !desire {
            (false, Some(SinkEvent::RecordingStopped))
        } else {
            (active, None)
        },
        RecordingInput::WriteResult { ok } => if active && !ok {
            (false, Some(SinkEvent::RecordingStopped))
        } else {
            (active, None)
        },
        RecordingInput::Shutdown => (false, Some(SinkEvent::RecordingStopped)),
    }
}

/// Whether the sink is recording after a run of inputs.
pub open spec fn run_active(active: bool, inputs: Seq<RecordingInput>) -> bool
    decreases inputs.len(),
{
    if inputs.len() == 0 {
        active
    } else {
        recording_step(run_active(active, inputs.drop_last()), inputs.last()).0
    }
}

/// The transitions reported along a run of inputs, in order.
pub open spec fn run_events(active: bool, inputs: Seq<RecordingInput>) -> Seq<SinkEvent>
    decreases inputs.len(),
{
    if inputs.len() == 0 {
        Seq::empty()
    } else {
        let before = run_events(active, inputs.drop_last());
        match recording_step(run_active(active, inputs.drop_last()), inputs.last()).1 {
            Some(e) => before.push(e),
            None => before,
        }
    }
}

/// A recording start is never reported twice in a row: from an idle sink,
/// along any run of inputs, the sink is recording exactly when the latest
/// recording transition reported is a start, and each `RecordingStarted` is
/// reported only where the transitions before it do not already end in one.
pub proof fn lemma_recordings_alternate(inputs: Seq<RecordingInput>)
    ensures
        run_active(false, inputs) == stands_started(
            run_events(false, inputs),
            SinkEvent::RecordingStarted,
            SinkEvent::RecordingStopped,
        ),
        forall|k: int|
            0 <= k < run_events(false, inputs).len() && run_events(false, inputs)[k]
                == SinkEvent::RecordingStarted ==> !stands_started(
                #[trigger] run_events(false, inputs).take(k),
                SinkEvent::RecordingStarted,
                SinkEvent::RecordingStopped,
            ),
    decreases inputs.len(),
{
    if inputs.len() > 0 {
        let prev = inputs.drop_last();
        lemma_recordings_alternate(prev);
        let before = run_events(false, prev);
        let after = run_events(false, inputs);
        match recording_step(run_active(false, prev), inputs.last()).1 {
            Some(e) => {
                assert(after == before.push(e));
                assert(after.drop_last() == before);
                assert(after.last() == e);
                assert forall|k: int|
                    0 <= k < after.len() && after[k] == SinkEvent::RecordingStarted implies !stands_started(
                    #[trigger] after.take(k),
                    SinkEvent::RecordingStarted,
                    SinkEvent::RecordingStopped,
                ) by {
                    if k < before.len() {
                        assert(after.take(k) == before.take(k));
                    } else {
                        assert(after.take(k) == before);
                    }
                }
            },
            None => {
                assert(after == before);
            },
        }
    }
}

impl RecordingSink {
    /// The path of the file being written, when recording.
    pub closed spec fn current(&self) -> Option<Seq<char>> {
        match self.file {
            Some(p) => Some(p@),
            None => None,
        }
    }

    /// `Active` while a file is open.
    pub open spec fn spec_state(&self) -> SinkState {
        if self.current() is Some {
            SinkState::Active
        } else {
            SinkState::Idle
        }
    }

    /// A sink waiting for frames, with no file open.
    pub fn new() -> (r: RecordingSink)
        ensures
            r.current() is None,
    {
        RecordingSink { file: None }
    }

    /// Whether a file is open.
    pub fn state(&self) -> (r: SinkState)
        ensures
            r == self.spec_state(),
    {
        match self.file {
            Some(_) => SinkState::Active,
            None => SinkState::Idle,
        }
    }

    /// The path of the file being written, when recording.
    pub fn current_file(&self) -> (r: Option<String>)
        ensures
            r matches Some(p) ==> self.current() == Some(p@),
            r is None <==> self.current() is None,
    {
        self.file.clone()
    }

    /// Decides what to do with a frame that just arrived. A recording starts
    /// with a file named by the current local time, and is reported before
    /// any byte is written.
    pub fn on_frame(&mut self, desire: bool) -> (r: RecordingDecision)
        ensures
            (final(self).current() is Some, r.event) == recording_step(
                old(self).current() is Some,
                RecordingInput::Frame { desire },
            ),
            match old(self).current() {
                None => if desire {
                    &&& r.event == Some(SinkEvent::RecordingStarted)
                    &&& r.action matches RecordingAction::OpenAndWrite(p) && final(self).current()
                        == Some(p@) && has_mp3_extension(p@)
                } else {
                    r == (RecordingDecision { action: RecordingAction::Skip, event: None })
                        && final(self).current() is None
                },
                Some(path) => if desire {
                    r == (RecordingDecision { action: RecordingAction::Write, event: None })
                        && final(self).current() == Some(path)
                } else {
                    &&& r.event == Some(SinkEvent::RecordingStopped)
                    &&& r.action matches RecordingAction::Finish(h) && h.file_path@ == path
                        && h.destination_folder@ == Seq::<char>::empty()
                    &&& final(self).current() is None
                },
            },
    {
        match self.file.take() {
            None => {
                if desire {
                    let path = local_time_file_name();
                    self.file = Some(path.clone());
                    RecordingDecision {
                        action: RecordingAction::OpenAndWrite(path),
                        event: Some(SinkEvent::RecordingStarted),
                    }
                } else {
                    RecordingDecision { action: RecordingAction::Skip, event: None }
                }
            },
            Some(path) => {
                if desire {
                    self.file = Some(path);
                    RecordingDecision { action: RecordingAction::Write, event: None }
                } else {
                    RecordingDecision {
                        action: RecordingAction::Finish(
                            UploadHandoff { file_path: path, destination_folder: String::new() },
                        ),
                        event: Some(SinkEvent::RecordingStopped),
                    }
                }
            },
        }
    }
}

impl RecordingSink {
    /// Decides what follows an attempt to open the file or append to it. A
    /// failure ends the recording on the spot: it is reported stopped, and
    /// the file is neither finished nor uploaded.
    pub fn on_write(&mut self, ok: bool) -> (r: RecordingDecision)
        requires
            old(self).current() is Some,
        ensures
            (final(self).current() is Some, r.event) == recording_step(true, RecordingInput::WriteResult { ok }),
            ok ==> r == (RecordingDecision { action: RecordingAction::Skip, event: None })
                && final(self).current() == old(self).current(),
            !ok ==> r == (RecordingDecision {
                action: RecordingAction::Abandon,
                event: Some(SinkEvent::RecordingStopped),
            }) && final(self).current() is None,
    {
        if ok {
            RecordingDecision { action: RecordingAction::Skip, event: None }
        } else {
            self.file = None;
            RecordingDecision {
                action: RecordingAction::Abandon,
                event: Some(SinkEvent::RecordingStopped),
            }
        }
    }

    /// The frame bus closed or shutdown was requested: the recording under
    /// way, if any, is finished and handed off as if silence had come, the
    /// sink is reported stopped in any case, and the thread ends.
    pub fn on_shutdown(&mut self) -> (r: RecordingDecision)
        ensures
            (final(self).current() is Some, r.event) == recording_step(
                old(self).current() is Some,
                RecordingInput::Shutdown,
            ),
            final(self).current() is None,
            r.event == Some(SinkEvent::RecordingStopped),
            match old(self).current() {
                None => r.action == RecordingAction::Exit,
                Some(path) => r.action matches RecordingAction::FinishAndExit(h) && h.file_path@
                    == path && h.destination_folder@ == Seq::<char>::empty(),
            },
    {
        match self.file.take() {
            None => RecordingDecision {
                action: RecordingAction::Exit,
                event: Some(SinkEvent::RecordingStopped),
            },
            Some(path) => RecordingDecision {
                action: RecordingAction::FinishAndExit(
                    UploadHandoff { file_path: path, destination_folder: String::new() },
                ),
                event: Some(SinkEvent::RecordingStopped),
            },
        }
    }
}

} // verus!
