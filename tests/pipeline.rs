use alas::capture::{AudioSettings, CaptureEngine};
use alas::events::{SinkEvent, SinkState};
use alas::recording::{RecordingAction, RecordingSink, UploadHandoff};
use alas::streaming::{StreamingAction, StreamingSink};

/// -55 dBFS as a mean square of 16-bit samples.
const THRESHOLD: u32 = 3395;
const FRAME_MS: u64 = 100;

struct Station {
    engine: CaptureEngine,
    streaming: StreamingSink,
    recording: RecordingSink,
    events: Vec<SinkEvent>,
    files: Vec<String>,
    uploads: Vec<UploadHandoff>,
    sends_ok: usize,
    network_up: bool,
    now_ms: u64,
}

impl Station {
    fn new() -> Station {
        Station {
            engine: CaptureEngine::new(AudioSettings { silence_threshold: THRESHOLD, silence_timeout_secs: 15 }),
            streaming: StreamingSink::new(),
            recording: RecordingSink::new(),
            events: Vec::new(),
            files: Vec::new(),
            uploads: Vec::new(),
            sends_ok: 0,
            network_up: true,
            now_ms: 1_700_000_000_000,
        }
    }

    fn send(&mut self) {
        let ok = self.network_up;
        if ok {
            self.sends_ok += 1;
        }
        let d = self.streaming.on_send(ok);
        self.events.extend(d.event);
    }

    fn feed(&mut self, sample: i16, seconds: u64) {
        for _ in 0..(seconds * 1000 / FRAME_MS) {
            self.now_ms += FRAME_MS;
            let report = self.engine.handle_samples(vec![sample; 9600], self.now_ms, None);
            let desire = report.desire_to_broadcast;

            let d = self.streaming.on_frame(desire, false);
            self.events.extend(d.event);
            match d.action {
                StreamingAction::ConnectAndSend | StreamingAction::Send => self.send(),
                _ => {}
            }

            let d = self.recording.on_frame(desire);
            self.events.extend(d.event.clone());
            match d.action {
                RecordingAction::OpenAndWrite(path) => {
                    self.files.push(path);
                    let w = self.recording.on_write(true);
                    self.events.extend(w.event);
                }
                RecordingAction::Write => {
                    let w = self.recording.on_write(true);
                    self.events.extend(w.event);
                }
                RecordingAction::Finish(h) => self.uploads.push(h),
                _ => {}
            }
        }
    }

    fn count(&self, e: SinkEvent) -> usize {
        self.events.iter().filter(|x| **x == e).count()
    }
}

#[test]
fn loud_audio_starts_both_sinks() {
    let mut s = Station::new();
    s.feed(328, 2);
    assert_eq!(s.count(SinkEvent::RecordingStarted), 1);
    assert_eq!(s.count(SinkEvent::StreamingStarted), 1);
    assert_eq!(s.files.len(), 1);
    assert!(s.files[0].ends_with(".mp3"));
    assert!(s.sends_ok >= 1);
    assert_eq!(s.streaming.state, SinkState::Active);
    assert_eq!(s.recording.state(), SinkState::Active);
}

#[test]
fn long_silence_stops_both_sinks_and_uploads() {
    let mut s = Station::new();
    s.feed(328, 2);
    let started = s.events.len();
    s.feed(0, 16);
    let after: Vec<SinkEvent> = s.events[started..].to_vec();
    assert_eq!(after.iter().filter(|e| **e == SinkEvent::RecordingStopped).count(), 1);
    assert_eq!(after.iter().filter(|e| **e == SinkEvent::StreamingStopped).count(), 1);
    assert_eq!(s.uploads.len(), 1);
    assert_eq!(s.uploads[0].file_path, s.files[0]);
    assert_eq!(s.uploads[0].destination_folder, "");
    assert_eq!(s.recording.state(), SinkState::Idle);
    assert_eq!(s.streaming.state, SinkState::Idle);
}

#[test]
fn short_silence_keeps_sinks_running() {
    let mut s = Station::new();
    s.feed(328, 2);
    s.feed(0, 14);
    assert_eq!(s.count(SinkEvent::RecordingStopped), 0);
    assert_eq!(s.count(SinkEvent::StreamingStopped), 0);
    assert!(s.engine.desire_to_broadcast());
}

#[test]
fn network_failure_restarts_streaming_only() {
    let mut s = Station::new();
    s.feed(328, 2);
    s.network_up = false;
    let before = s.events.len();
    s.feed(328, 1);
    s.network_up = true;
    let failed_frames = 1000 / FRAME_MS as usize;
    let stops = s.events[before..].iter().filter(|e| **e == SinkEvent::StreamingStopped).count();
    assert_eq!(stops, failed_frames);
    s.feed(328, 1);
    let tail: Vec<SinkEvent> = s.events[before..].to_vec();
    let last_stop = tail.iter().rposition(|e| *e == SinkEvent::StreamingStopped).unwrap();
    assert_eq!(tail[last_stop + 1..].iter().filter(|e| **e == SinkEvent::StreamingStarted).count(), 1);
    assert_eq!(s.count(SinkEvent::RecordingStopped), 0);
    assert_eq!(s.count(SinkEvent::RecordingStarted), 1);
}

#[test]
fn single_send_failure_reports_one_stop_then_restart() {
    let mut sink = StreamingSink::new();
    assert_eq!(sink.on_frame(true, false).action, StreamingAction::ConnectAndSend);
    assert_eq!(sink.on_send(true).event, Some(SinkEvent::StreamingStarted));
    let d = sink.on_send(false);
    assert_eq!(d.event, Some(SinkEvent::StreamingStopped));
    assert_eq!(d.action, StreamingAction::Reconnect);
    assert_eq!(sink.on_frame(true, false).action, StreamingAction::Send);
    assert_eq!(sink.on_send(true).event, Some(SinkEvent::StreamingStarted));
    assert_eq!(sink.on_send(true).event, None);
}

#[test]
fn configuration_change_closes_stream() {
    let mut sink = StreamingSink::new();
    sink.on_frame(true, false);
    let d = sink.on_frame(true, true);
    assert_eq!(d.action, StreamingAction::Close);
    assert_eq!(d.event, Some(SinkEvent::StreamingStopped));
    assert_eq!(sink.on_frame(true, false).action, StreamingAction::ConnectAndSend);
    let d = sink.on_shutdown();
    assert_eq!(d.action, StreamingAction::Exit);
    assert_eq!(d.event, Some(SinkEvent::StreamingStopped));
}

#[test]
fn write_failure_abandons_recording() {
    let mut sink = RecordingSink::new();
    let d = sink.on_frame(true);
    assert_eq!(d.event, Some(SinkEvent::RecordingStarted));
    let d = sink.on_write(false);
    assert_eq!(d.action, RecordingAction::Abandon);
    assert_eq!(d.event, Some(SinkEvent::RecordingStopped));
    assert_eq!(sink.current_file(), None);
    let d = sink.on_frame(false);
    assert_eq!(d.action, RecordingAction::Skip);
}

#[test]
fn shutdown_finishes_open_recording() {
    let mut sink = RecordingSink::new();
    let path = match sink.on_frame(true).action {
        RecordingAction::OpenAndWrite(p) => p,
        other => panic!("unexpected {:?}", other),
    };
    let d = sink.on_shutdown();
    assert_eq!(d.event, Some(SinkEvent::RecordingStopped));
    assert_eq!(
        d.action,
        RecordingAction::FinishAndExit(UploadHandoff { file_path: path, destination_folder: String::new() })
    );
    let d = sink.on_shutdown();
    assert_eq!(d.action, RecordingAction::Exit);
    assert_eq!(d.event, Some(SinkEvent::RecordingStopped));
}
