//! The work done on every buffer the audio driver delivers: measure it,
//! update the on-air decision, and pass the frame on to the sinks.
//!
//! Nothing here blocks: the frame bus drops a frame for a sink that lags a
//! whole ring behind rather than wait for it, and a configuration that cannot be read right now is
//! replaced by the one seen before.
use vstd::prelude::*;
use crate::levels::{ChannelPower, calculate_rms_levels, power_of};
use crate::detector::{OnAirDetector, step, is_loud};
use crate::distribution::{DistributionBus, Subscription};

verus! {

/// Input sample rate, in samples per second and channel.
pub const SAMPLE_RATE: u32 = 48000;

/// Interleaved channels per frame.
pub const CHANNELS: usize = 2;

/// Frames the bus holds for its slowest sink: about thirty seconds of audio.
pub const FRAME_QUEUE_CAPACITY: usize = 66120;

/// The part of the configuration that the on-air decision reads.
#[derive(Clone, Copy, Debug, PartialEq, Eq, Structural)]
pub struct AudioSettings {
    /// Mean square a channel must exceed to count as loud.
    pub silence_threshold: u32,
    /// Whole seconds of silence before the desire to broadcast is withdrawn.
    pub silence_timeout_secs: u64,
}

/// What one buffer did.
#[derive(Clone, Debug, PartialEq, Eq)]
pub struct CaptureReport {
    pub left: ChannelPower,
    pub right: ChannelPower,
    /// The desire to broadcast after this buffer.
    pub desire_to_broadcast: bool,
    /// Whether this buffer changed the desire.
    pub changed: bool,
    /// For each subscriber, whether the frame was queued for it.
    pub delivered: Vec<bool>,
}

/// The capture side: on-air detector and the producer end of the frame bus.
pub struct CaptureEngine {
    detector: OnAirDetector,
    frames: DistributionBus,
}

/// The detector with a fresh configuration applied, if one could be read.
pub open spec fn with_settings(d: OnAirDetector, settings: Option<AudioSettings>) -> OnAirDetector {
    match settings {
        Some(s) => OnAirDetector {
            silence_threshold: s.silence_threshold,
            silence_timeout_secs: s.silence_timeout_secs,
            ..d
        },
        None => d,
    }
}

impl CaptureEngine {
    pub closed spec fn detector(&self) -> OnAirDetector {
        self.detector
    }

    /// For each subscriber, every frame queued for it.
    pub closed spec fn spec_sent(&self) -> Seq<Seq<Seq<i16>>> {
        self.frames.spec_sent()
    }

    /// A sink can still subscribe.
    pub closed spec fn wf(&self) -> bool {
        self.frames.wf()
    }

    /// A silent engine whose frame bus holds `FRAME_QUEUE_CAPACITY` frames.
    pub fn new(settings: AudioSettings) -> (r: CaptureEngine)
        ensures
            r.detector() == (OnAirDetector {
                desire_to_broadcast: false,
                last_loud_at_ms: 0,
                silence_threshold: settings.silence_threshold,
                silence_timeout_secs: settings.silence_timeout_secs,
            }),
            r.wf(),
            r.spec_sent() == Seq::<Seq<Seq<i16>>>::empty(),
    {
        CaptureEngine {
            detector: OnAirDetector::new(settings.silence_threshold, settings.silence_timeout_secs),
            frames: DistributionBus::new(FRAME_QUEUE_CAPACITY),
        }
    }

    /// A sink's subscription to every frame handled from now on.
    pub fn subscribe(&mut self) -> (r: Subscription)
        requires
            old(self).wf(),
        ensures
            final(self).wf(),
            final(self).detector() == old(self).detector(),
            final(self).spec_sent() == old(self).spec_sent().push(Seq::<Seq<i16>>::empty()),
            r.spec_received() == Seq::<Seq<i16>>::empty(),
    {
        self.frames.subscribe()
    }

    /// The desire to broadcast as of the last buffer.
    pub fn desire_to_broadcast(&self) -> (r: bool)
        ensures
            r == self.detector().desire_to_broadcast,
    {
        self.detector.desire_to_broadcast
    }

    /// Handles one interleaved stereo buffer seen at `now_ms`, with the
    /// configuration if it could be read without waiting.
    pub fn handle_samples(&mut self, input: Vec<i16>, now_ms: u64, settings: Option<AudioSettings>) -> (r: CaptureReport)
        ensures
            r.left == power_of(input@, CHANNELS as nat, 0),
            r.right == power_of(input@, CHANNELS as nat, 1),
            final(self).detector() == step(
                with_settings(old(self).detector(), settings),
                is_loud((r.left, r.right), with_settings(old(self).detector(), settings).silence_threshold),
                now_ms,
            ),
            r.desire_to_broadcast == final(self).detector().desire_to_broadcast,
            r.changed == (final(self).detector().desire_to_broadcast != old(self).detector().desire_to_broadcast),
            final(self).wf() == old(self).wf(),
            r.delivered@.len() == old(self).spec_sent().len(),
            final(self).spec_sent().len() == old(self).spec_sent().len(),
            forall|i: int|
                0 <= i < r.delivered@.len() ==> #[trigger] final(self).spec_sent()[i] == if r.delivered@[i] {
                    old(self).spec_sent()[i].push(input@)
                } else {
                    old(self).spec_sent()[i]
                },
    {
        let (left, right) = calculate_rms_levels(&input, CHANNELS);
        if let Some(s) = settings {
            self.detector.silence_threshold = s.silence_threshold;
            self.detector.silence_timeout_secs = s.silence_timeout_secs;
        }
        let changed = self.detector.advance((left, right), now_ms);
        let delivered = self.frames.publish(input);
        CaptureReport {
            left,
            right,
            desire_to_broadcast: self.detector.desire_to_broadcast,
            changed,
            delivered,
        }
    }
}

} // verus!
