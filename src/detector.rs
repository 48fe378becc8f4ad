//! On-air detection: hysteresis over per-frame loudness and wall-clock time.
//!
//! Loud audio asserts the desire to broadcast at once; the desire is only
//! withdrawn once a quiet frame arrives after more than the silence timeout
//! has passed since the last loud frame.
use vstd::prelude::*;
use crate::levels::{ChannelPower, exceeds};

verus! {

/// State of the on-air decision.
#[derive(Clone, Copy, Debug, PartialEq, Eq, Structural)]
pub struct OnAirDetector {
    /// Whether the sinks should currently be active.
    pub desire_to_broadcast: bool,
    /// Wall-clock time (milliseconds since the epoch) of the last loud frame.
    pub last_loud_at_ms: u64,
    /// Mean-square level a channel must exceed to count as loud.
    pub silence_threshold: u32,
    /// Seconds of silence after which the desire is withdrawn.
    pub silence_timeout_secs: u64,
}

/// Milliseconds from `from_ms` to `now_ms`; a clock that went backwards
/// counts as no time at all.
pub open spec fn elapsed_ms(from_ms: u64, now_ms: u64) -> int {
    if now_ms >= from_ms {
        now_ms - from_ms
    } else {
        0
    }
}

/// The silence timeout in milliseconds.
pub open spec fn timeout_ms(d: OnAirDetector) -> int {
    d.silence_timeout_secs * 1000
}

/// A frame is loud when either channel exceeds the threshold.
pub open spec fn is_loud(levels: (ChannelPower, ChannelPower), threshold: u32) -> bool {
    exceeds(levels.0, threshold) || exceeds(levels.1, threshold)
}

/// One transition of the detector on a frame that is `loud` or not, seen at `now_ms`.
pub open spec fn step(d: OnAirDetector, loud: bool, now_ms: u64) -> OnAirDetector {
    if loud {
        OnAirDetector { desire_to_broadcast: true, last_loud_at_ms: now_ms, ..d }
    } else if elapsed_ms(d.last_loud_at_ms, now_ms) > timeout_ms(d) {
        OnAirDetector { desire_to_broadcast: false, ..d }
    } else {
        d
    }
}

/// The detector after a sequence of readings `(loud, now_ms)`, in order.
pub open spec fn run(d: OnAirDetector, readings: Seq<(bool, u64)>) -> OnAirDetector
    decreases readings.len(),
{
    if readings.len() == 0 {
        d
    } else {
        let last = readings.last();
        step(run(d, readings.drop_last()), last.0, last.1)
    }
}

/// Readings whose clock never goes backwards.
pub open spec fn times_ordered(readings: Seq<(bool, u64)>) -> bool {
    forall|i: int, j: int| 0 <= i <= j < readings.len() ==> readings[i].1 <= readings[j].1
}

impl OnAirDetector {
    /// A detector that starts silent, its last loud frame at the epoch.
    pub fn new(silence_threshold: u32, silence_timeout_secs: u64) -> (r: OnAirDetector)
        ensures
            r == (OnAirDetector {
                desire_to_broadcast: false,
                last_loud_at_ms: 0,
                silence_threshold,
                silence_timeout_secs,
            }),
    {
        OnAirDetector {
            desire_to_broadcast: false,
            last_loud_at_ms: 0,
            silence_threshold,
            silence_timeout_secs,
        }
    }

    /// Feeds one frame's levels, observed at `now_ms`; returns whether the
    /// desire to broadcast changed.
    pub fn advance(&mut self, levels: (ChannelPower, ChannelPower), now_ms: u64) -> (changed: bool)
        ensures
            *final(self) == step(*old(self), is_loud(levels, old(self).silence_threshold), now_ms),
            changed == (final(self).desire_to_broadcast != old(self).desire_to_broadcast),
    {
        let before = self.desire_to_broadcast;
        if levels.0.exceeds(self.silence_threshold) || levels.1.exceeds(self.silence_threshold) {
            self.desire_to_broadcast = true;
            self.last_loud_at_ms = now_ms;
        } else {
            let elapsed: u64 = if now_ms >= self.last_loud_at_ms {
                now_ms - self.last_loud_at_ms
            } else {
                0
            };
            if elapsed as u128 > self.silence_timeout_secs as u128 * 1000 {
                self.desire_to_broadcast = false;
            }
        }
        before != self.desire_to_broadcast
    }
}

proof fn lemma_elapsed_monotone(a: u64, b: u64, c: u64)
    requires
        a <= b,
        b <= c,
    ensures
        elapsed_ms(b, c) <= elapsed_ms(a, c),
{
}

proof fn lemma_run_tracks_last_loud(d: OnAirDetector, readings: Seq<(bool, u64)>)
    requires
        !d.desire_to_broadcast,
        times_ordered(readings),
    ensures
        run(d, readings).silence_timeout_secs == d.silence_timeout_secs,
        (forall|i: int| 0 <= i < readings.len() ==> !readings[i].0) ==> !run(
            d,
            readings,
        ).desire_to_broadcast,
        (exists|i: int| 0 <= i < readings.len() && readings[i].0) ==> exists|i: int|
            0 <= i < readings.len() && readings[i].0 && run(d, readings).last_loud_at_ms
                == readings[i].1 && (forall|m: int| i < m < readings.len() ==> !readings[m].0)
                && (run(d, readings).desire_to_broadcast <==> elapsed_ms(
                readings[i].1,
                readings.last().1,
            ) <= timeout_ms(d)),
    decreases readings.len(),
{
    if readings.len() > 0 {
        let prev = readings.drop_last();
        let n = readings.len() - 1;
        let last = readings.last();
        assert(times_ordered(prev));
        lemma_run_tracks_last_loud(d, prev);
        let r0 = run(d, prev);
        let r = run(d, readings);
        assert(r == step(r0, last.0, last.1));
        if last.0 {
            assert(readings[n].0 && r.last_loud_at_ms == readings[n].1);
        } else {
            if forall|i: int| 0 <= i < prev.len() ==> !prev[i].0 {
                assert forall|i: int| 0 <= i < readings.len() implies !readings[i].0 by {
                    if i < n {
                        assert(prev[i] == readings[i]);
                    }
                }
            } else {
                let k = choose|i: int| 0 <= i < prev.len() && prev[i].0;
                assert(readings[k] == prev[k]);
                let i = choose|i: int|
                    0 <= i < prev.len() && prev[i].0 && r0.last_loud_at_ms == prev[i].1 && (forall|
                        m: int,
                    | i < m < prev.len() ==> !prev[m].0) && (r0.desire_to_broadcast
                        <==> elapsed_ms(prev[i].1, prev.last().1) <= timeout_ms(d));
                assert(readings[i] == prev[i]);
                assert(prev.last() == readings[n - 1]);
                let (a, b, c) = (readings[i].1, readings[n - 1].1, readings[n].1);
                assert(a <= b <= c);
                lemma_elapsed_monotone(a, b, c);
                assert forall|m: int| i < m < readings.len() implies !readings[m].0 by {
                    if m < n {
                        assert(prev[m] == readings[m]);
                    }
                }
            }
        }
    }
}

/// The desire to broadcast is sticky: starting from a silent detector, after
/// any run of readings whose clock does not go backwards, the desire is
/// asserted exactly when some reading was loud and no more than the silence
/// timeout separates it from the latest reading.
pub proof fn lemma_desire_follows_last_loud(d: OnAirDetector, readings: Seq<(bool, u64)>)
    requires
        !d.desire_to_broadcast,
        times_ordered(readings),
        readings.len() > 0,
    ensures
        run(d, readings).desire_to_broadcast <==> exists|i: int|
            0 <= i < readings.len() && readings[i].0 && elapsed_ms(
                readings[i].1,
                readings.last().1,
            ) <= timeout_ms(d),
{
    lemma_run_tracks_last_loud(d, readings);
    let r = run(d, readings);
    let n = readings.len() - 1;
    if exists|i: int| 0 <= i < readings.len() && readings[i].0 {
        let j = choose|i: int|
            0 <= i < readings.len() && readings[i].0 && r.last_loud_at_ms == readings[i].1 && (
            forall|m: int| i < m < readings.len() ==> !readings[m].0) && (r.desire_to_broadcast
                <==> elapsed_ms(readings[i].1, readings.last().1) <= timeout_ms(d));
        assert forall|i: int|
            0 <= i < readings.len() && readings[i].0 && elapsed_ms(
                readings[i].1,
                readings.last().1,
            ) <= timeout_ms(d) implies r.desire_to_broadcast by {
            assert(i <= j);
            lemma_elapsed_monotone(readings[i].1, readings[j].1, readings[n].1);
        }
    }
}

} // verus!
