use alas::capture::{AudioSettings, CaptureEngine, CHANNELS};
use alas::detector::OnAirDetector;
use alas::distribution::DistributionBus;
use alas::encoder::{split_channels, Bitrate, EncoderSettings, FrameEncoder};
use alas::levels::{calculate_rms_levels, ChannelPower};
use std::f64::consts::PI;

const FULL_SCALE: f64 = 32768.0;

fn generate_sine_wave_pcm(frequency: f64, sample_rate: u32, duration: f64, amplitude: i16) -> Vec<i16> {
    let num_samples = ((sample_rate as f64) * duration) as usize;
    let mut samples = Vec::with_capacity(num_samples);
    for n in 0..num_samples {
        let t = (n as f64) / (sample_rate as f64);
        let sample_value = ((amplitude as f64) * (2.0 * PI * frequency * t).sin()).round();
        samples.push(sample_value as i16);
    }
    samples
}

/// dBFS of a channel, floored at -60 when it carried no energy.
fn db_of(p: ChannelPower) -> f64 {
    if p.is_floor() {
        -60.0
    } else {
        let mean_square = p.sum_squares as f64 / p.count as f64;
        10.0 * (mean_square / (FULL_SCALE * FULL_SCALE)).log10()
    }
}

/// Mean-square threshold equivalent to a level in dBFS.
fn threshold_for_db(db: f64) -> u32 {
    (FULL_SCALE * FULL_SCALE * 10f64.powf(db / 10.0)) as u32
}

#[test]
fn audio_test_rms() {
    let quiet_samples = generate_sine_wave_pcm(440.0, 48_000, 1.0, 32767 / 2);
    let loud_samples = generate_sine_wave_pcm(440.0, 48_000, 1.0, 32767);

    let (quiet, _) = calculate_rms_levels(&quiet_samples, 1);
    let (loud, _) = calculate_rms_levels(&loud_samples, 1);
    let quiet_rms = db_of(quiet);
    let loud_rms = db_of(loud);

    assert!(quiet_rms > -60.0);
    assert!(loud_rms > -60.0);
    assert!(quiet_rms < loud_rms);
}

#[test]
fn silence_sits_at_the_floor() {
    for len in [0usize, 1, 2, 7, 960] {
        let (l, r) = calculate_rms_levels(&vec![0i16; len], 2);
        assert!(l.is_floor() && r.is_floor());
        assert_eq!(db_of(l), -60.0);
        assert_eq!(db_of(r), -60.0);
        assert!(!l.exceeds(0) && !r.exceeds(0));
    }
}

#[test]
fn full_scale_sine_is_near_full_scale() {
    let mono = generate_sine_wave_pcm(1000.0, 48_000, 1.0, 32767);
    let mut stereo = Vec::new();
    for s in &mono {
        stereo.push(*s);
        stereo.push(0);
    }
    let (l, r) = calculate_rms_levels(&stereo, 2);
    // A sine's RMS is its peak over the square root of two: -3.01 dBFS.
    assert!((db_of(l) - (-3.0103)).abs() < 0.5);
    assert!(r.is_floor());
}

#[test]
fn channel_powers_are_exact() {
    let (l, r) = calculate_rms_levels(&vec![3, -4, 5, 0, -1], 2);
    assert_eq!(l, ChannelPower { sum_squares: 35, count: 3 });
    assert_eq!(r, ChannelPower { sum_squares: 16, count: 2 });
    assert!(l.exceeds(11) && !l.exceeds(12));
    let (only, none) = calculate_rms_levels(&vec![2, 2], 1);
    assert_eq!(only, ChannelPower { sum_squares: 8, count: 2 });
    assert_eq!(none, ChannelPower { sum_squares: 0, count: 0 });
}

fn loud_frame() -> Vec<i16> {
    // 328^2 = 107584, about -40 dBFS.
    vec![328i16; 1920]
}

fn quiet_frame() -> Vec<i16> {
    vec![0i16; 1920]
}

#[test]
fn detector_holds_through_timeout_then_releases() {
    let t = threshold_for_db(-55.0);
    let mut d = OnAirDetector::new(t, 15);
    let loud = calculate_rms_levels(&loud_frame(), CHANNELS);
    let quiet = calculate_rms_levels(&quiet_frame(), CHANNELS);
    assert!(!d.desire_to_broadcast);
    assert!(d.advance(loud, 1_000_000));
    assert!(d.desire_to_broadcast);
    assert_eq!(d.last_loud_at_ms, 1_000_000);
    // Exactly 15 s of silence is not more than the timeout.
    assert!(!d.advance(quiet, 1_015_000));
    assert!(d.desire_to_broadcast);
    assert!(d.advance(quiet, 1_015_001));
    assert!(!d.desire_to_broadcast);
}

#[test]
fn level_equal_to_threshold_is_silence() {
    let mut d = OnAirDetector::new(100, 15);
    let at = (ChannelPower { sum_squares: 400, count: 4 }, ChannelPower { sum_squares: 0, count: 4 });
    assert!(!d.advance(at, 5_000));
    let above = (ChannelPower { sum_squares: 401, count: 4 }, ChannelPower { sum_squares: 0, count: 4 });
    assert!(d.advance(above, 5_000));
}

#[test]
fn silent_frames_encode_to_mp3() {
    let settings = EncoderSettings { channels: 2, sample_rate: 48_000, bitrate: Bitrate::Kbps128 };
    let mut encoder = FrameEncoder::new(settings).expect("encoder");
    assert_eq!(encoder.get_settings(), settings);
    let mut total = Vec::new();
    for _ in 0..10 {
        let bytes = encoder.encode_frame(&vec![0i16; 2304]).expect("encode");
        total.extend_from_slice(&bytes);
    }
    assert!(!total.is_empty());
    // Every MP3 frame starts with an 11-bit sync word.
    assert_eq!(total[0], 0xff);
    assert_eq!(total[1] & 0xe0, 0xe0);
}

#[test]
fn split_channels_deinterleaves() {
    let (l, r) = split_channels(&vec![1, 2, 3, 4, 5]);
    assert_eq!(l, vec![1, 3, 5]);
    assert_eq!(r, vec![2, 4]);
}

#[test]
fn fast_subscriber_is_not_held_back_by_slow_one() {
    let mut bus = DistributionBus::new(128);
    let mut fast = bus.subscribe();
    let mut slow = bus.subscribe();
    for i in 0..100i16 {
        assert_eq!(bus.publish(vec![i, i]), vec![true, true]);
        assert_eq!(fast.try_recv(), Some(vec![i, i]));
    }
    assert_eq!(fast.try_recv(), None);
    for i in 0..100i16 {
        assert_eq!(slow.try_recv(), Some(vec![i, i]));
    }
}

#[test]
fn fast_subscriber_keeps_up_while_slow_one_stalls() {
    let mut bus = DistributionBus::new(10);
    let mut fast = bus.subscribe();
    let mut slow = bus.subscribe();
    for i in 0..100i16 {
        let delivered = bus.publish(vec![i]);
        assert!(delivered[0]);
        assert_eq!(delivered[1], i < 10);
        assert_eq!(fast.try_recv(), Some(vec![i]));
    }
    for i in 0..10i16 {
        assert_eq!(slow.try_recv(), Some(vec![i]));
    }
    assert_eq!(slow.try_recv(), None);
}

#[test]
fn full_ring_drops_instead_of_blocking() {
    let mut bus = DistributionBus::new(2);
    let mut rx = bus.subscribe();
    assert_eq!(bus.publish(vec![1]), vec![true]);
    assert_eq!(bus.publish(vec![2]), vec![true]);
    assert_eq!(bus.publish(vec![3]), vec![false]);
    assert_eq!(rx.try_recv(), Some(vec![1]));
    assert_eq!(rx.try_recv(), Some(vec![2]));
    assert_eq!(rx.try_recv(), None);
}

#[test]
fn capture_engine_reports_levels_and_desire() {
    let settings = AudioSettings { silence_threshold: threshold_for_db(-55.0), silence_timeout_secs: 15 };
    let mut engine = CaptureEngine::new(settings);
    let mut sink = engine.subscribe();
    let report = engine.handle_samples(loud_frame(), 10_000, None);
    assert!(report.desire_to_broadcast && report.changed);
    assert_eq!(report.delivered, vec![true]);
    assert_eq!(report.left, ChannelPower { sum_squares: 107584 * 960, count: 960 });
    assert_eq!(sink.try_recv(), Some(loud_frame()));
    // A stricter configuration read on the next buffer applies at once.
    let strict = AudioSettings { silence_threshold: 200_000, silence_timeout_secs: 0 };
    let report = engine.handle_samples(loud_frame(), 12_000, Some(strict));
    assert!(!report.desire_to_broadcast && report.changed);
}
