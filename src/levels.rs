//! Per-channel signal power of an interleaved PCM buffer.
//!
//! Samples are signed 16-bit PCM. A channel's loudness is kept exactly as the
//! sum of its squared samples and the number of samples, so that comparisons
//! against a threshold need no rounding.
use vstd::prelude::*;

verus! {

/// Largest square of a 16-bit sample: `(-32768)^2`.
pub const MAX_SQUARE: u64 = 1073741824;

/// The energy of one channel over one frame.
#[derive(Clone, Copy, Debug, PartialEq, Eq, Structural)]
pub struct ChannelPower {
    pub sum_squares: u128,
    pub count: u64,
}

/// Sum of `s[i]^2` over the first `n` positions `i` with `i % channels == ch`.
pub open spec fn sum_squares_of(s: Seq<i16>, channels: nat, ch: nat, n: nat) -> int
    decreases n,
{
    if n == 0 {
        0
    } else {
        let i = (n - 1) as nat;
        sum_squares_of(s, channels, ch, i) + if i % channels == ch {
            s[i as int] * s[i as int]
        } else {
            0
        }
    }
}

/// Number of the first `n` positions `i` with `i % channels == ch`.
pub open spec fn count_of(channels: nat, ch: nat, n: nat) -> nat
    decreases n,
{
    if n == 0 {
        0
    } else {
        let i = (n - 1) as nat;
        count_of(channels, ch, i) + if i % channels == ch {
            1nat
        } else {
            0nat
        }
    }
}

/// The power of channel `ch` of the interleaved buffer `s`.
pub open spec fn power_of(s: Seq<i16>, channels: nat, ch: nat) -> ChannelPower {
    ChannelPower {
        sum_squares: sum_squares_of(s, channels, ch, s.len()) as u128,
        count: count_of(channels, ch, s.len()) as u64,
    }
}

/// A channel sits at the floor level when it carried no energy at all.
pub open spec fn is_floor(p: ChannelPower) -> bool {
    p.count == 0 || p.sum_squares == 0
}

/// A channel is louder than a threshold given as a mean square when its mean
/// square strictly exceeds it. A channel at the floor is never louder.
pub open spec fn exceeds(p: ChannelPower, threshold: u32) -> bool {
    p.count > 0 && p.sum_squares > threshold as u128 * p.count as u128
}

proof fn lemma_sum_squares_bounds(s: Seq<i16>, channels: nat, ch: nat, n: nat)
    requires
        n <= s.len(),
    ensures
        0 <= sum_squares_of(s, channels, ch, n) <= n * MAX_SQUARE,
        count_of(channels, ch, n) <= n,
    decreases n,
{
    if n > 0 {
        let i = (n - 1) as nat;
        lemma_sum_squares_bounds(s, channels, ch, i);
        let x = s[i as int] as int;
        assert(0 <= x * x <= MAX_SQUARE) by (nonlinear_arith)
            requires
                -32768 <= x <= 32767,
        ;
    }
}

proof fn lemma_zero_sum(s: Seq<i16>, channels: nat, ch: nat, n: nat)
    requires
        n <= s.len(),
        forall|i: int| 0 <= i < s.len() ==> s[i] == 0,
    ensures
        sum_squares_of(s, channels, ch, n) == 0,
    decreases n,
{
    if n > 0 {
        lemma_zero_sum(s, channels, ch, (n - 1) as nat);
    }
}

/// A buffer of pure silence (every sample zero) puts both channels at the
/// floor level, whatever the channel count.
pub proof fn lemma_silence_is_floor(s: Seq<i16>, channels: nat)
    requires
        channels > 0,
        forall|i: int| 0 <= i < s.len() ==> s[i] == 0,
    ensures
        is_floor(power_of(s, channels, 0)),
        is_floor(power_of(s, channels, 1)),
        !exceeds(power_of(s, channels, 0), 0),
        !exceeds(power_of(s, channels, 1), 0),
{
    lemma_zero_sum(s, channels, 0, s.len());
    lemma_zero_sum(s, channels, 1, s.len());
}

/// Computes the power of the left (position `i % channels == 0`) and right
/// (`i % channels == 1`) channels of an interleaved buffer.
pub fn calculate_rms_levels(data: &Vec<i16>, channels: usize) -> (r: (ChannelPower, ChannelPower))
    requires
        channels > 0,
    ensures
        r.0 == power_of(data@, channels as nat, 0),
        r.1 == power_of(data@, channels as nat, 1),
{
    let mut left_sum: u128 = 0;
    let mut right_sum: u128 = 0;
    let mut left_count: u64 = 0;
    let mut right_count: u64 = 0;
    let mut i: usize = 0;
    while i < data.len()
        invariant
            i <= data@.len(),
            channels > 0,
            left_sum == sum_squares_of(data@, channels as nat, 0, i as nat),
            right_sum == sum_squares_of(data@, channels as nat, 1, i as nat),
            left_count == count_of(channels as nat, 0, i as nat),
            right_count == count_of(channels as nat, 1, i as nat),
        decreases data@.len() - i,
    {
        proof {
            lemma_sum_squares_bounds(data@, channels as nat, 0, i as nat);
            lemma_sum_squares_bounds(data@, channels as nat, 1, i as nat);
            lemma_sum_squares_bounds(data@, channels as nat, 0, (i + 1) as nat);
            lemma_sum_squares_bounds(data@, channels as nat, 1, (i + 1) as nat);
            assert((i as int) * MAX_SQUARE < 0x1_0000_0000_0000_0000 * MAX_SQUARE) by (nonlinear_arith)
                requires
                    i < 0x1_0000_0000_0000_0000,
            ;
        }
        let v = data[i] as i32;
        proof {
            assert(0 <= v * v <= MAX_SQUARE) by (nonlinear_arith)
                requires
                    -32768 <= v <= 32767,
            ;
        }
        let sq = (v * v) as u128;
        if i % channels == 0 {
            left_sum = left_sum + sq;
            left_count = left_count + 1;
        } else if i % channels == 1 {
            right_sum = right_sum + sq;
            right_count = right_count + 1;
        }
        i = i + 1;
    }
    (
        ChannelPower { sum_squares: left_sum, count: left_count },
        ChannelPower { sum_squares: right_sum, count: right_count },
    )
}

impl ChannelPower {
    /// Whether this channel carried no energy (its level is the floor).
    pub fn is_floor(&self) -> (r: bool)
        ensures
            r == is_floor(*self),
    {
        self.count == 0 || self.sum_squares == 0
    }

    /// Whether this channel's mean square is strictly above `threshold`.
    pub fn exceeds(&self, threshold: u32) -> (r: bool)
        ensures
            r == exceeds(*self, threshold),
    {
        proof {
            assert(threshold as u128 * self.count as u128 <= 0xffff_ffff * 0xffff_ffff_ffff_ffff)
                by (nonlinear_arith)
                requires
                    threshold <= 0xffff_ffff,
                    self.count <= 0xffff_ffff_ffff_ffff,
            ;
        }
        self.count > 0 && self.sum_squares > threshold as u128 * self.count as u128
    }
}

} // verus!
