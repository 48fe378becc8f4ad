//! MP3 encoding of interleaved stereo frames through LAME.
use vstd::prelude::*;

verus! {

#[verifier::external_type_specification]
#[verifier::external_body]
pub struct ExLameBuilder(mp3lame_encoder::Builder);

#[verifier::external_type_specification]
#[verifier::external_body]
pub struct ExLameEncoder(mp3lame_encoder::Encoder);

#[verifier::external_type_specification]
#[verifier::external_body]
pub struct ExLameBuildError(mp3lame_encoder::BuildError);

#[verifier::external_type_specification]
#[verifier::external_body]
pub struct ExLameEncodeError(mp3lame_encoder::EncodeError);

/// Largest number of samples per channel that LAME takes in one call
/// (its sample count is a C `int`).
pub const MAX_CHANNEL_SAMPLES: usize = 0x7fff_ffff;

/// Constant bit rates the sinks use.
#[derive(Clone, Copy, Debug, PartialEq, Eq, Structural)]
pub enum Bitrate {
    Kbps128,
    Kbps192,
    Kbps256,
    Kbps320,
}

/// Why an encoder could not be set up or could not encode.
#[derive(Clone, Copy, Debug, PartialEq, Eq, Structural)]
pub enum EncoderError {
    /// LAME could not allocate its state.
    Allocation,
    /// LAME refused the channel count.
    Channels,
    /// LAME refused the sample rate.
    SampleRate,
    /// LAME refused the bit rate.
    BitRate,
    /// LAME refused the combination of parameters.
    Parameters,
    /// Encoding a frame failed.
    Encode,
    /// Flushing the encoder failed.
    Flush,
}

/// The fixed parameters of one encoder.
#[derive(Clone, Copy, Debug, PartialEq, Eq, Structural)]
pub struct EncoderSettings {
    pub channels: u8,
    pub sample_rate: u32,
    pub bitrate: Bitrate,
}

/// An MP3 encoder with fixed channel count, sample rate and bit rate.
pub struct FrameEncoder {
    encoder: mp3lame_encoder::Encoder,
    settings: EncoderSettings,
}

/// Relies on `mp3lame_encoder::Builder::new`: allocates LAME state, `None` when it cannot.
#[verifier::external_body]
fn lame_builder() -> (r: Option<mp3lame_encoder::Builder>) {
    mp3lame_encoder::Builder::new()
}

/// Relies on `mp3lame_encoder::Builder::set_num_channels`.
#[verifier::external_body]
fn lame_set_num_channels(b: &mut mp3lame_encoder::Builder, num: u8) -> (r: Result<(), mp3lame_encoder::BuildError>) {
    b.set_num_channels(num)
}

/// Relies on `mp3lame_encoder::Builder::set_sample_rate`.
#[verifier::external_body]
fn lame_set_sample_rate(b: &mut mp3lame_encoder::Builder, rate: u32) -> (r: Result<(), mp3lame_encoder::BuildError>) {
    b.set_sample_rate(rate)
}

/// Relies on `mp3lame_encoder::Builder::set_brate`, given the LAME bit rate
/// of the same number of kbps.
#[verifier::external_body]
fn lame_set_brate(b: &mut mp3lame_encoder::Builder, rate: Bitrate) -> (r: Result<(), mp3lame_encoder::BuildError>) {
    b.set_brate(match rate {
        Bitrate::Kbps128 => mp3lame_encoder::Bitrate::Kbps128,
        Bitrate::Kbps192 => mp3lame_encoder::Bitrate::Kbps192,
        Bitrate::Kbps256 => mp3lame_encoder::Bitrate::Kbps256,
        Bitrate::Kbps320 => mp3lame_encoder::Bitrate::Kbps320,
    })
}

/// Relies on `mp3lame_encoder::Builder::build`: initialises the encoder from
/// the parameters set so far.
#[verifier::external_body]
fn lame_build(b: mp3lame_encoder::Builder) -> (r: Result<mp3lame_encoder::Encoder, mp3lame_encoder::BuildError>) {
    b.build()
}

/// Relies on `mp3lame_encoder::max_required_buffer_size`: the sample count,
/// plus a quarter of it rounded up, plus 7200 bytes for one MP3 frame.
#[verifier::external_body]
fn lame_buffer_size(samples: usize) -> (r: usize)
    requires
        samples <= MAX_CHANNEL_SAMPLES,
    ensures
        r == samples + samples / 4 + (if samples % 4 > 0 { 1usize } else { 0usize }) + 7200,
{
    mp3lame_encoder::max_required_buffer_size(samples)
}

/// Relies on `mp3lame_encoder::Encoder::encode_to_vec` with `DualPcm` input:
/// on success appends the bytes written (their count is returned) after what
/// `output` held; on failure leaves `output` as it was.
#[verifier::external_body]
fn lame_encode(
    encoder: &mut mp3lame_encoder::Encoder,
    left: &Vec<i16>,
    right: &Vec<i16>,
    output: &mut Vec<u8>,
) -> (r: Result<usize, mp3lame_encoder::EncodeError>)
    requires
        left@.len() == right@.len(),
        left@.len() <= MAX_CHANNEL_SAMPLES,
    ensures
        match r {
            Ok(n) => final(output)@.len() == old(output)@.len() + n && final(output)@.subrange(
                0,
                old(output)@.len() as int,
            ) == old(output)@,
            Err(_) => final(output)@ == old(output)@,
        },
{
    encoder.encode_to_vec(mp3lame_encoder::DualPcm { left: left.as_slice(), right: right.as_slice() }, output)
}

/// Relies on `mp3lame_encoder::Encoder::flush_to_vec::<FlushNoGap>`: on
/// success appends the bytes written (their count is returned) after what
/// `output` held; on failure leaves `output` as it was.
#[verifier::external_body]
fn lame_flush(encoder: &mut mp3lame_encoder::Encoder, output: &mut Vec<u8>) -> (r: Result<usize, mp3lame_encoder::EncodeError>)
    ensures
        match r {
            Ok(n) => final(output)@.len() == old(output)@.len() + n && final(output)@.subrange(
                0,
                old(output)@.len() as int,
            ) == old(output)@,
            Err(_) => final(output)@ == old(output)@,
        },
{
    encoder.flush_to_vec::<mp3lame_encoder::FlushNoGap>(output)
}

/// Left channel of an interleaved stereo buffer: the samples at even positions.
pub open spec fn left_of(s: Seq<i16>) -> Seq<i16> {
    Seq::new(((s.len() + 1) / 2) as nat, |k: int| s[2 * k])
}

/// Right channel of an interleaved stereo buffer: the samples at odd positions.
pub open spec fn right_of(s: Seq<i16>) -> Seq<i16> {
    Seq::new((s.len() / 2) as nat, |k: int| s[2 * k + 1])
}

/// Splits an interleaved stereo buffer into its left and right channels.
pub fn split_channels(samples: &Vec<i16>) -> (r: (Vec<i16>, Vec<i16>))
    ensures
        r.0@ == left_of(samples@),
        r.1@ == right_of(samples@),
{
    let mut left: Vec<i16> = Vec::new();
    let mut right: Vec<i16> = Vec::new();
    let mut i: usize = 0;
    while i < samples.len()
        invariant
            i <= samples@.len(),
            left@ == left_of(samples@.subrange(0, i as int)),
            right@ == right_of(samples@.subrange(0, i as int)),
        decreases samples@.len() - i,
    {
        let ghost before = samples@.subrange(0, i as int);
        let ghost after = samples@.subrange(0, i + 1);
        if i % 2 == 0 {
            left.push(samples[i]);
            assert(left@ =~= left_of(after));
            assert(right@ =~= right_of(after));
        } else {
            right.push(samples[i]);
            assert(left@ =~= left_of(after));
            assert(right@ =~= right_of(after));
        }
        i = i + 1;
    }
    assert(samples@.subrange(0, samples@.len() as int) =~= samples@);
    (left, right)
}

impl FrameEncoder {
    /// Sets up an encoder with the given channel count, sample rate and bit rate.
    pub fn new(settings: EncoderSettings) -> (r: Result<FrameEncoder, EncoderError>)
        ensures
            r matches Ok(e) ==> e.settings() == settings,
    {
        let mut builder = match lame_builder() {
            Some(b) => b,
            None => {
                return Err(EncoderError::Allocation);
            },
        };
        if lame_set_num_channels(&mut builder, settings.channels).is_err() {
            return Err(EncoderError::Channels);
        }
        if lame_set_sample_rate(&mut builder, settings.sample_rate).is_err() {
            return Err(EncoderError::SampleRate);
        }
        if lame_set_brate(&mut builder, settings.bitrate).is_err() {
            return Err(EncoderError::BitRate);
        }
        match lame_build(builder) {
            Ok(encoder) => Ok(FrameEncoder { encoder, settings }),
            Err(_) => Err(EncoderError::Parameters),
        }
    }

    pub closed spec fn settings(&self) -> EncoderSettings {
        self.settings
    }

    /// The parameters this encoder was built with.
    pub fn get_settings(&self) -> (r: EncoderSettings)
        ensures
            r == self.settings(),
    {
        self.settings
    }

    /// Encodes one interleaved stereo frame and flushes the encoder, so that
    /// the bytes returned stand alone as MP3 data.
    pub fn encode_frame(&mut self, samples: &Vec<i16>) -> (r: Result<Vec<u8>, EncoderError>)
        requires
            samples@.len() % 2 == 0,
            samples@.len() / 2 <= MAX_CHANNEL_SAMPLES,
        ensures
            final(self).settings() == old(self).settings(),
            r matches Err(e) ==> (e == EncoderError::Encode || e == EncoderError::Flush),
    {
        let (left, right) = split_channels(samples);
        let capacity = lame_buffer_size(left.len());
        let mut output: Vec<u8> = Vec::with_capacity(capacity);
        if lame_encode(&mut self.encoder, &left, &right, &mut output).is_err() {
            return Err(EncoderError::Encode);
        }
        if lame_flush(&mut self.encoder, &mut output).is_err() {
            return Err(EncoderError::Flush);
        }
        Ok(output)
    }
}

} // verus!
