//! Decisions taken while opening and decoding a track: which stream of the
//! file to play, what a demuxing or decoding error means for playback, and
//! how to map the decoded channels onto the device's.

use vstd::prelude::*;
use crate::audio::engine::DecodeStep;

verus! {

/// One stream of an audio file, as the demuxer describes it.
#[derive(Debug, Clone, Copy, PartialEq, Eq, Structural)]
pub struct StreamInfo {
    pub id: u32,
    /// A decoder exists for the stream's codec.
    pub decodable: bool,
    pub sample_rate: Option<u32>,
}

/// The stream chosen for playback: the first decodable one.
pub open spec fn first_decodable(s: Seq<StreamInfo>, from: int) -> int
    decreases s.len() - from,
{
    if from >= s.len() || from < 0 {
        -1
    } else if s[from].decodable {
        from
    } else {
        first_decodable(s, from + 1)
    }
}

/// The stream to play: the id and sample rate (0 where unknown) of the
/// first decodable stream, or the text `no decodable track`.
pub fn select_stream(streams: &[StreamInfo]) -> (r: Result<(u32, u32), String>)
    ensures
        first_decodable(streams@, 0) == -1 ==> (r matches Err(msg) && msg@ == "no decodable track"@),
        first_decodable(streams@, 0) >= 0 ==> ({
            let chosen = streams@[first_decodable(streams@, 0)];
            r == Ok::<(u32, u32), String>(
                (
                    chosen.id,
                    match chosen.sample_rate {
                        Some(rate) => rate,
                        None => 0,
                    },
                ),
            )
        }),
{
    let mut i: usize = 0;
    while i < streams.len()
        invariant
            i <= streams.len(),
            first_decodable(streams@, 0) == first_decodable(streams@, i as int),
        decreases streams.len() - i,
    {
        if streams[i].decodable {
            let rate = match streams[i].sample_rate {
                Some(rate) => rate,
                None => 0,
            };
            return Ok((streams[i].id, rate));
        }
        i = i + 1;
    }
    Err(String::from_str("no decodable track"))
}

/// The kinds of error the demuxer and decoder report.
#[derive(Debug, Clone, Copy, PartialEq, Eq, Structural)]
pub enum StreamErrorKind {
    /// The file ended where more data was expected.
    EndOfFile,
    /// The demuxer or decoder must be reset before continuing.
    ResetRequired,
    /// The data of a packet is malformed.
    Malformed,
    /// Any other error.
    Other,
}

/// An error of the demuxer or decoder, with its text.
#[derive(Debug, Clone, PartialEq, Eq)]
pub struct StreamError {
    pub kind: StreamErrorKind,
    pub text: String,
}

/// Reading the next packet failed with `e`: the end of the file, or a
/// required reset, ends the stream; anything else fails the track with the
/// error's text.
pub fn after_read_error(e: StreamError) -> (step: DecodeStep)
    ensures
        match e.kind {
            StreamErrorKind::EndOfFile | StreamErrorKind::ResetRequired => step == DecodeStep::EndOfStream,
            _ => step == DecodeStep::Failed(e.text),
        },
{
    match e.kind {
        StreamErrorKind::EndOfFile | StreamErrorKind::ResetRequired => DecodeStep::EndOfStream,
        _ => DecodeStep::Failed(e.text),
    }
}

/// Decoding a packet failed with `e`: a malformed packet is skipped (no
/// frames written) and playback goes on; anything else fails the track with
/// the error's text.
pub fn after_decode_error(e: StreamError) -> (step: DecodeStep)
    ensures
        match e.kind {
            StreamErrorKind::Malformed => step == DecodeStep::Wrote(0),
            _ => step == DecodeStep::Failed(e.text),
        },
{
    match e.kind {
        StreamErrorKind::Malformed => DecodeStep::Wrote(0),
        _ => DecodeStep::Failed(e.text),
    }
}

/// How decoded samples are mapped onto the device's channels.
#[derive(Debug, Clone, Copy, PartialEq, Eq, Structural)]
pub enum MixPlan {
    /// Same channel count: samples go out as they are.
    Passthrough,
    /// Mono source: each sample is repeated on every device channel.
    Upmix,
    /// Stereo source, mono device: each frame's two samples are averaged.
    DownmixStereo,
    /// Any other pairing: each frame is averaged and the average repeated on
    /// every device channel.
    AverageAll,
}

/// The mapping for `src_channels` decoded channels and `out_channels` device
/// channels.
pub open spec fn plan_for(src_channels: usize, out_channels: usize) -> MixPlan {
    if src_channels == out_channels {
        MixPlan::Passthrough
    } else if src_channels == 1 && out_channels >= 1 {
        MixPlan::Upmix
    } else if src_channels == 2 && out_channels == 1 {
        MixPlan::DownmixStereo
    } else {
        MixPlan::AverageAll
    }
}

/// The mapping for `src_channels` decoded channels and `out_channels` device
/// channels, as [`plan_for`] says.
pub fn mix_plan(src_channels: usize, out_channels: usize) -> (p: MixPlan)
    ensures
        p == plan_for(src_channels, out_channels),
{
    if src_channels == out_channels {
        MixPlan::Passthrough
    } else if src_channels == 1 && out_channels >= 1 {
        MixPlan::Upmix
    } else if src_channels == 2 && out_channels == 1 {
        MixPlan::DownmixStereo
    } else {
        MixPlan::AverageAll
    }
}

/// How many samples plan `plan` writes for `len` decoded samples of
/// `src_channels` channels on a device of `out_channels` channels: all of
/// them as they are; each one repeated on every device channel; one for
/// every two; or, for every chunk of `src_channels` samples (the last one
/// possibly short), one average repeated on every device channel.
pub open spec fn mixed_len(plan: MixPlan, len: int, src_channels: int, out_channels: int) -> int {
    match plan {
        MixPlan::Passthrough => len,
        MixPlan::Upmix => len * out_channels,
        MixPlan::DownmixStereo => len / 2,
        MixPlan::AverageAll => (len + src_channels - 1) / src_channels * out_channels,
    }
}

/// The chosen plan turns any number of whole decoded frames into as many
/// whole device frames: `frames` frames of `src_channels` samples become
/// `frames` frames of `out_channels` samples, so the audio keeps its speed
/// and fills every device channel. Repeating each sample on every channel
/// is chosen only for a mono source, and a source of two or more channels
/// that the device does not match (other than stereo on a mono device) is
/// averaged.
pub proof fn lemma_mix_keeps_frames(src_channels: usize, out_channels: usize, frames: nat)
    requires
        src_channels >= 1,
        out_channels >= 1,
    ensures
        mixed_len(plan_for(src_channels, out_channels), frames * src_channels, src_channels as int, out_channels as int)
            == frames * out_channels,
        plan_for(src_channels, out_channels) == MixPlan::Upmix ==> src_channels == 1,
        plan_for(src_channels, out_channels) == MixPlan::Passthrough <==> src_channels == out_channels,
        (src_channels >= 2 && src_channels != out_channels && !(src_channels == 2 && out_channels == 1))
            ==> plan_for(src_channels, out_channels) == MixPlan::AverageAll,
{
    let src = src_channels as int;
    let out = out_channels as int;
    let n = frames as int;
    match plan_for(src_channels, out_channels) {
        MixPlan::Passthrough => {},
        MixPlan::Upmix => {
            assert(n * src * out == n * out) by (nonlinear_arith)
                requires
                    src == 1,
            ;
        },
        MixPlan::DownmixStereo => {
            vstd::arithmetic::div_mod::lemma_fundamental_div_mod_converse(n * 2, 2, n, 0);
            assert(n * out == n) by (nonlinear_arith)
                requires
                    out == 1,
            ;
        },
        MixPlan::AverageAll => {
            assert(n * src + src - 1 == n * src + (src - 1));
            vstd::arithmetic::div_mod::lemma_fundamental_div_mod_converse(n * src + (src - 1), src, n, src - 1);
        },
    }
}

} // verus!
