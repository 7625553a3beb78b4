//! What the engine makes of the output device's formats: which supported
//! ranges take part in negotiation, and which stream sample type the output
//! uses.

use vstd::prelude::*;
use crate::audio::error::AudioError;
use crate::audio::negotiate::{ConfigRange, SampleFormat};

verus! {

/// The sample formats an output device can report.
#[derive(Debug, Clone, Copy, PartialEq, Eq, Structural)]
pub enum DeviceSampleFormat {
    I8,
    I16,
    I32,
    I64,
    U8,
    U16,
    U32,
    U64,
    F32,
    F64,
}

/// One supported configuration range, as the device reports it.
#[derive(Debug, Clone, Copy, PartialEq, Eq, Structural)]
pub struct DeviceRange {
    pub channels: u16,
    pub format: DeviceSampleFormat,
    pub min_rate_hz: u32,
    pub max_rate_hz: u32,
}

/// The negotiable format of a device format: 16-bit integer and 32-bit
/// float take part, the others do not.
pub open spec fn negotiable(f: DeviceSampleFormat) -> Option<SampleFormat> {
    match f {
        DeviceSampleFormat::I16 => Some(SampleFormat::I16),
        DeviceSampleFormat::F32 => Some(SampleFormat::F32),
        _ => None,
    }
}

/// The ranges of `s` with a negotiable format, in order.
pub open spec fn kept_ranges(s: Seq<DeviceRange>) -> Seq<ConfigRange>
    decreases s.len(),
{
    if s.len() == 0 {
        Seq::empty()
    } else {
        let r = s.last();
        match negotiable(r.format) {
            Some(f) => kept_ranges(s.drop_last()).push(
                ConfigRange { channels: r.channels, sample_format: f, min_rate_hz: r.min_rate_hz, max_rate_hz: r.max_rate_hz },
            ),
            None => kept_ranges(s.drop_last()),
        }
    }
}

/// The device's ranges that take part in negotiation, in the device's order;
/// ranges of other formats are dropped.
pub fn supported_ranges(raw: &[DeviceRange]) -> (v: Vec<ConfigRange>)
    ensures
        v@ == kept_ranges(raw@),
{
    let mut v: Vec<ConfigRange> = Vec::new();
    let mut i: usize = 0;
    while i < raw.len()
        invariant
            i <= raw.len(),
            v@ == kept_ranges(raw@.take(i as int)),
        decreases raw.len() - i,
    {
        let r = raw[i];
        let kept = match r.format {
            DeviceSampleFormat::I16 => Some(SampleFormat::I16),
            DeviceSampleFormat::F32 => Some(SampleFormat::F32),
            _ => None,
        };
        match kept {
            Some(f) => {
                v.push(ConfigRange { channels: r.channels, sample_format: f, min_rate_hz: r.min_rate_hz, max_rate_hz: r.max_rate_hz });
            },
            None => {},
        }
        proof {
            let t = raw@.take(i as int + 1);
            assert(t.drop_last() =~= raw@.take(i as int));
            assert(t.last() == raw@[i as int]);
        }
        i = i + 1;
    }
    proof {
        assert(raw@.take(raw.len() as int) =~= raw@);
    }
    v
}

/// The range `r` as a 16-bit integer configuration range.
spec fn i16_range_of(r: DeviceRange) -> ConfigRange {
    ConfigRange { channels: r.channels, sample_format: SampleFormat::I16, min_rate_hz: r.min_rate_hz, max_rate_hz: r.max_rate_hz }
}

/// Which device ranges take part in negotiation, range by range: a 16-bit
/// integer range is kept as 16-bit integer and a 32-bit float range as
/// 32-bit float, with its channels and rates; a range of any other format
/// (8, 32 or 64-bit integers, unsigned integers, 64-bit float) is dropped.
/// The ranges of two lists joined are the ranges of each, in order.
pub proof fn lemma_only_i16_and_f32_ranges_kept(r: DeviceRange, a: Seq<DeviceRange>, b: Seq<DeviceRange>)
    ensures
        r.format == DeviceSampleFormat::I16 ==> kept_ranges(seq![r]) == seq![
            ConfigRange { channels: r.channels, sample_format: SampleFormat::I16, min_rate_hz: r.min_rate_hz, max_rate_hz: r.max_rate_hz },
        ],
        r.format == DeviceSampleFormat::F32 ==> kept_ranges(seq![r]) == seq![
            ConfigRange { channels: r.channels, sample_format: SampleFormat::F32, min_rate_hz: r.min_rate_hz, max_rate_hz: r.max_rate_hz },
        ],
        (r.format != DeviceSampleFormat::I16 && r.format != DeviceSampleFormat::F32) ==> kept_ranges(seq![r])
            == Seq::<ConfigRange>::empty(),
        kept_ranges(a + b) == kept_ranges(a) + kept_ranges(b),
    decreases b.len(),
{
    assert(seq![r].drop_last() =~= Seq::<DeviceRange>::empty());
    assert(seq![r].last() == r);
    assert(kept_ranges(Seq::<DeviceRange>::empty()) =~= Seq::<ConfigRange>::empty());
    assert(kept_ranges(seq![r]) == (match negotiable(r.format) {
        Some(f) => kept_ranges(Seq::<DeviceRange>::empty()).push(ConfigRange { sample_format: f, ..i16_range_of(r) }),
        None => kept_ranges(Seq::<DeviceRange>::empty()),
    }));
    let i16_range = ConfigRange {
        channels: r.channels,
        sample_format: SampleFormat::I16,
        min_rate_hz: r.min_rate_hz,
        max_rate_hz: r.max_rate_hz,
    };
    let f32_range = ConfigRange { sample_format: SampleFormat::F32, ..i16_range };
    assert(Seq::<ConfigRange>::empty().push(i16_range) =~= seq![i16_range]);
    assert(Seq::<ConfigRange>::empty().push(f32_range) =~= seq![f32_range]);
    if b.len() > 0 {
        lemma_only_i16_and_f32_ranges_kept(r, a, b.drop_last());
        assert((a + b).drop_last() =~= a + b.drop_last());
        assert((a + b).last() == b.last());
        assert(kept_ranges(a + b) =~= kept_ranges(a) + kept_ranges(b));
    } else {
        assert(a + b =~= a);
        assert(kept_ranges(a) + kept_ranges(b) =~= kept_ranges(a));
    }
}

/// The sample types the output stream is built with.
#[derive(Debug, Clone, Copy, PartialEq, Eq, Structural)]
pub enum OutputSampleType {
    F32,
    I16,
    U16,
}

/// The name of a device format.
pub open spec fn format_name(f: DeviceSampleFormat) -> Seq<char> {
    match f {
        DeviceSampleFormat::I8 => "I8"@,
        DeviceSampleFormat::I16 => "I16"@,
        DeviceSampleFormat::I32 => "I32"@,
        DeviceSampleFormat::I64 => "I64"@,
        DeviceSampleFormat::U8 => "U8"@,
        DeviceSampleFormat::U16 => "U16"@,
        DeviceSampleFormat::U32 => "U32"@,
        DeviceSampleFormat::U64 => "U64"@,
        DeviceSampleFormat::F32 => "F32"@,
        DeviceSampleFormat::F64 => "F64"@,
    }
}

fn format_name_str(f: DeviceSampleFormat) -> (s: &'static str)
    ensures
        s@ == format_name(f),
{
    match f {
        DeviceSampleFormat::I8 => "I8",
        DeviceSampleFormat::I16 => "I16",
        DeviceSampleFormat::I32 => "I32",
        DeviceSampleFormat::I64 => "I64",
        DeviceSampleFormat::U8 => "U8",
        DeviceSampleFormat::U16 => "U16",
        DeviceSampleFormat::U32 => "U32",
        DeviceSampleFormat::U64 => "U64",
        DeviceSampleFormat::F32 => "F32",
        DeviceSampleFormat::F64 => "F64",
    }
}

/// The sample type of the output stream for a device whose default format is
/// `f`: 32-bit float, 16-bit signed and 16-bit unsigned are fed as such;
/// any other format is unsupported, with its name in the error.
pub fn output_sample_type(f: DeviceSampleFormat) -> (r: Result<OutputSampleType, AudioError>)
    ensures
        match f {
            DeviceSampleFormat::F32 => r == Ok::<OutputSampleType, AudioError>(OutputSampleType::F32),
            DeviceSampleFormat::I16 => r == Ok::<OutputSampleType, AudioError>(OutputSampleType::I16),
            DeviceSampleFormat::U16 => r == Ok::<OutputSampleType, AudioError>(OutputSampleType::U16),
            _ => r matches Err(AudioError::UnsupportedFormat(text)) && text@ == "sample format "@ + format_name(f),
        },
{
    match f {
        DeviceSampleFormat::F32 => Ok(OutputSampleType::F32),
        DeviceSampleFormat::I16 => Ok(OutputSampleType::I16),
        DeviceSampleFormat::U16 => Ok(OutputSampleType::U16),
        _ => Err(AudioError::UnsupportedFormat(String::from_str("sample format ").concat(format_name_str(f)))),
    }
}

} // verus!
