use bangrs::audio::decode::{
    after_decode_error, after_read_error, mix_plan, select_stream, MixPlan, StreamError, StreamErrorKind, StreamInfo,
};
use bangrs::audio::device::{output_sample_type, supported_ranges, DeviceRange, DeviceSampleFormat, OutputSampleType};
use bangrs::audio::engine::DecodeStep;
use bangrs::audio::error::AudioError;
use bangrs::audio::negotiate::{ConfigRange, NoMatchingConfig, SampleFormat};

#[test]
fn first_decodable_stream_is_chosen() {
    let streams = [
        StreamInfo { id: 4, decodable: false, sample_rate: Some(8000) },
        StreamInfo { id: 7, decodable: true, sample_rate: None },
        StreamInfo { id: 9, decodable: true, sample_rate: Some(48000) },
    ];
    assert_eq!(select_stream(&streams), Ok((7, 0)));
    assert_eq!(select_stream(&streams[2..]), Ok((9, 48000)));
    assert_eq!(select_stream(&streams[..1]), Err("no decodable track".to_string()));
}

#[test]
fn read_errors_end_or_fail_the_stream() {
    let eof = StreamError { kind: StreamErrorKind::EndOfFile, text: "eof".into() };
    let reset = StreamError { kind: StreamErrorKind::ResetRequired, text: "reset".into() };
    let other = StreamError { kind: StreamErrorKind::Other, text: "io broke".into() };
    assert_eq!(after_read_error(eof), DecodeStep::EndOfStream);
    assert_eq!(after_read_error(reset), DecodeStep::EndOfStream);
    assert_eq!(after_read_error(other), DecodeStep::Failed("io broke".into()));
}

#[test]
fn malformed_packets_are_skipped() {
    let bad = StreamError { kind: StreamErrorKind::Malformed, text: "malformed stream: x".into() };
    let unsupported = StreamError { kind: StreamErrorKind::Other, text: "unsupported".into() };
    assert_eq!(after_decode_error(bad), DecodeStep::Wrote(0));
    assert_eq!(after_decode_error(unsupported), DecodeStep::Failed("unsupported".into()));
}

#[test]
fn channel_mapping_plans() {
    assert_eq!(mix_plan(2, 2), MixPlan::Passthrough);
    assert_eq!(mix_plan(1, 1), MixPlan::Passthrough);
    assert_eq!(mix_plan(1, 2), MixPlan::Upmix);
    assert_eq!(mix_plan(2, 1), MixPlan::DownmixStereo);
    assert_eq!(mix_plan(6, 2), MixPlan::AverageAll);
    assert_eq!(mix_plan(1, 0), MixPlan::AverageAll);
}

#[test]
fn only_i16_and_f32_ranges_are_negotiated() {
    let raw = [
        DeviceRange { channels: 2, format: DeviceSampleFormat::U8, min_rate_hz: 8000, max_rate_hz: 8000 },
        DeviceRange { channels: 2, format: DeviceSampleFormat::F32, min_rate_hz: 44100, max_rate_hz: 48000 },
        DeviceRange { channels: 1, format: DeviceSampleFormat::I16, min_rate_hz: 8000, max_rate_hz: 96000 },
        DeviceRange { channels: 2, format: DeviceSampleFormat::F64, min_rate_hz: 44100, max_rate_hz: 44100 },
    ];
    assert_eq!(
        supported_ranges(&raw),
        vec![
            ConfigRange { channels: 2, sample_format: SampleFormat::F32, min_rate_hz: 44100, max_rate_hz: 48000 },
            ConfigRange { channels: 1, sample_format: SampleFormat::I16, min_rate_hz: 8000, max_rate_hz: 96000 },
        ]
    );
}

#[test]
fn output_stream_sample_types() {
    assert_eq!(output_sample_type(DeviceSampleFormat::F32).unwrap(), OutputSampleType::F32);
    assert_eq!(output_sample_type(DeviceSampleFormat::I16).unwrap(), OutputSampleType::I16);
    assert_eq!(output_sample_type(DeviceSampleFormat::U16).unwrap(), OutputSampleType::U16);
    match output_sample_type(DeviceSampleFormat::I32) {
        Err(e) => assert_eq!(e.message(), "unsupported format: sample format I32"),
        Ok(_) => panic!("I32 must be unsupported"),
    }
}

#[test]
fn audio_error_texts() {
    assert_eq!(AudioError::Decode("bad frame".into()).message(), "decode failed: bad frame");
    assert_eq!(AudioError::Output("gone".into()).message(), "output device error: gone");
    let n = NoMatchingConfig { track_rate_hz: 8000, nearby_rates_hz: vec![44100] };
    assert_eq!(
        AudioError::NoMatchingConfig(n).message(),
        "no cpal config supports rate 8000 Hz; available rates: 44100; track skipped"
    );
}
