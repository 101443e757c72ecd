use wcodecs::codec::Exception;
use wcodecs::data::audio_data::{AudioData, EncodedAudioChunk, MICROSECONDS_PER_SECOND};
use wcodecs::data::audio_frame::{AudioFrame, SampleFormat, SampleLayout};
use wcodecs::engine::backend::{
    configure_outcome, decode_audio_frames, decode_outcome, BackendSetup, Submission,
};

fn audio_data(number_of_frames: u32, sample_rate: u32) -> AudioData {
    AudioData::new("f32-planar".to_string(), sample_rate, 2, number_of_frames, 0, Vec::new())
}

#[test]
fn audio_data_keeps_what_it_is_given() {
    let data = AudioData::new("s16".to_string(), 48000, 6, 480, -25, vec![1, 2, 3]);
    assert_eq!(data.format, "s16");
    assert_eq!(data.sample_rate, 48000);
    assert_eq!(data.number_of_channels, 6);
    assert_eq!(data.number_of_frames, 480);
    assert_eq!(data.duration, Some(10_000));
    assert_eq!(data.timestamp, -25);
    assert_eq!(data.data, vec![1, 2, 3]);
}

#[test]
fn duration_is_frames_over_rate_in_microseconds() {
    assert_eq!(MICROSECONDS_PER_SECOND, 1_000_000);
    assert_eq!(audio_data(44100, 44100).duration, Some(1_000_000));
    assert_eq!(audio_data(1024, 44100).duration, Some(23_219));
    assert_eq!(audio_data(1152, 44100).duration, Some(26_122));
    assert_eq!(audio_data(960, 48000).duration, Some(20_000));
    assert_eq!(audio_data(1, 48000).duration, Some(20));
    assert_eq!(audio_data(1, 2_000_000).duration, Some(0));
    assert_eq!(audio_data(0, 44100).duration, Some(0));
}

#[test]
fn duration_of_the_longest_unit_fits() {
    assert_eq!(audio_data(u32::MAX, 1).duration, Some(4_294_967_295_000_000));
    assert_eq!(audio_data(u32::MAX, u32::MAX).duration, Some(1_000_000));
    assert_eq!(audio_data(1, u32::MAX).duration, Some(0));
}

#[test]
fn duration_is_undefined_at_rate_zero() {
    assert_eq!(audio_data(1024, 0).duration, None);
    assert_eq!(audio_data(0, 0).duration, None);
}

#[test]
fn chunk_clone_is_equal() {
    let chunk = EncodedAudioChunk { data: vec![0, 255, 7], timestamp: i64::MIN, is_key: true };
    let copy = chunk.clone();
    assert_eq!(copy, chunk);
    assert_eq!(copy.data, vec![0, 255, 7]);
    assert_eq!(copy.timestamp, i64::MIN);
    assert!(copy.is_key);
}

#[test]
fn only_planar_f32_needs_no_conversion() {
    assert!(!SampleFormat::F32(SampleLayout::Planar).needs_conversion());
    let others = [
        SampleFormat::Unset,
        SampleFormat::U8(SampleLayout::Packed),
        SampleFormat::U8(SampleLayout::Planar),
        SampleFormat::I16(SampleLayout::Packed),
        SampleFormat::I16(SampleLayout::Planar),
        SampleFormat::I32(SampleLayout::Packed),
        SampleFormat::I32(SampleLayout::Planar),
        SampleFormat::I64(SampleLayout::Packed),
        SampleFormat::I64(SampleLayout::Planar),
        SampleFormat::F32(SampleLayout::Packed),
        SampleFormat::F64(SampleLayout::Packed),
        SampleFormat::F64(SampleLayout::Planar),
    ];
    for format in others {
        assert!(format.needs_conversion());
    }
}

#[test]
fn frame_becomes_audio_data_with_its_planes_in_a_row() {
    let frame = AudioFrame {
        samples: 2,
        rate: 44100,
        channels: 2,
        planes: vec![vec![1, 2, 3, 4, 5, 6, 7, 8], vec![9, 10, 11, 12, 13, 14, 15, 16]],
    };
    let data = frame.to_audio_data(3000);
    assert_eq!(
        data,
        AudioData {
            format: "f32-planar".to_string(),
            sample_rate: 44100,
            number_of_channels: 2,
            number_of_frames: 2,
            duration: Some(45),
            timestamp: 3000,
            data: vec![1, 2, 3, 4, 5, 6, 7, 8, 9, 10, 11, 12, 13, 14, 15, 16],
        }
    );
}

#[test]
fn frame_without_channels_becomes_empty_audio_data() {
    let frame = AudioFrame { samples: 0, rate: 0, channels: 0, planes: Vec::new() };
    let data = frame.to_audio_data(-1);
    assert_eq!(data.format, "f32-planar");
    assert_eq!(data.number_of_channels, 0);
    assert_eq!(data.number_of_frames, 0);
    assert_eq!(data.duration, None);
    assert_eq!(data.timestamp, -1);
    assert!(data.data.is_empty());
}

#[test]
fn frame_with_planes_of_different_lengths_keeps_every_byte() {
    let frame = AudioFrame {
        samples: 65535,
        rate: 8000,
        channels: 3,
        planes: vec![vec![1], Vec::new(), vec![2, 3]],
    };
    let data = frame.to_audio_data(0);
    assert_eq!(data.number_of_frames, 65535);
    assert_eq!(data.number_of_channels, 3);
    assert_eq!(data.duration, Some(8_191_875));
    assert_eq!(data.data, vec![1, 2, 3]);
}

#[test]
fn frames_of_a_chunk_are_delivered_in_the_order_of_the_backend() {
    let frames: Vec<AudioFrame> = (0..20u16)
        .map(|n| AudioFrame {
            samples: n,
            rate: 48000,
            channels: 1,
            planes: vec![vec![n as u8; 4]],
        })
        .collect();
    let units = decode_audio_frames(&frames, 777);
    assert_eq!(units.len(), 20);
    for (n, unit) in units.iter().enumerate() {
        assert_eq!(*unit, frames[n].to_audio_data(777));
        assert_eq!(unit.number_of_frames, n as u32);
        assert_eq!(unit.timestamp, 777);
        assert_eq!(unit.data, vec![n as u8; 4]);
    }
}

#[test]
fn no_frames_give_no_audio_data() {
    assert!(decode_audio_frames(&Vec::new(), 0).is_empty());
}

#[test]
fn config_job_reports_by_how_far_it_got() {
    assert_eq!(configure_outcome(BackendSetup::StartupFailed), Err(Exception::InternalError));
    assert_eq!(configure_outcome(BackendSetup::CodecNotFound), Err(Exception::NotSupportedError));
    assert_eq!(configure_outcome(BackendSetup::OpenFailed), Err(Exception::NotSupportedError));
    assert_eq!(configure_outcome(BackendSetup::HandleLost), Err(Exception::InternalError));
    assert_eq!(configure_outcome(BackendSetup::Installed), Ok(()));
}

#[test]
fn decode_job_reports_missing_backend_and_refused_chunk() {
    assert_eq!(decode_outcome(5, &Submission::NoBackend), Err(Exception::InvalidStateError));
    assert_eq!(decode_outcome(5, &Submission::Refused), Err(Exception::DecodeError));
}

#[test]
fn decode_job_delivers_nothing_when_the_backend_yields_nothing() {
    assert_eq!(decode_outcome(5, &Submission::Accepted(Vec::new())), Ok(Vec::new()));
}

#[test]
fn decode_job_delivers_the_frames_in_their_order() {
    let frames = vec![
        AudioFrame { samples: 3, rate: 3, channels: 1, planes: vec![vec![1, 1]] },
        AudioFrame { samples: 4, rate: 2, channels: 2, planes: vec![vec![2], vec![3]] },
        AudioFrame { samples: 5, rate: 1, channels: 0, planes: Vec::new() },
    ];
    let expected = vec![
        AudioData::new("f32-planar".to_string(), 3, 1, 3, -9, vec![1, 1]),
        AudioData::new("f32-planar".to_string(), 2, 2, 4, -9, vec![2, 3]),
        AudioData::new("f32-planar".to_string(), 1, 0, 5, -9, Vec::new()),
    ];
    assert_eq!(expected[0].duration, Some(1_000_000));
    assert_eq!(expected[1].duration, Some(2_000_000));
    assert_eq!(expected[2].duration, Some(5_000_000));
    assert_eq!(decode_outcome(-9, &Submission::Accepted(frames)), Ok(expected));
}

#[test]
fn abort_error_is_an_error_of_its_own() {
    let others = [
        Exception::TypeError,
        Exception::InvalidStateError,
        Exception::NotSupportedError,
        Exception::InternalError,
        Exception::DecodeError,
    ];
    for other in others {
        assert_ne!(Exception::AbortError, other);
    }
    assert_eq!(format!("{:?}", Exception::AbortError), "AbortError");
}
