use vstd::prelude::*;

verus! {

/// The number of microseconds in a second.
pub const MICROSECONDS_PER_SECOND: u64 = 1_000_000;

/// The time that `number_of_frames` frames take at `sample_rate` frames a
/// second, in whole microseconds, rounded down. At a rate of zero there is no
/// such time.
pub open spec fn duration_micros(number_of_frames: u32, sample_rate: u32) -> Option<u64> {
    if sample_rate == 0 {
        None
    } else {
        Some((number_of_frames as int * 1_000_000 / sample_rate as int) as u64)
    }
}

/// Represents unencoded audio data.
#[derive(Debug, PartialEq, Eq)]
pub struct AudioData {
    /// The sample format of the audio.
    pub format: String,
    /// The sample rate of the audio in Hz.
    pub sample_rate: u32,
    /// The number of audio channels.
    pub number_of_channels: u32,
    /// The number of frames.
    pub number_of_frames: u32,
    /// The duration of the audio in microseconds, where the sample rate is
    /// not zero.
    pub duration: Option<u64>,
    /// The timestamp of the audio in microseconds.
    pub timestamp: i64,
    /// The samples.
    pub data: Vec<u8>,
}

/// What an [`AudioData`] holds.
pub struct AudioDataView {
    pub format: Seq<char>,
    pub sample_rate: u32,
    pub number_of_channels: u32,
    pub number_of_frames: u32,
    pub duration: Option<u64>,
    pub timestamp: i64,
    pub data: Seq<u8>,
}

impl View for AudioData {
    type V = AudioDataView;

    open spec fn view(&self) -> AudioDataView {
        AudioDataView {
            format: self.format@,
            sample_rate: self.sample_rate,
            number_of_channels: self.number_of_channels,
            number_of_frames: self.number_of_frames,
            duration: self.duration,
            timestamp: self.timestamp,
            data: self.data@,
        }
    }
}

impl AudioData {
    /// Audio data with the given properties. Its duration follows from the
    /// number of frames and the sample rate.
    pub fn new(
        format: String,
        sample_rate: u32,
        number_of_channels: u32,
        number_of_frames: u32,
        timestamp: i64,
        data: Vec<u8>,
    ) -> (audio_data: Self)
        ensures
            audio_data@ == (AudioDataView {
                format: format@,
                sample_rate,
                number_of_channels,
                number_of_frames,
                duration: duration_micros(number_of_frames, sample_rate),
                timestamp,
                data: data@,
            }),
    {
        let duration = if sample_rate == 0 {
            None
        } else {
            let frames: u64 = number_of_frames as u64;
            let rate: u64 = sample_rate as u64;
            Some(frames * MICROSECONDS_PER_SECOND / rate)
        };
        AudioData {
            format,
            sample_rate,
            number_of_channels,
            number_of_frames,
            duration,
            timestamp,
            data,
        }
    }
}

/// Represents codec-specific encoded audio bytes.
#[derive(Debug, PartialEq, Eq)]
pub struct EncodedAudioChunk {
    /// The encoded bytes, in the layout the backend defines.
    pub data: Vec<u8>,
    /// The presentation timestamp in microseconds.
    pub timestamp: i64,
    /// Whether the chunk can be decoded without reference to earlier chunks.
    pub is_key: bool,
}

/// What an [`EncodedAudioChunk`] holds.
pub struct EncodedAudioChunkView {
    pub data: Seq<u8>,
    pub timestamp: i64,
    pub is_key: bool,
}

impl View for EncodedAudioChunk {
    type V = EncodedAudioChunkView;

    open spec fn view(&self) -> EncodedAudioChunkView {
        EncodedAudioChunkView { data: self.data@, timestamp: self.timestamp, is_key: self.is_key }
    }
}

impl Clone for EncodedAudioChunk {
    fn clone(&self) -> (copy: Self)
        ensures
            copy@ == self@,
    {
        EncodedAudioChunk {
            data: self.data.clone(),
            timestamp: self.timestamp,
            is_key: self.is_key,
        }
    }
}

} // verus!
