use vstd::prelude::*;
use crate::data::audio_data::{duration_micros, AudioData, AudioDataView};

verus! {

/// How the samples of several channels lie in memory.
#[derive(Debug, PartialEq, Eq, Clone, Copy, Structural)]
pub enum SampleLayout {
    /// The samples of all channels interleaved in one plane.
    Packed,
    /// One plane for each channel.
    Planar,
}

/// The sample format of a unit as a backend yields it.
#[derive(Debug, PartialEq, Eq, Clone, Copy, Structural)]
pub enum SampleFormat {
    /// No format is set.
    Unset,
    U8(SampleLayout),
    I16(SampleLayout),
    I32(SampleLayout),
    I64(SampleLayout),
    F32(SampleLayout),
    F64(SampleLayout),
}

impl SampleFormat {
    /// Whether this is the format in which decoded audio is handed out:
    /// 32-bit floating point samples, one plane for each channel.
    pub open spec fn is_canonical(self) -> bool {
        self == SampleFormat::F32(SampleLayout::Planar)
    }

    /// Whether a unit in this format has to be converted before it is handed
    /// out: every format but the canonical one has to.
    pub fn needs_conversion(&self) -> (needed: bool)
        ensures
            needed == !self.is_canonical(),
    {
        match self {
            SampleFormat::F32(SampleLayout::Planar) => false,
            _ => true,
        }
    }
}

/// A unit of decoded audio in the canonical format, as plain values.
#[derive(Debug, PartialEq, Eq)]
pub struct AudioFrame {
    /// The number of samples in each channel.
    pub samples: u16,
    /// The sample rate in Hz.
    pub rate: u32,
    /// The number of channels.
    pub channels: u16,
    /// The bytes of each channel's samples, in the order of the channels.
    pub planes: Vec<Vec<u8>>,
}

/// What an [`AudioFrame`] holds.
pub struct AudioFrameView {
    pub samples: u16,
    pub rate: u32,
    pub channels: u16,
    pub planes: Seq<Seq<u8>>,
}

impl AudioFrameView {
    /// A frame is well formed when it has one plane for each channel.
    pub open spec fn wf(self) -> bool {
        self.planes.len() == self.channels
    }

    /// The audio data that is handed out for the frame when it came of a
    /// chunk with the given timestamp: the frame's rate, channels and length,
    /// the chunk's timestamp, and the planes one behind the other.
    pub open spec fn audio_data(self, timestamp: i64) -> AudioDataView {
        AudioDataView {
            format: "f32-planar"@,
            sample_rate: self.rate,
            number_of_channels: self.channels as u32,
            number_of_frames: self.samples as u32,
            duration: duration_micros(self.samples as u32, self.rate),
            timestamp,
            data: self.planes.flatten(),
        }
    }
}

/// The contents of a sequence of planes, in the same order.
pub open spec fn plane_views(planes: Seq<Vec<u8>>) -> Seq<Seq<u8>> {
    planes.map_values(|plane: Vec<u8>| plane@)
}

impl View for AudioFrame {
    type V = AudioFrameView;

    open spec fn view(&self) -> AudioFrameView {
        AudioFrameView {
            samples: self.samples,
            rate: self.rate,
            channels: self.channels,
            planes: plane_views(self.planes@),
        }
    }
}

impl AudioFrame {
    /// The audio data that is handed out for the frame when it came of a
    /// chunk with the given timestamp.
    pub fn to_audio_data(&self, timestamp: i64) -> (audio_data: AudioData)
        requires
            self@.wf(),
        ensures
            audio_data@ == self@.audio_data(timestamp),
    {
        let mut audio_buffer: Vec<u8> = Vec::new();
        let mut ch: usize = 0;
        assert(plane_views(self.planes@).subrange(0, 0) =~= Seq::<Seq<u8>>::empty());
        while ch < self.planes.len()
            invariant
                ch <= self.planes@.len(),
                audio_buffer@ == plane_views(self.planes@).subrange(0, ch as int).flatten(),
            decreases self.planes@.len() - ch,
        {
            let plane = self.planes[ch].as_slice();
            let ghost gathered = audio_buffer@;
            audio_buffer.extend_from_slice(plane);
            proof {
                let planes = plane_views(self.planes@);
                assert(audio_buffer@ =~= gathered + plane@);
                assert(planes.subrange(0, ch + 1) =~= planes.subrange(0, ch as int).push(
                    planes[ch as int],
                ));
                planes.subrange(0, ch as int).lemma_flatten_push(planes[ch as int]);
            }
            ch += 1;
        }
        assert(plane_views(self.planes@).subrange(0, ch as int) =~= plane_views(self.planes@));
        AudioData::new(
            "f32-planar".to_owned(),
            self.rate,
            self.channels as u32,
            self.samples as u32,
            timestamp,
            audio_buffer,
        )
    }
}

} // verus!
