use vstd::prelude::*;

verus! {

/// The parameters a decoder is configured with.
#[derive(Debug, PartialEq, Eq)]
pub struct AudioDecoderConfig {
    /// The identifier of the codec, as the backend knows it.
    pub codec: String,
    /// The sample rate in Hz.
    pub sample_rate: u32,
    /// The number of audio channels.
    pub number_of_channels: u32,
    /// Codec-specific bytes that accompany the stream out of band, if any.
    pub description: Option<Vec<u8>>,
}

/// What an [`AudioDecoderConfig`] holds.
pub struct AudioDecoderConfigView {
    pub codec: Seq<char>,
    pub sample_rate: u32,
    pub number_of_channels: u32,
    pub description: Option<Seq<u8>>,
}

impl AudioDecoderConfigView {
    /// A configuration is valid when it names a codec and both of its numbers
    /// are positive.
    pub open spec fn is_valid(self) -> bool {
        self.codec.len() > 0 && self.sample_rate > 0 && self.number_of_channels > 0
    }
}

impl View for AudioDecoderConfig {
    type V = AudioDecoderConfigView;

    open spec fn view(&self) -> AudioDecoderConfigView {
        AudioDecoderConfigView {
            codec: self.codec@,
            sample_rate: self.sample_rate,
            number_of_channels: self.number_of_channels,
            description: match self.description {
                Some(bytes) => Some(bytes@),
                None => None,
            },
        }
    }
}

impl Clone for AudioDecoderConfig {
    fn clone(&self) -> (copy: Self)
        ensures
            copy@ == self@,
    {
        let description = match &self.description {
            Some(bytes) => Some(bytes.clone()),
            None => None,
        };
        AudioDecoderConfig {
            codec: self.codec.clone(),
            sample_rate: self.sample_rate,
            number_of_channels: self.number_of_channels,
            description,
        }
    }
}

impl AudioDecoderConfig {
    /// Whether the configuration names a codec and has a positive sample rate
    /// and a positive number of channels.
    pub fn is_valid(&self) -> (valid: bool)
        ensures
            valid == self@.is_valid(),
    {
        !self.codec.as_str().is_empty() && self.sample_rate > 0 && self.number_of_channels > 0
    }
}

/// A request to configure a codec.
pub enum ConfigMessage {
    AudioConfig(AudioConfigMessage),
}

/// A request to configure an audio decoder.
pub struct AudioConfigMessage {
    /// The configuration, already validated.
    pub config: AudioDecoderConfig,
}

} // verus!
