use vstd::prelude::*;

verus! {

/// Decodes `EncodedVideoChunk` objects.
///
/// Video is outside of what this crate does. The type keeps the place of a
/// video decoder beside the audio decoder; its operations take nothing,
/// return nothing and have no effect.
pub struct VideoDecoder {}

impl VideoDecoder {
    pub fn new() -> Self {
        Self {  }
    }

    pub fn is_config_supported() {
    }

    pub fn configure() {
    }

    pub fn decode() {
    }

    pub fn flush() {
    }

    pub fn reset() {
    }

    pub fn close() {
    }
}

/// Encodes `VideoFrame` objects.
///
/// Video is outside of what this crate does. The type keeps the place of a
/// video encoder beside the audio encoder; its operations take nothing,
/// return nothing and have no effect.
pub struct VideoEncoder {}

impl VideoEncoder {
    pub fn new() -> Self {
        Self {  }
    }

    pub fn is_config_supported() {
    }

    pub fn configure() {
    }

    pub fn encode() {
    }

    pub fn flush() {
    }

    pub fn reset() {
    }

    pub fn close() {
    }
}

/// Represents codec-specific encoded video bytes.
pub struct EncodedVideoChunk {}

/// Represents a frame of unencoded video data.
pub struct VideoFrame {}

/// Represents the color space of a video frame.
pub struct VideoColourSpace {
    pub primaries: String,
    pub transfer: String,
    pub matrix: String,
    pub full_range: bool,
}

} // verus!
