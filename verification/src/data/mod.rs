//! The values that pass through a codec.

pub mod audio_data;
pub mod audio_frame;
