//! The codec instances and the values that configure them.

pub mod audio;
pub mod audio_laws;
pub mod config;
pub mod error;
pub mod image;
pub mod state;
pub mod video;

pub use audio::{AudioDecoder, AudioDecoderView, AudioEncoder};
pub use config::{AudioConfigMessage, AudioDecoderConfig, AudioDecoderConfigView, ConfigMessage};
pub use error::Exception;
pub use image::{ImageDecoder, ImageTrack, ImageTrackList};
pub use state::State;
pub use video::{EncodedVideoChunk, VideoColourSpace, VideoDecoder, VideoEncoder, VideoFrame};
