use wcodecs::codec::{
    EncodedVideoChunk, ImageDecoder, ImageTrack, ImageTrackList, VideoColourSpace, VideoDecoder,
    VideoEncoder, VideoFrame,
};

#[test]
fn video_decoder_operations_can_be_called() {
    let _decoder: VideoDecoder = VideoDecoder::new();
    VideoDecoder::is_config_supported();
    VideoDecoder::configure();
    VideoDecoder::decode();
    VideoDecoder::flush();
    VideoDecoder::reset();
    VideoDecoder::close();
}

#[test]
fn video_encoder_operations_can_be_called() {
    let _encoder: VideoEncoder = VideoEncoder::new();
    VideoEncoder::is_config_supported();
    VideoEncoder::configure();
    VideoEncoder::encode();
    VideoEncoder::flush();
    VideoEncoder::reset();
    VideoEncoder::close();
}

#[test]
fn video_and_image_values_can_be_made() {
    let _chunk = EncodedVideoChunk {};
    let _frame = VideoFrame {};
    let _decoder = ImageDecoder {};
    let _track = ImageTrack {};
    let _tracks = ImageTrackList {};
    let space = VideoColourSpace {
        primaries: "bt709".to_string(),
        transfer: "iec61966-2-1".to_string(),
        matrix: "rgb".to_string(),
        full_range: true,
    };
    assert_eq!(space.primaries, "bt709");
    assert_eq!(space.transfer, "iec61966-2-1");
    assert_eq!(space.matrix, "rgb");
    assert!(space.full_range);
}
