use vstd::prelude::*;

verus! {

/// Unpacks and decodes image data, giving access to the sequence of frames in an animated image.
///
/// Images are outside of what this crate does; the type only keeps the place.
pub struct ImageDecoder {}

/// Represents an individual image track.
pub struct ImageTrack {}

/// Represents the list of tracks available in the image.
pub struct ImageTrackList {}

} // verus!
