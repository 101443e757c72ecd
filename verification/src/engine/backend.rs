use vstd::prelude::*;
use crate::codec::error::Exception;
use crate::data::audio_data::AudioData;
use crate::data::audio_frame::AudioFrame;

verus! {

/// How far the setting up of the backend for a configuration got.
#[derive(Debug, PartialEq, Eq, Clone, Copy, Structural)]
pub enum BackendSetup {
    /// The backend as a whole could not be started.
    StartupFailed,
    /// The backend knows no decoder of the configured name.
    CodecNotFound,
    /// The decoder was found and could not be opened as an audio decoder.
    OpenFailed,
    /// The decoder was opened and the backend handle could not be locked.
    HandleLost,
    /// The decoder has been stored in the backend handle.
    Installed,
}

/// What came of submitting a chunk to the backend.
#[derive(Debug, PartialEq, Eq)]
pub enum Submission {
    /// The backend handle was empty.
    NoBackend,
    /// The backend refused the chunk.
    Refused,
    /// The backend took the chunk and yielded these frames, in this order.
    Accepted(Vec<AudioFrame>),
}

/// What came of signalling the end of the stream to the backend.
#[derive(Debug, PartialEq, Eq, Clone, Copy, Structural)]
pub enum EndOfStream {
    /// The backend handle was empty.
    NoBackend,
    /// The backend refused the signal.
    Refused,
    /// The backend took the signal.
    Signalled,
}

/// What a `Config` job makes of its attempt to set the backend up. An error
/// is for the error callback.
///
/// A backend that cannot be started and a handle that cannot be locked are
/// internal errors; a codec that is not found or cannot be opened is not
/// supported.
pub fn configure_outcome(setup: BackendSetup) -> (outcome: Result<(), Exception>)
    ensures
        outcome == (match setup {
            BackendSetup::StartupFailed => Err::<(), Exception>(Exception::InternalError),
            BackendSetup::CodecNotFound => Err(Exception::NotSupportedError),
            BackendSetup::OpenFailed => Err(Exception::NotSupportedError),
            BackendSetup::HandleLost => Err(Exception::InternalError),
            BackendSetup::Installed => Ok(()),
        }),
{
    match setup {
        BackendSetup::StartupFailed | BackendSetup::HandleLost => Err(Exception::InternalError),
        BackendSetup::CodecNotFound | BackendSetup::OpenFailed => Err(
            Exception::NotSupportedError,
        ),
        BackendSetup::Installed => Ok(()),
    }
}

/// Whether each of `frames` has one plane for each of its channels.
pub open spec fn well_formed(frames: Seq<AudioFrame>) -> bool {
    forall|i: int| 0 <= i < frames.len() ==> (#[trigger] frames[i])@.wf()
}

/// Whether `units` are the audio data of `frames`, one for each frame and in
/// the same order, each with the given timestamp.
pub open spec fn units_of_frames(
    units: Seq<AudioData>,
    frames: Seq<AudioFrame>,
    timestamp: i64,
) -> bool {
    &&& units.len() == frames.len()
    &&& forall|i: int|
        0 <= i < frames.len() ==> (#[trigger] units[i])@ == frames[i]@.audio_data(timestamp)
}

/// The audio data to hand to the output callback for the frames that the
/// backend yielded for one chunk: one for each frame, in the order in which
/// the backend yielded them, each stamped with the chunk's timestamp.
pub fn decode_audio_frames(frames: &Vec<AudioFrame>, timestamp: i64) -> (units: Vec<AudioData>)
    requires
        well_formed(frames@),
    ensures
        units_of_frames(units@, frames@, timestamp),
{
    let mut units: Vec<AudioData> = Vec::new();
    let mut next: usize = 0;
    while next < frames.len()
        invariant
            next <= frames@.len(),
            well_formed(frames@),
            units_of_frames(units@, frames@.take(next as int), timestamp),
        decreases frames@.len() - next,
    {
        let audio_data = frames[next].to_audio_data(timestamp);
        units.push(audio_data);
        next += 1;
    }
    assert(frames@.take(next as int) =~= frames@);
    units
}

/// What a `Decode` job makes of the submission of a chunk with the given
/// timestamp. An error is for the error callback, once; audio data is for
/// the output callback, piece by piece in the order given.
///
/// A job that finds no backend reports an invalid state, whatever the state
/// of the decoder was when the chunk was accepted, and a chunk that the
/// backend refuses is a decode error. After an accepted chunk the job
/// delivers the audio data of the frames that the backend yielded, in the
/// order of the frames.
pub fn decode_outcome(timestamp: i64, submission: &Submission) -> (outcome: Result<
    Vec<AudioData>,
    Exception,
>)
    requires
        submission matches Submission::Accepted(frames) ==> well_formed(frames@),
    ensures
        match *submission {
            Submission::NoBackend => outcome == Err::<Vec<AudioData>, Exception>(
                Exception::InvalidStateError,
            ),
            Submission::Refused => outcome == Err::<Vec<AudioData>, Exception>(
                Exception::DecodeError,
            ),
            Submission::Accepted(frames) => outcome matches Ok(units) && units_of_frames(
                units@,
                frames@,
                timestamp,
            ),
        },
{
    match submission {
        Submission::NoBackend => Err(Exception::InvalidStateError),
        Submission::Refused => Err(Exception::DecodeError),
        Submission::Accepted(frames) => Ok(decode_audio_frames(frames, timestamp)),
    }
}

/// What a flush makes of the signal of the end of the stream, be it the
/// `flush` of a decoder or a `Flush` job. The error of a `flush` is what the
/// call returns; that of a job is for the error callback.
///
/// A signal that the backend refuses is a decode error. Where there is no
/// backend there is nothing to flush, and that is no error.
pub fn flush_outcome(signal: EndOfStream) -> (outcome: Result<(), Exception>)
    ensures
        outcome == (match signal {
            EndOfStream::NoBackend => Ok::<(), Exception>(()),
            EndOfStream::Refused => Err(Exception::DecodeError),
            EndOfStream::Signalled => Ok(()),
        }),
{
    match signal {
        EndOfStream::Refused => Err(Exception::DecodeError),
        EndOfStream::NoBackend | EndOfStream::Signalled => Ok(()),
    }
}

} // verus!
