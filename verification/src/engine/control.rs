use vstd::prelude::*;
use crate::codec::config::{AudioConfigMessage, ConfigMessage};
use crate::data::audio_data::EncodedAudioChunk;
use crate::engine::work_queue::{Job, JobView, WorkQueue};

verus! {

/// What came of asking a control message to go ahead.
#[derive(Debug, PartialEq, Eq, Clone, Copy, Structural)]
pub enum Outcome {
    /// The message's work has been handed to the workers. That is a
    /// dispatch: the work itself may not have begun.
    Processed,
    /// The message cannot go ahead yet and stays where it is.
    NotProcessed,
}

/// What every control message can do: hand its work to the workers.
pub trait ControlMessageTrait {
    /// The job that does the message's work.
    spec fn job(&self) -> JobView;

    /// Tries to hand the message's job to `work_queue`. On `Processed` the
    /// job has been added at the back of the queue; on `NotProcessed` the
    /// queue is as it was.
    fn process(&self, work_queue: &mut WorkQueue) -> (outcome: Outcome)
        ensures
            outcome == Outcome::Processed ==> final(work_queue)@ == old(work_queue)@.push(
                self.job(),
            ),
            outcome == Outcome::NotProcessed ==> final(work_queue)@ == old(work_queue)@,
            final(work_queue).workers() == old(work_queue).workers(),
    ;
}

/// A pending operation on a codec instance.
pub enum ControlMessage {
    Config(ConfigMessage),
    Decode(DecodeMessage),
    Encode(EncodeMessage),
    Flush(FlushMessage),
}

/// A request to decode a chunk.
pub enum DecodeMessage {
    AudioDecode(AudioDecodeMessage),
}

/// A request to encode raw data.
pub enum EncodeMessage {
    AudioEncode(AudioEncodeMessage),
}

/// A request to flush a codec.
pub enum FlushMessage {
    AudioFlush(AudioFlushMessage),
}

/// A request to decode an audio chunk.
pub struct AudioDecodeMessage {
    /// The chunk, already let through the key-chunk gate.
    pub chunk: EncodedAudioChunk,
}

/// A request to encode a piece of raw audio.
pub struct AudioEncodeMessage {
    pub data: String,
}

/// A request to signal the end of the stream to an audio decoder and to have
/// what it still holds delivered.
pub struct AudioFlushMessage {}

impl ControlMessageTrait for AudioConfigMessage {
    open spec fn job(&self) -> JobView {
        JobView::Config(self.config@)
    }

    fn process(&self, work_queue: &mut WorkQueue) -> (outcome: Outcome)
        ensures
            outcome == Outcome::Processed,
    {
        let config = self.config.clone();
        work_queue.enqueue(Job::Config(config));
        Outcome::Processed
    }
}

impl ControlMessageTrait for AudioDecodeMessage {
    open spec fn job(&self) -> JobView {
        JobView::Decode(self.chunk@)
    }

    fn process(&self, work_queue: &mut WorkQueue) -> (outcome: Outcome)
        ensures
            outcome == Outcome::Processed,
    {
        let chunk = self.chunk.clone();
        work_queue.enqueue(Job::Decode(chunk));
        Outcome::Processed
    }
}

impl ControlMessageTrait for AudioEncodeMessage {
    open spec fn job(&self) -> JobView {
        JobView::Encode(self.data@)
    }

    fn process(&self, work_queue: &mut WorkQueue) -> (outcome: Outcome)
        ensures
            outcome == Outcome::Processed,
    {
        let data = self.data.clone();
        work_queue.enqueue(Job::Encode(data));
        Outcome::Processed
    }
}

impl ControlMessageTrait for AudioFlushMessage {
    open spec fn job(&self) -> JobView {
        JobView::Flush
    }

    fn process(&self, work_queue: &mut WorkQueue) -> (outcome: Outcome)
        ensures
            outcome == Outcome::Processed,
    {
        work_queue.enqueue(Job::Flush);
        Outcome::Processed
    }
}

impl ControlMessageTrait for ControlMessage {
    open spec fn job(&self) -> JobView {
        match self {
            ControlMessage::Config(ConfigMessage::AudioConfig(message)) => message.job(),
            ControlMessage::Decode(DecodeMessage::AudioDecode(message)) => message.job(),
            ControlMessage::Encode(EncodeMessage::AudioEncode(message)) => message.job(),
            ControlMessage::Flush(FlushMessage::AudioFlush(message)) => message.job(),
        }
    }

    fn process(&self, work_queue: &mut WorkQueue) -> (outcome: Outcome)
        ensures
            outcome == Outcome::Processed,
    {
        match self {
            ControlMessage::Config(config_msg) => match config_msg {
                ConfigMessage::AudioConfig(cfg_msg) => cfg_msg.process(work_queue),
            },
            ControlMessage::Decode(decode_msg) => match decode_msg {
                DecodeMessage::AudioDecode(dcd_msg) => dcd_msg.process(work_queue),
            },
            ControlMessage::Encode(encode_msg) => match encode_msg {
                EncodeMessage::AudioEncode(enc_msg) => enc_msg.process(work_queue),
            },
            ControlMessage::Flush(flush_msg) => match flush_msg {
                FlushMessage::AudioFlush(fls_msg) => fls_msg.process(work_queue),
            },
        }
    }
}

} // verus!
