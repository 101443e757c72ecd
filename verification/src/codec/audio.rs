use vstd::prelude::*;
use crate::codec::config::{
    AudioConfigMessage, AudioDecoderConfig, AudioDecoderConfigView, ConfigMessage,
};
use crate::codec::error::Exception;
use crate::codec::state::State;
use crate::data::audio_data::{EncodedAudioChunk, EncodedAudioChunkView};
use crate::engine::control::{
    AudioDecodeMessage, AudioEncodeMessage, ControlMessage, DecodeMessage, EncodeMessage,
};
use crate::engine::effect::{dispatches, effect_views, Effect, EffectView};
use crate::engine::internal_slots::CodecInternalSlots;
use crate::engine::work_queue::{job_views, Job, JobView, WorkQueue, MAX_WORKERS};

verus! {

/// Decodes `EncodedAudioChunk` objects.
///
/// The decoder keeps the lifecycle state, guards the key-chunk gate and turns
/// each accepted call into a control message, which it dispatches at once.
/// It does not run anything itself: what has to happen outside it is recorded
/// as effects, which [`AudioDecoder::take_effects`] hands out.
///
/// One instance is meant to be driven from one thread.
pub struct AudioDecoder {
    internal_slots: CodecInternalSlots,
    decode_queue_size: u32,
    state: State,
    key_chunk_required: bool,
    effects: Vec<Effect>,
}

/// What can be seen of an [`AudioDecoder`] between two calls.
pub struct AudioDecoderView {
    /// The lifecycle state.
    pub state: State,
    /// Whether the next chunk to be accepted has to be a key chunk.
    pub key_chunk_required: bool,
    /// The number of chunks that have been accepted and whose messages have
    /// not been handed to the control queue.
    pub decode_queue_size: nat,
    /// The effects that have arisen and have not been taken, oldest first.
    pub effects: Seq<EffectView>,
}

impl AudioDecoderView {
    /// A decoder as `new` makes it.
    pub open spec fn initial() -> Self {
        AudioDecoderView {
            state: State::Unconfigured,
            key_chunk_required: true,
            decode_queue_size: 0,
            effects: Seq::empty(),
        }
    }

    /// The decoder with one more effect behind those it has.
    pub open spec fn with_effect(self, effect: EffectView) -> Self {
        AudioDecoderView { effects: self.effects.push(effect), ..self }
    }

    /// What `configure` does and returns.
    ///
    /// A malformed configuration is a `TypeError`, whatever the state; a
    /// well-formed one on a closed decoder is an `InvalidStateError`. Neither
    /// changes anything or is reported to the error callback. Otherwise the
    /// decoder becomes `Configured`, the key-chunk gate is armed, and a
    /// `Config` job with the configuration is dispatched. The count of
    /// chunks on their way is as it was.
    pub open spec fn configure(self, config: AudioDecoderConfigView) -> (
        Self,
        Result<(), Exception>,
    ) {
        if !config.is_valid() {
            (self, Err(Exception::TypeError))
        } else if self.state == State::Closed {
            (self, Err(Exception::InvalidStateError))
        } else {
            (
                AudioDecoderView {
                    state: State::Configured,
                    key_chunk_required: true,
                    effects: self.effects.push(EffectView::Dispatch(JobView::Config(config))),
                    ..self
                },
                Ok(()),
            )
        }
    }

    /// What `decode` does and returns.
    ///
    /// On a decoder that is not `Configured` the call is an
    /// `InvalidStateError`; while the key-chunk gate is armed, a chunk that
    /// is not a key chunk is a `DecodeError`. Either error is also reported
    /// to the error callback, once, and nothing else changes. Otherwise the
    /// key-chunk gate is disarmed and a `Decode` job with the chunk is
    /// dispatched. The chunk is counted as on its way only until its message
    /// has been handed to the control queue, which is before the call
    /// returns: the count is after the call what it was before.
    pub open spec fn decode(self, chunk: EncodedAudioChunkView) -> (Self, Result<(), Exception>) {
        if self.state != State::Configured {
            (
                self.with_effect(EffectView::Report(Exception::InvalidStateError)),
                Err(Exception::InvalidStateError),
            )
        } else if self.key_chunk_required && !chunk.is_key {
            (
                self.with_effect(EffectView::Report(Exception::DecodeError)),
                Err(Exception::DecodeError),
            )
        } else {
            (
                AudioDecoderView {
                    key_chunk_required: false,
                    effects: self.effects.push(EffectView::Dispatch(JobView::Decode(chunk))),
                    ..self
                },
                Ok(()),
            )
        }
    }

    /// What `flush` does and returns.
    ///
    /// On a decoder that is not `Configured` the call is an
    /// `InvalidStateError`, which is also reported to the error callback,
    /// once. Otherwise the end of the stream is to be signalled to the
    /// backend.
    pub open spec fn flush(self) -> (Self, Result<(), Exception>) {
        if self.state != State::Configured {
            (
                self.with_effect(EffectView::Report(Exception::InvalidStateError)),
                Err(Exception::InvalidStateError),
            )
        } else {
            (self.with_effect(EffectView::SignalEndOfStream), Ok(()))
        }
    }

    /// What `reset` does.
    ///
    /// On a closed decoder an `InvalidStateError` is reported to the error
    /// callback and nothing else changes. Otherwise the decoder becomes
    /// `Unconfigured`, no chunk counts as on its way any more, and the
    /// backend is released.
    pub open spec fn reset(self) -> Self {
        if self.state == State::Closed {
            self.with_effect(EffectView::Report(Exception::InvalidStateError))
        } else {
            AudioDecoderView {
                state: State::Unconfigured,
                decode_queue_size: 0,
                ..self.with_effect(EffectView::ReleaseBackend)
            }
        }
    }

    /// What `close` does: a `reset`, after which the decoder is `Closed`.
    pub open spec fn close(self) -> Self {
        AudioDecoderView { state: State::Closed, ..self.reset() }
    }
}

/// Moves the jobs that wait in `work_queue` to the back of `effects`, each as
/// a dispatch, oldest first.
fn collect_dispatched(work_queue: &mut WorkQueue, effects: &mut Vec<Effect>)
    ensures
        final(work_queue)@ == Seq::<JobView>::empty(),
        final(work_queue).workers() == old(work_queue).workers(),
        effect_views(final(effects)@) == effect_views(old(effects)@) + dispatches(old(work_queue)@),
{
    loop
        invariant
            work_queue.workers() == old(work_queue).workers(),
            effect_views(effects@) + dispatches(work_queue@) == effect_views(old(effects)@)
                + dispatches(old(work_queue)@),
        ensures
            work_queue@ == Seq::<JobView>::empty(),
            effect_views(effects@) == effect_views(old(effects)@) + dispatches(old(work_queue)@),
        decreases work_queue@.len(),
    {
        let ghost waiting = work_queue@;
        let ghost collected = effects@;
        match work_queue.dequeue() {
            Some(job) => {
                effects.push(Effect::Dispatch(job));
                assert(effect_views(effects@) + dispatches(work_queue@) =~= effect_views(
                    collected,
                ) + dispatches(waiting));
            },
            None => {
                assert(dispatches(waiting) =~= Seq::<EffectView>::empty());
                assert(effect_views(effects@) =~= effect_views(effects@) + dispatches(waiting));
                break;
            },
        }
    }
}

impl View for AudioDecoder {
    type V = AudioDecoderView;

    closed spec fn view(&self) -> AudioDecoderView {
        AudioDecoderView {
            state: self.state,
            key_chunk_required: self.key_chunk_required,
            decode_queue_size: self.decode_queue_size as nat,
            effects: effect_views(self.effects@),
        }
    }
}

impl AudioDecoder {
    /// Whether the decoder is at rest: no control message waits, dispatching
    /// is not suspended, no job waits to be collected, and no chunk is on its
    /// way into the control queue. `new` makes such a decoder and every
    /// operation leaves it so.
    pub closed spec fn wf(&self) -> bool {
        &&& self.internal_slots@.queued.len() == 0
        &&& !self.internal_slots@.blocked
        &&& self.internal_slots@.dispatched.len() == 0
        &&& self.internal_slots.work_queue.workers() == MAX_WORKERS
        &&& self.decode_queue_size == 0
    }

    /// An unconfigured decoder, with the key-chunk gate armed and no effect
    /// recorded.
    pub fn new() -> (decoder: Self)
        ensures
            decoder.wf(),
            decoder@ == AudioDecoderView::initial(),
    {
        let decoder = AudioDecoder {
            internal_slots: CodecInternalSlots::new(MAX_WORKERS),
            decode_queue_size: 0,
            state: State::Unconfigured,
            key_chunk_required: true,
            effects: Vec::new(),
        };
        assert(effect_views(decoder.effects@) =~= Seq::<EffectView>::empty());
        decoder
    }

    /// The lifecycle state.
    pub fn state(&self) -> (state: State)
        ensures
            state == self@.state,
    {
        self.state
    }

    /// Whether the next chunk to be accepted has to be a key chunk.
    pub fn key_chunk_required(&self) -> (required: bool)
        ensures
            required == self@.key_chunk_required,
    {
        self.key_chunk_required
    }

    /// The number of chunks that `decode` has accepted and that are still on
    /// their way into the control queue. The count is raised when a chunk is
    /// accepted and lowered as soon as its message has been handed to the
    /// queue, so it is zero whenever the decoder is at rest (see
    /// [`AudioDecoder::lemma_no_chunk_on_its_way_at_rest`]). It does not
    /// follow the progress of the backend.
    pub fn decode_queue_size(&self) -> (size: u32)
        ensures
            size == self@.decode_queue_size,
    {
        self.decode_queue_size
    }

    /// A decoder at rest counts no chunk as on its way.
    pub proof fn lemma_no_chunk_on_its_way_at_rest(&self)
        requires
            self.wf(),
        ensures
            self@.decode_queue_size == 0,
    {
    }

    /// The number of workers the decoder's jobs are meant for.
    pub fn workers(&self) -> (workers: usize)
        requires
            self.wf(),
        ensures
            workers == MAX_WORKERS,
    {
        self.internal_slots.work_queue.num_threads()
    }

    /// Whether `configure` would take `config` on a decoder that is not
    /// closed. This looks at the configuration alone and changes nothing.
    pub fn is_config_supported(&self, config: &AudioDecoderConfig) -> (supported: bool)
        ensures
            supported == config@.is_valid(),
    {
        config.is_valid()
    }

    /// Initialises the underlying decoder with given config.
    ///
    /// The call returns as soon as the `Config` job is dispatched. Whether
    /// the backend could be set up shows only later, in what the job reports.
    pub fn configure(&mut self, config: AudioDecoderConfig) -> (result: Result<(), Exception>)
        requires
            old(self).wf(),
        ensures
            final(self).wf(),
            (final(self)@, result) == old(self)@.configure(config@),
    {
        if !self.is_config_supported(&config) {
            return Err(Exception::TypeError);
        }
        if self.state == State::Closed {
            return Err(Exception::InvalidStateError);
        }
        self.state = State::Configured;
        self.key_chunk_required = true;

        let config_message = AudioConfigMessage { config };
        self.internal_slots.enqueue_control_message(
            ControlMessage::Config(ConfigMessage::AudioConfig(config_message)),
        );
        self.internal_slots.process_control_message_queue();
        collect_dispatched(&mut self.internal_slots.work_queue, &mut self.effects);
        assert(effect_views(self.effects@) =~= effect_views(old(self).effects@).push(
            EffectView::Dispatch(JobView::Config(config@)),
        ));

        Ok(())
    }

    /// Decodes an encoded audio chunk.
    ///
    /// The call returns as soon as the `Decode` job is dispatched.
    pub fn decode(&mut self, chunk: EncodedAudioChunk) -> (result: Result<(), Exception>)
        requires
            old(self).wf(),
        ensures
            final(self).wf(),
            (final(self)@, result) == old(self)@.decode(chunk@),
    {
        if self.state != State::Configured {
            self.report(Exception::InvalidStateError);
            return Err(Exception::InvalidStateError);
        }
        if self.key_chunk_required && !chunk.is_key {
            self.report(Exception::DecodeError);
            return Err(Exception::DecodeError);
        }
        self.key_chunk_required = false;
        self.decode_queue_size += 1;

        let decode_message = AudioDecodeMessage { chunk };
        self.internal_slots.enqueue_control_message(
            ControlMessage::Decode(DecodeMessage::AudioDecode(decode_message)),
        );
        self.internal_slots.process_control_message_queue();
        collect_dispatched(&mut self.internal_slots.work_queue, &mut self.effects);
        assert(effect_views(self.effects@) =~= effect_views(old(self).effects@).push(
            EffectView::Dispatch(JobView::Decode(chunk@)),
        ));

        self.decode_queue_size -= 1;
        Ok(())
    }

    /// Flush the decoder and drain remaining frames.
    ///
    /// The decoder only lets the flush through: `Ok` says that the end of the
    /// stream is to be signalled, which the effect that comes with it asks
    /// for. What the flush as a whole returns is then
    /// [`flush_outcome`](crate::engine::backend::flush_outcome) of what came
    /// of the signal.
    pub fn flush(&mut self) -> (result: Result<(), Exception>)
        requires
            old(self).wf(),
        ensures
            final(self).wf(),
            (final(self)@, result) == old(self)@.flush(),
    {
        if self.state != State::Configured {
            self.report(Exception::InvalidStateError);
            return Err(Exception::InvalidStateError);
        }
        self.effects.push(Effect::SignalEndOfStream);
        assert(effect_views(self.effects@) =~= effect_views(old(self).effects@).push(
            EffectView::SignalEndOfStream,
        ));
        Ok(())
    }

    /// Resets the decoder and clears the queue.
    ///
    /// Jobs that have been dispatched are not called back: they run, or fail
    /// for want of a backend, on their own.
    pub fn reset(&mut self)
        requires
            old(self).wf(),
        ensures
            final(self).wf(),
            final(self)@ == old(self)@.reset(),
    {
        if self.state == State::Closed {
            self.report(Exception::InvalidStateError);
            return ;
        }
        self.state = State::Unconfigured;
        self.decode_queue_size = 0;
        self.internal_slots.control_message_queue.clear();
        self.effects.push(Effect::ReleaseBackend);
        assert(effect_views(self.effects@) =~= effect_views(old(self).effects@).push(
            EffectView::ReleaseBackend,
        ));
    }

    /// Closes the decoder; aborts any pending work.
    pub fn close(&mut self)
        requires
            old(self).wf(),
        ensures
            final(self).wf(),
            final(self)@ == old(self)@.close(),
            final(self)@.state == State::Closed,
    {
        self.reset();
        self.state = State::Closed;
    }

    /// Hands out the effects that have arisen since they were last taken,
    /// oldest first, and forgets them.
    pub fn take_effects(&mut self) -> (effects: Vec<Effect>)
        requires
            old(self).wf(),
        ensures
            final(self).wf(),
            effect_views(effects@) == old(self)@.effects,
            final(self)@ == (AudioDecoderView { effects: Seq::empty(), ..old(self)@ }),
    {
        let mut effects: Vec<Effect> = Vec::new();
        std::mem::swap(&mut self.effects, &mut effects);
        assert(effect_views(self.effects@) =~= Seq::<EffectView>::empty());
        effects
    }

    /// Records that `error` is to be delivered to the error callback.
    fn report(&mut self, error: Exception)
        requires
            old(self).wf(),
        ensures
            final(self).wf(),
            final(self)@ == old(self)@.with_effect(EffectView::Report(error)),
    {
        self.effects.push(Effect::Report(error));
        assert(effect_views(self.effects@) =~= effect_views(old(self).effects@).push(
            EffectView::Report(error),
        ));
    }
}

/// Encodes `AudioData` objects.
///
/// Of the encoder only the hand-off of raw data to the workers exists; its
/// other operations have no effect.
pub struct AudioEncoder {
    internal_slots: CodecInternalSlots,
}

impl View for AudioEncoder {
    type V = Seq<JobView>;

    /// The jobs that have been dispatched and have not been taken, oldest
    /// first.
    closed spec fn view(&self) -> Seq<JobView> {
        self.internal_slots@.dispatched
    }
}

impl AudioEncoder {
    /// Whether the encoder is at rest: no control message waits and
    /// dispatching is not suspended.
    pub closed spec fn wf(&self) -> bool {
        &&& self.internal_slots@.queued.len() == 0
        &&& !self.internal_slots@.blocked
    }

    /// An encoder that has dispatched nothing.
    pub fn new() -> (encoder: Self)
        ensures
            encoder.wf(),
            encoder@ == Seq::<JobView>::empty(),
    {
        AudioEncoder { internal_slots: CodecInternalSlots::new(MAX_WORKERS) }
    }

    /// Has no effect.
    pub fn is_config_supported() {
    }

    /// Has no effect.
    pub fn configure() {
    }

    /// Dispatches an `Encode` job with `data`.
    pub fn encode(&mut self, data: String)
        requires
            old(self).wf(),
        ensures
            final(self).wf(),
            final(self)@ == old(self)@.push(JobView::Encode(data@)),
    {
        let message = AudioEncodeMessage { data };
        self.internal_slots.enqueue_control_message(
            ControlMessage::Encode(EncodeMessage::AudioEncode(message)),
        );
        self.internal_slots.process_control_message_queue();
        assert(self.internal_slots@.dispatched =~= old(self).internal_slots@.dispatched.push(
            JobView::Encode(data@),
        ));
    }

    /// Hands out the jobs that have been dispatched since they were last
    /// taken, oldest first, and forgets them.
    pub fn take_jobs(&mut self) -> (jobs: Vec<Job>)
        requires
            old(self).wf(),
        ensures
            final(self).wf(),
            job_views(jobs@) == old(self)@,
            final(self)@ == Seq::<JobView>::empty(),
    {
        let mut jobs: Vec<Job> = Vec::new();
        assert(job_views(jobs@) =~= Seq::<JobView>::empty());
        loop
            invariant
                self.wf(),
                job_views(jobs@) + self@ == old(self)@,
            ensures
                self.wf(),
                job_views(jobs@) == old(self)@,
                self@ == Seq::<JobView>::empty(),
            decreases self@.len(),
        {
            let ghost waiting = self@;
            let ghost taken = jobs@;
            match self.internal_slots.work_queue.dequeue() {
                Some(job) => {
                    jobs.push(job);
                    assert(job_views(jobs@) + self@ =~= job_views(taken) + waiting);
                },
                None => {
                    assert(job_views(jobs@) =~= job_views(jobs@) + waiting);
                    break;
                },
            }
        }
        jobs
    }

    /// Has no effect.
    pub fn flush() {
    }

    /// Has no effect.
    pub fn reset() {
    }

    /// Has no effect.
    pub fn close() {
    }
}

} // verus!
