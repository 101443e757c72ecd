//! What holds of an audio decoder over several calls.
//!
//! The operations of [`AudioDecoder`](crate::codec::audio::AudioDecoder) are
//! specified one call at a time, by the functions of
//! [`AudioDecoderView`]. The lemmas here follow a decoder through several
//! calls.

use vstd::prelude::*;
use crate::codec::audio::AudioDecoderView;
use crate::codec::config::AudioDecoderConfigView;
use crate::codec::error::Exception;
use crate::codec::state::State;
use crate::data::audio_data::EncodedAudioChunkView;
use crate::engine::effect::EffectView;
use crate::engine::work_queue::JobView;

verus! {

impl AudioDecoderView {
    /// The decoder after `decode` has been called with each of `chunks`, the
    /// first of them first.
    pub open spec fn decode_all(self, chunks: Seq<EncodedAudioChunkView>) -> Self
        decreases chunks.len(),
    {
        if chunks.len() == 0 {
            self
        } else {
            self.decode_all(chunks.drop_last()).decode(chunks.last()).0
        }
    }

    /// The effect that stands at the place of the chunk at `index`, once
    /// `decode` has been called with each of `chunks`: the first place is
    /// the one behind the effects that the decoder had before.
    pub open spec fn effect_at(self, chunks: Seq<EncodedAudioChunkView>, index: int) -> EffectView {
        self.decode_all(chunks).effects[self.effects.len() + index]
    }
}

/// Whether the key-chunk gate holds back the chunk at `index` of `chunks`,
/// when the chunks are submitted in turn to a configured decoder whose
/// key-chunk gate is `armed` or not: it does when it is armed and no chunk up
/// to that one is a key chunk.
pub open spec fn held_back(armed: bool, chunks: Seq<EncodedAudioChunkView>, index: int) -> bool {
    armed && forall|j: int| 0 <= j <= index ==> !(#[trigger] chunks[j]).is_key
}

/// The one effect of submitting the chunk at `index` of `chunks`: the report
/// of a `DecodeError` when the key-chunk gate holds the chunk back, and the
/// dispatch of a `Decode` job with the chunk otherwise.
pub open spec fn effect_of_chunk(
    armed: bool,
    chunks: Seq<EncodedAudioChunkView>,
    index: int,
) -> EffectView {
    if held_back(armed, chunks, index) {
        EffectView::Report(Exception::DecodeError)
    } else {
        EffectView::Dispatch(JobView::Decode(chunks[index]))
    }
}

/// A valid configuration followed at once by a chunk that is not a key
/// chunk: on a decoder that is not closed, `configure` succeeds, and the
/// `decode` that follows fails with a `DecodeError`, which is reported to the
/// error callback exactly once. No job is dispatched for the chunk, and the
/// key-chunk gate stays armed.
pub proof fn lemma_non_key_chunk_after_configure_is_refused(
    decoder: AudioDecoderView,
    config: AudioDecoderConfigView,
    chunk: EncodedAudioChunkView,
)
    requires
        config.is_valid(),
        decoder.state != State::Closed,
        !chunk.is_key,
    ensures
        decoder.configure(config).1 == Ok::<(), Exception>(()),
        decoder.configure(config).0.decode(chunk).1 == Err::<(), Exception>(
            Exception::DecodeError,
        ),
        decoder.configure(config).0.decode(chunk).0 == decoder.configure(config).0.with_effect(
            EffectView::Report(Exception::DecodeError),
        ),
        decoder.configure(config).0.decode(chunk).0.state == State::Configured,
        decoder.configure(config).0.decode(chunk).0.key_chunk_required,
{
}

/// Any number of `decode` calls on a configured decoder: every call adds
/// exactly one effect behind those that were there, so that the effects
/// stand in the order in which the chunks were submitted. The effect of a
/// chunk is its dispatch, unless the key-chunk gate holds the chunk back:
/// that is reported as a `DecodeError`. The decoder stays configured, and
/// its key-chunk gate stays armed only as long as every chunk has been held
/// back.
pub proof fn lemma_decode_keeps_submission_order(
    decoder: AudioDecoderView,
    chunks: Seq<EncodedAudioChunkView>,
)
    requires
        decoder.state == State::Configured,
    ensures
        decoder.decode_all(chunks).state == State::Configured,
        decoder.decode_all(chunks).key_chunk_required == held_back(
            decoder.key_chunk_required,
            chunks,
            chunks.len() - 1,
        ),
        decoder.decode_all(chunks).effects.len() == decoder.effects.len() + chunks.len(),
        decoder.decode_all(chunks).effects.subrange(0, decoder.effects.len() as int)
            == decoder.effects,
        forall|i: int|
            #![trigger decoder.effect_at(chunks, i)]
            #![trigger effect_of_chunk(decoder.key_chunk_required, chunks, i)]
            0 <= i < chunks.len() ==> decoder.effect_at(chunks, i) == effect_of_chunk(
                decoder.key_chunk_required,
                chunks,
                i,
            ),
    decreases chunks.len(),
{
    let armed = decoder.key_chunk_required;
    if chunks.len() == 0 {
        assert(decoder.effects.subrange(0, decoder.effects.len() as int) =~= decoder.effects);
    } else {
        let earlier = chunks.drop_last();
        let before = decoder.decode_all(earlier);
        let after = decoder.decode_all(chunks);
        let last = chunks.len() - 1;
        lemma_decode_keeps_submission_order(decoder, earlier);
        assert(after == before.decode(chunks.last()).0);
        assert(forall|j: int| 0 <= j < last ==> earlier[j] == chunks[j]);
        assert(held_back(armed, chunks, last) == (held_back(armed, earlier, last - 1)
            && !chunks[last].is_key));
        assert(after.effects == before.effects.push(effect_of_chunk(armed, chunks, last)));
        assert(after.effects.subrange(0, decoder.effects.len() as int) =~= before.effects.subrange(
            0,
            decoder.effects.len() as int,
        ));
        assert forall|i: int| 0 <= i < chunks.len() implies decoder.effect_at(chunks, i)
            == effect_of_chunk(armed, chunks, i) by {
            if i < last {
                assert(held_back(armed, chunks, i) == held_back(armed, earlier, i));
                assert(decoder.effect_at(earlier, i) == effect_of_chunk(armed, earlier, i));
            }
        }
    }
}

/// Chunks that the key-chunk gate lets through, submitted to a configured
/// decoder: when the key-chunk gate is not armed, or the first chunk is a key
/// chunk, every `decode` succeeds, and the jobs are dispatched in the order
/// in which the chunks were submitted, with nothing in between.
pub proof fn lemma_accepted_chunks_are_dispatched_in_order(
    decoder: AudioDecoderView,
    chunks: Seq<EncodedAudioChunkView>,
)
    requires
        decoder.state == State::Configured,
        chunks.len() > 0,
        !decoder.key_chunk_required || chunks[0].is_key,
    ensures
        !decoder.decode_all(chunks).key_chunk_required,
        decoder.decode_all(chunks).effects == decoder.effects + chunks.map_values(
            |chunk: EncodedAudioChunkView| EffectView::Dispatch(JobView::Decode(chunk)),
        ),
        forall|i: int|
            0 <= i < chunks.len() ==> (#[trigger] decoder.decode_all(chunks.take(i)).decode(
                chunks[i],
            )).1 == Ok::<(), Exception>(()),
{
    let armed = decoder.key_chunk_required;
    let after = decoder.decode_all(chunks);
    let dispatched = chunks.map_values(
        |chunk: EncodedAudioChunkView| EffectView::Dispatch(JobView::Decode(chunk)),
    );
    lemma_decode_keeps_submission_order(decoder, chunks);
    assert forall|i: int| 0 <= i < chunks.len() implies !held_back(armed, chunks, i) by {
        assert(armed ==> chunks[0].is_key);
    }
    assert forall|i: int| 0 <= i < after.effects.len() implies after.effects[i] == (decoder.effects
        + dispatched)[i] by {
        if i < decoder.effects.len() {
            assert(after.effects.subrange(0, decoder.effects.len() as int)[i] == after.effects[i]);
        } else {
            let k = i - decoder.effects.len();
            assert(decoder.effect_at(chunks, k) == effect_of_chunk(armed, chunks, k));
        }
    }
    assert(after.effects =~= decoder.effects + dispatched);
    assert forall|i: int| 0 <= i < chunks.len() implies (#[trigger] decoder.decode_all(
        chunks.take(i),
    ).decode(chunks[i])).1 == Ok::<(), Exception>(()) by {
        let earlier = chunks.take(i);
        lemma_decode_keeps_submission_order(decoder, earlier);
        if i > 0 {
            assert(earlier[0] == chunks[0]);
            assert(!held_back(armed, earlier, i - 1));
        }
    }
}

/// The first chunk that a decoder dispatches after it has been configured
/// is a key chunk: of the chunks submitted to a configured decoder whose
/// key-chunk gate is armed, one that is dispatched while every chunk before
/// it was held back is a key chunk.
pub proof fn lemma_first_dispatched_chunk_is_key(
    decoder: AudioDecoderView,
    chunks: Seq<EncodedAudioChunkView>,
    index: int,
)
    requires
        decoder.state == State::Configured,
        decoder.key_chunk_required,
        0 <= index < chunks.len(),
        decoder.effect_at(chunks, index) == EffectView::Dispatch(JobView::Decode(chunks[index])),
        forall|j: int|
            0 <= j < index ==> #[trigger] decoder.effect_at(chunks, j) == EffectView::Report(
                Exception::DecodeError,
            ),
    ensures
        chunks[index].is_key,
{
    lemma_decode_keeps_submission_order(decoder, chunks);
    assert(decoder.effect_at(chunks, index) == effect_of_chunk(true, chunks, index));
    assert(!held_back(true, chunks, index));
    if index > 0 {
        assert(decoder.effect_at(chunks, index - 1) == effect_of_chunk(true, chunks, index - 1));
        assert(held_back(true, chunks, index - 1));
    }
}

/// The lifecycle of a decoder: only a successful `configure` makes it
/// `Configured`, only a `reset` of a decoder that is not closed makes it
/// `Unconfigured`, `close` makes it `Closed`, and `decode` and `flush` leave
/// the state as it is. A call that fails leaves the state as it is, too.
pub proof fn lemma_lifecycle(
    decoder: AudioDecoderView,
    config: AudioDecoderConfigView,
    chunk: EncodedAudioChunkView,
)
    ensures
        decoder.configure(config).0.state == if decoder.configure(config).1.is_ok() {
            State::Configured
        } else {
            decoder.state
        },
        decoder.decode(chunk).0.state == decoder.state,
        decoder.flush().0.state == decoder.state,
        decoder.reset().state == if decoder.state == State::Closed {
            State::Closed
        } else {
            State::Unconfigured
        },
        decoder.close().state == State::Closed,
{
}

/// The count of chunks on their way over the calls: a new decoder counts
/// none, `configure`, `decode` and `flush` leave the count as it was, and
/// after a `reset` or `close` of a decoder that counted none, none is
/// counted. So the count is zero between any two calls on a decoder.
pub proof fn lemma_no_chunk_stays_on_its_way(
    decoder: AudioDecoderView,
    config: AudioDecoderConfigView,
    chunk: EncodedAudioChunkView,
)
    ensures
        AudioDecoderView::initial().decode_queue_size == 0,
        decoder.configure(config).0.decode_queue_size == decoder.decode_queue_size,
        decoder.decode(chunk).0.decode_queue_size == decoder.decode_queue_size,
        decoder.flush().0.decode_queue_size == decoder.decode_queue_size,
        decoder.decode_queue_size == 0 ==> decoder.reset().decode_queue_size == 0,
        decoder.decode_queue_size == 0 ==> decoder.close().decode_queue_size == 0,
        decoder.state != State::Closed ==> decoder.reset().decode_queue_size == 0,
{
}

/// `close` twice: the decoder is closed after the first call and after the
/// second. The second call finds the decoder closed, so its reset changes
/// nothing and reports an `InvalidStateError`.
pub proof fn lemma_close_is_idempotent(decoder: AudioDecoderView)
    ensures
        decoder.close().state == State::Closed,
        decoder.close().close().state == State::Closed,
        decoder.close().close() == decoder.close().with_effect(
            EffectView::Report(Exception::InvalidStateError),
        ),
{
}

/// `reset` on a closed decoder reports an `InvalidStateError` to the error
/// callback, once, and leaves the decoder closed and otherwise as it was.
pub proof fn lemma_reset_of_closed_decoder_is_refused(decoder: AudioDecoderView)
    requires
        decoder.state == State::Closed,
    ensures
        decoder.reset().state == State::Closed,
        decoder.reset() == decoder.with_effect(EffectView::Report(Exception::InvalidStateError)),
{
}

/// `is_config_supported` and `configure` make the same check: `configure`
/// answers `TypeError` for exactly the configurations that
/// `is_config_supported` turns down, and on a decoder that is not closed it
/// succeeds for exactly those that `is_config_supported` takes.
pub proof fn lemma_supported_config_is_accepted(
    decoder: AudioDecoderView,
    config: AudioDecoderConfigView,
)
    ensures
        decoder.configure(config).1 == Err::<(), Exception>(Exception::TypeError)
            <==> !config.is_valid(),
        decoder.state != State::Closed ==> (decoder.configure(config).1 == Ok::<(), Exception>(())
            <==> config.is_valid()),
{
}

/// A configuration that `configure` turns down leaves no trace: the decoder
/// is as it was, and nothing is dispatched or reported.
pub proof fn lemma_refused_config_changes_nothing(
    decoder: AudioDecoderView,
    config: AudioDecoderConfigView,
)
    requires
        decoder.configure(config).1.is_err(),
    ensures
        decoder.configure(config).0 == decoder,
{
}

/// A closed decoder stays closed, whatever is called on it, and turns down
/// every `configure`, `decode` and `flush`.
pub proof fn lemma_closed_is_final(
    decoder: AudioDecoderView,
    config: AudioDecoderConfigView,
    chunk: EncodedAudioChunkView,
)
    requires
        decoder.state == State::Closed,
    ensures
        decoder.configure(config).0.state == State::Closed,
        decoder.configure(config).1.is_err(),
        decoder.decode(chunk).0.state == State::Closed,
        decoder.decode(chunk).1 == Err::<(), Exception>(Exception::InvalidStateError),
        decoder.flush().0.state == State::Closed,
        decoder.flush().1 == Err::<(), Exception>(Exception::InvalidStateError),
        decoder.flush().0 == decoder.with_effect(EffectView::Report(Exception::InvalidStateError)),
        decoder.reset().state == State::Closed,
        decoder.close().state == State::Closed,
{
}

} // verus!
