//! Properties that relate the decoders to each other.
use vstd::prelude::*;
use crate::decode::{chunk_text, first_content_text};
use crate::dispatch::stream_text;
use crate::error::BedrockError;
use crate::json::{Json, lookup, text_of};
use crate::models::{ModelConfigs, spec_family};
use crate::request::{BedrockCall, Image, built_call, call_encodable, quoted, spec_image_source};

verus! {

/// The pieces of a text, joined in order.
pub open spec fn concat_pieces(pieces: Seq<Seq<char>>) -> Seq<char>
    decreases pieces.len(),
{
    if pieces.len() == 0 {
        Seq::empty()
    } else {
        concat_pieces(pieces.drop_last()) + pieces.last()
    }
}

/// Whether `chunk` is a `text_delta` event carrying `piece`.
pub open spec fn text_delta_event(chunk: Json, piece: Seq<char>) -> bool {
    &&& lookup(chunk, "delta"@) matches Some(d)
    &&& text_of(lookup(d, "type"@)) == Some("text_delta"@)
    &&& text_of(lookup(d, "text"@)) == Some(piece)
}

/// Whether `chunk` is a protocol event without a delta (a message start or stop).
pub open spec fn control_event(chunk: Json) -> bool {
    lookup(chunk, "delta"@) is None
}

/// Streaming and single-shot decoding agree: when each event of a stream
/// is either a text delta carrying the next piece of a text or a control
/// event carrying none, the streamed text is the whole text, which is also
/// what the complete response carrying that text decodes to.
pub proof fn lemma_stream_agrees_with_complete(
    chunks: Seq<Json>,
    pieces: Seq<Seq<char>>,
    resp: Json,
)
    requires
        chunks.len() == pieces.len(),
        forall|i: int|
            0 <= i < chunks.len() ==> text_delta_event(#[trigger] chunks[i], pieces[i]) || (
            control_event(chunks[i]) && pieces[i] == Seq::<char>::empty()),
        first_content_text(resp) == Some(concat_pieces(pieces)),
    ensures
        stream_text(chunks) == concat_pieces(pieces),
        first_content_text(resp) == Some(stream_text(chunks)),
{
    lemma_stream_pieces(chunks, pieces);
}

proof fn lemma_stream_pieces(chunks: Seq<Json>, pieces: Seq<Seq<char>>)
    requires
        chunks.len() == pieces.len(),
        forall|i: int|
            0 <= i < chunks.len() ==> text_delta_event(#[trigger] chunks[i], pieces[i]) || (
            control_event(chunks[i]) && pieces[i] == Seq::<char>::empty()),
    ensures
        stream_text(chunks) == concat_pieces(pieces),
    decreases chunks.len(),
{
    if chunks.len() > 0 {
        let n = chunks.len() - 1;
        assert forall|i: int| 0 <= i < n implies text_delta_event(
            #[trigger] chunks.drop_last()[i],
            pieces.drop_last()[i],
        ) || (control_event(chunks.drop_last()[i]) && pieces.drop_last()[i] == Seq::<
            char,
        >::empty()) by {
            assert(chunks.drop_last()[i] == chunks[i]);
        }
        lemma_stream_pieces(chunks.drop_last(), pieces.drop_last());
        assert(chunks[n] == chunks.last());
        assert(chunk_text(chunks.last()) == Some(pieces.last()));
    }
}

/// An event whose delta is not a `text_delta` (or that has no delta)
/// contributes the empty text, never a failure.
pub proof fn lemma_other_event_is_empty(chunk: Json)
    requires
        !(lookup(chunk, "delta"@) matches Some(d) && text_of(lookup(d, "type"@)) == Some(
            "text_delta"@,
        )),
    ensures
        chunk_text(chunk) == Some(Seq::<char>::empty()),
{
}

/// An event that claims to be a `text_delta` but carries no text cannot be decoded.
pub proof fn lemma_text_delta_without_text(chunk: Json)
    requires
        lookup(chunk, "delta"@) matches Some(d) && text_of(lookup(d, "type"@)) == Some(
            "text_delta"@,
        ) && lookup(d, "text"@) is None,
    ensures
        chunk_text(chunk) is None,
{
}

/// Building a request for a known model and wrapping it into an envelope
/// succeeds whenever its texts can be encoded; the envelope names that
/// model, and its body carries the encoded media type `image/<extension>`
/// under `media_type` and the encoded question under `text`, in that order.
pub proof fn lemma_envelope_carries_request(
    r: Result<BedrockCall, BedrockError>,
    question: Seq<char>,
    img: Image,
    model_id: Seq<char>,
    defaults: ModelConfigs,
)
    requires
        built_call(r, question, Some(spec_image_source(img)), model_id, defaults),
        spec_family(defaults.models@, model_id) is Some,
        call_encodable(question, Some(spec_image_source(img)), defaults),
    ensures
        r matches Ok(call) && call.model_id@ == model_id && exists|
            pre: Seq<char>,
            mid: Seq<char>,
            post: Seq<char>,
        |
            call.body@ == pre + ",\"media_type\":"@ + quoted("image/"@ + img.extension@) + mid
                + ",\"text\":"@ + quoted(question) + post,
{
    let call = r->Ok_0;
    let d = defaults.claude_v3;
    let src = spec_image_source(img);
    let pre = "{\"anthropic_version\":"@ + quoted(d.anthropic_version@) + ",\"max_tokens\":"@
        + crate::request::decimal(d.max_tokens as nat) + ",\"messages\":[{\"role\":"@ + quoted(
        d.role@,
    ) + ",\"content\":"@ + "["@ + "{\"type\":\"image\",\"source\":{\"type\":"@ + quoted(src.0);
    let mid = ",\"data\":"@ + quoted(src.1) + "}}"@ + ","@ + "{\"type\":"@ + quoted(
        d.default_content_type@,
    );
    let post = "}"@ + "]"@ + "}]}"@;
    assert(call.body@ =~= pre + ",\"media_type\":"@ + quoted("image/"@ + img.extension@) + mid
        + ",\"text\":"@ + quoted(question) + post);
}

} // verus!
