//! The decisions of one call: which request to send, whether to stream,
//! and what each streamed event contributes.
use vstd::prelude::*;
use crate::decode::{chunk_text, decode_chunk, process_response};
use crate::error::BedrockError;
use crate::json::Json;
use crate::models::{ModelConfigs, ModelEntry, is_multimodal, model_family, spec_family, spec_multimodal};
use crate::request::{BedrockCall, Image, built_call, caller_image_view, mk_bedrock_call};

verus! {

/// Whether a call answers a question or captions an image.
#[derive(PartialEq, Eq, Structural, Debug, Clone, Copy)]
pub enum RunType {
    Standard,
    Captioning,
}

/// Builds the envelope for one call. Captioning needs an image and a model
/// that reads images; a standard call only needs a known model.
pub fn prepare_call(
    question: &String,
    image: Option<&Image>,
    model_id: &str,
    run_type: RunType,
    defaults: &ModelConfigs,
) -> (r: Result<BedrockCall, BedrockError>)
    ensures
        run_type == RunType::Standard ==> built_call(
            r,
            question@,
            caller_image_view(image),
            model_id@,
            *defaults,
        ),
        run_type == RunType::Captioning && image is None ==> (r matches Err(BedrockError::NoImage)),
        run_type == RunType::Captioning && image is Some && !spec_multimodal(defaults.models@, model_id@) ==> (r matches Err(
            BedrockError::CaptioningUnsupported(m),
        ) && m@ == model_id@),
        run_type == RunType::Captioning && image is Some && spec_multimodal(defaults.models@, model_id@) ==> built_call(
            r,
            question@,
            caller_image_view(image),
            model_id@,
            *defaults,
        ),
{
    match run_type {
        RunType::Standard => mk_bedrock_call(question, image, model_id, defaults),
        RunType::Captioning => {
            if image.is_none() {
                return Err(BedrockError::NoImage);
            }
            if !is_multimodal(&defaults.models, model_id) {
                return Err(BedrockError::CaptioningUnsupported(model_id.to_owned()));
            }
            mk_bedrock_call(question, image, model_id, defaults)
        },
    }
}

/// Whether a call streams its answer: only standard calls to models that
/// support streaming do; captioning never streams.
pub fn should_stream(run_type: RunType, supports_streaming: bool) -> (r: bool)
    ensures
        r == (run_type == RunType::Standard && supports_streaming),
{
    match run_type {
        RunType::Standard => supports_streaming,
        RunType::Captioning => false,
    }
}

/// Whether the decoded answer is also echoed to standard output.
pub fn echoes_output(run_type: RunType) -> (r: bool)
    ensures
        r == (run_type == RunType::Standard),
{
    match run_type {
        RunType::Standard => true,
        RunType::Captioning => false,
    }
}

/// Reads the streaming capability out of a model lookup: `None` stands for
/// an answer without model details, an absent flag for no streaming.
pub fn streaming_flag(details: Option<Option<bool>>) -> (r: Result<bool, BedrockError>)
    ensures
        match details {
            None => r matches Err(BedrockError::MissingModelDetails),
            Some(None) => r == Ok::<bool, BedrockError>(false),
            Some(Some(b)) => r == Ok::<bool, BedrockError>(b),
        },
{
    match details {
        None => Err(BedrockError::MissingModelDetails),
        Some(None) => Ok(false),
        Some(Some(b)) => Ok(b),
    }
}

/// An event of a response stream, its payload already read as JSON.
#[derive(Debug)]
pub enum StreamEvent {
    /// A content chunk; `None` where its bytes are not valid JSON.
    Chunk(Option<Json>),
    /// A content chunk without payload bytes.
    EmptyChunk,
    /// Any other event: the decoder has no rule for it.
    Other,
}

/// What the caller does with one stream event.
#[derive(Debug)]
pub enum StepAction {
    /// Echo this text; it has been added to the output.
    Emit(String),
    /// Nothing to do.
    Skip,
    /// Report this failure; the chunk contributes nothing.
    Report(BedrockError),
}

/// The text a chunk contributes for `model_id`; `None` where it cannot be decoded.
pub open spec fn event_text(
    models: Seq<ModelEntry>,
    model_id: Seq<char>,
    payload: Option<Json>,
) -> Option<Seq<char>> {
    if spec_family(models, model_id) is None {
        None
    } else {
        match payload {
            Some(j) => chunk_text(j),
            None => None,
        }
    }
}

/// The decoder of one streamed response: it keeps the text decoded so far.
#[derive(Debug)]
pub struct StreamDecoder {
    pub model_id: String,
    pub output: String,
}

impl StreamDecoder {
    /// A decoder for a response of `model_id`, with no output yet.
    pub fn new(model_id: &str) -> (r: StreamDecoder)
        ensures
            r.model_id@ == model_id@,
            r.output@ == Seq::<char>::empty(),
    {
        StreamDecoder { model_id: model_id.to_owned(), output: String::new() }
    }

    /// Takes the next event in arrival order. A decoded chunk appends its
    /// text to the output; a chunk that cannot be decoded is reported and
    /// leaves the output as it was; an event that is no chunk ends the call.
    pub fn step(&mut self, models: &Vec<ModelEntry>, event: &StreamEvent) -> (r: Result<StepAction, BedrockError>)
        ensures
            final(self).model_id == old(self).model_id,
            match *event {
                StreamEvent::Other => {
                    &&& r matches Err(BedrockError::UnrecoverableEvent)
                    &&& final(self).output == old(self).output
                },
                StreamEvent::EmptyChunk => {
                    &&& r matches Ok(StepAction::Skip)
                    &&& final(self).output == old(self).output
                },
                StreamEvent::Chunk(p) => match event_text(models@, old(self).model_id@, p) {
                    Some(t) => {
                        &&& r matches Ok(StepAction::Emit(s))
                        &&& s@ == t
                        &&& final(self).output@ == old(self).output@ + t
                    },
                    None => {
                        &&& r matches Ok(StepAction::Report(e))
                        &&& (spec_family(models@, old(self).model_id@) is None ==> (e matches BedrockError::UnknownModel(m)
                            && m@ == old(self).model_id@))
                        &&& (spec_family(models@, old(self).model_id@) is Some ==> e matches BedrockError::MalformedResponse)
                        &&& final(self).output == old(self).output
                    },
                },
            },
    {
        match event {
            StreamEvent::Other => Err(BedrockError::UnrecoverableEvent),
            StreamEvent::EmptyChunk => Ok(StepAction::Skip),
            StreamEvent::Chunk(p) => {
                let payload = match p {
                    Some(j) => Some(j),
                    None => None,
                };
                match process_response(models, self.model_id.as_str(), payload, true) {
                    Ok(text) => {
                        self.output.append(text.as_str());
                        Ok(StepAction::Emit(text))
                    },
                    Err(e) => Ok(StepAction::Report(e)),
                }
            },
        }
    }
}

/// The streamed text of a sequence of chunks of a known model, in arrival
/// order; a chunk that cannot be decoded contributes nothing.
pub open spec fn stream_text(chunks: Seq<Json>) -> Seq<char>
    decreases chunks.len(),
{
    if chunks.len() == 0 {
        Seq::empty()
    } else {
        stream_text(chunks.drop_last()) + match chunk_text(chunks.last()) {
            Some(t) => t,
            None => Seq::empty(),
        }
    }
}

/// Concatenates the decoded texts of `chunks`, in order, dropping those that
/// cannot be decoded.
pub fn concat_chunks(models: &Vec<ModelEntry>, model_id: &str, chunks: &Vec<Json>) -> (r: Result<String, BedrockError>)
    ensures
        spec_family(models@, model_id@) is None ==> (r matches Err(BedrockError::UnknownModel(m))
            && m@ == model_id@),
        spec_family(models@, model_id@) is Some ==> (r matches Ok(s) && s@ == stream_text(chunks@)),
{
    if model_family(models, model_id).is_none() {
        return Err(BedrockError::UnknownModel(model_id.to_owned()));
    }
    let mut out = String::new();
    let mut i: usize = 0;
    while i < chunks.len()
        invariant
            i <= chunks@.len(),
            spec_family(models@, model_id@) is Some,
            out@ == stream_text(chunks@.subrange(0, i as int)),
        decreases chunks@.len() - i,
    {
        proof {
            assert(chunks@.subrange(0, i + 1).drop_last() =~= chunks@.subrange(0, i as int));
        }
        match decode_chunk(models, model_id, &chunks[i]) {
            Ok(t) => out.append(t.as_str()),
            Err(_) => {},
        }
        i = i + 1;
    }
    assert(chunks@.subrange(0, chunks@.len() as int) =~= chunks@);
    Ok(out)
}

} // verus!
