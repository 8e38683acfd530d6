//! Extracting the answer text from whole and streamed model responses.
use vstd::prelude::*;
use crate::error::BedrockError;
use crate::json::{Json, lookup, text_of};
use crate::models::{ModelEntry, ModelFamily, model_family, spec_family};

verus! {

/// The text of the first content item of a complete ClaudeV3 response;
/// `None` where the response lacks it.
pub open spec fn first_content_text(resp: Json) -> Option<Seq<char>> {
    match lookup(resp, "content"@) {
        Some(Json::Array(items)) => if items@.len() > 0 {
            text_of(lookup(items@[0], "text"@))
        } else {
            None
        },
        _ => None,
    }
}

/// The text a ClaudeV3 streaming event contributes: the text of a
/// `text_delta`, empty for every other event, `None` for a `text_delta`
/// without text.
pub open spec fn chunk_text(chunk: Json) -> Option<Seq<char>> {
    match lookup(chunk, "delta"@) {
        Some(delta) => if text_of(lookup(delta, "type"@)) == Some("text_delta"@) {
            text_of(lookup(delta, "text"@))
        } else {
            Some(Seq::empty())
        },
        None => Some(Seq::empty()),
    }
}

/// What decoding a text yields: the text, or `MalformedResponse`.
pub open spec fn decoded(r: Result<String, BedrockError>, t: Option<Seq<char>>) -> bool {
    match t {
        Some(t) => r matches Ok(s) && s@ == t,
        None => r matches Err(BedrockError::MalformedResponse),
    }
}

/// Whether `r` is the `UnknownModel` failure for `model_id`.
pub open spec fn unknown_model(r: Result<String, BedrockError>, model_id: Seq<char>) -> bool {
    r matches Err(BedrockError::UnknownModel(m)) && m@ == model_id
}

fn owned_text(j: Option<&Json>) -> (r: Option<String>)
    ensures
        match r {
            Some(s) => text_of(
                match j {
                    Some(v) => Some(*v),
                    None => None,
                },
            ) == Some(s@),
            None => text_of(
                match j {
                    Some(v) => Some(*v),
                    None => None,
                },
            ) is None,
        },
{
    match j {
        Some(v) => match v.as_str() {
            Some(s) => Some(s.to_owned()),
            None => None,
        },
        None => None,
    }
}

/// Decodes a complete (non-streamed) response of `model_id`.
pub fn decode_complete(models: &Vec<ModelEntry>, model_id: &str, resp: &Json) -> (r: Result<String, BedrockError>)
    ensures
        spec_family(models@, model_id@) is None ==> unknown_model(r, model_id@),
        spec_family(models@, model_id@) is Some ==> decoded(r, first_content_text(*resp)),
{
    match model_family(models, model_id) {
        Some(ModelFamily::ClaudeV3) => {
            match resp.get("content") {
                Some(Json::Array(items)) => {
                    if items.len() == 0 {
                        return Err(BedrockError::MalformedResponse);
                    }
                    match owned_text(items[0].get("text")) {
                        Some(s) => Ok(s),
                        None => Err(BedrockError::MalformedResponse),
                    }
                },
                _ => Err(BedrockError::MalformedResponse),
            }
        },
        None => Err(BedrockError::UnknownModel(model_id.to_owned())),
    }
}

/// Decodes one event of a streamed response of `model_id`.
pub fn decode_chunk(models: &Vec<ModelEntry>, model_id: &str, chunk: &Json) -> (r: Result<String, BedrockError>)
    ensures
        spec_family(models@, model_id@) is None ==> unknown_model(r, model_id@),
        spec_family(models@, model_id@) is Some ==> decoded(r, chunk_text(*chunk)),
{
    match model_family(models, model_id) {
        Some(ModelFamily::ClaudeV3) => {
            if let Some(delta) = chunk.get("delta") {
                let is_text = match delta.get("type") {
                    Some(t) => match t.as_str() {
                        Some(s) => s.to_owned() == "text_delta".to_owned(),
                        None => false,
                    },
                    None => false,
                };
                if is_text {
                    return match owned_text(delta.get("text")) {
                        Some(s) => Ok(s),
                        None => Err(BedrockError::MalformedResponse),
                    };
                }
            }
            Ok(String::new())
        },
        None => Err(BedrockError::UnknownModel(model_id.to_owned())),
    }
}

/// Decodes a payload of `model_id`, complete or one streamed event; `None`
/// stands for a payload that is not valid JSON.
pub fn process_response(models: &Vec<ModelEntry>, model_id: &str, payload: Option<&Json>, streaming: bool) -> (r: Result<
    String,
    BedrockError,
>)
    ensures
        spec_family(models@, model_id@) is None ==> unknown_model(r, model_id@),
        spec_family(models@, model_id@) is Some ==> match payload {
            None => r matches Err(BedrockError::MalformedResponse),
            Some(j) => decoded(
                r,
                if streaming {
                    chunk_text(*j)
                } else {
                    first_content_text(*j)
                },
            ),
        },
{
    if model_family(models, model_id).is_none() {
        return Err(BedrockError::UnknownModel(model_id.to_owned()));
    }
    match payload {
        None => Err(BedrockError::MalformedResponse),
        Some(j) => if streaming {
            decode_chunk(models, model_id, j)
        } else {
            decode_complete(models, model_id, j)
        },
    }
}

} // verus!
