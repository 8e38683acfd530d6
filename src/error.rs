//! The failures that building a call and decoding its answer can end in.
use vstd::prelude::*;

verus! {

/// Why a call could not be built, sent or decoded.
#[derive(Debug)]
pub enum BedrockError {
    /// The model identifier is not one the library knows.
    UnknownModel(String),
    /// A request body could not be encoded.
    Serialization,
    /// A response payload is not valid JSON, or lacks a field it must carry.
    MalformedResponse,
    /// Captioning was asked for without an image.
    NoImage,
    /// Captioning was asked of a model that cannot read images.
    CaptioningUnsupported(String),
    /// A streaming event that carries no content chunk.
    UnrecoverableEvent,
    /// The gateway answered a model lookup without model details.
    MissingModelDetails,
}

impl BedrockError {
    /// A message for the user.
    pub fn message(&self) -> String {
        match self {
            BedrockError::UnknownModel(_) => String::from_str("Unknown model ID"),
            BedrockError::Serialization => String::from_str("The request body could not be encoded"),
            BedrockError::MalformedResponse => String::from_str("Error processing response"),
            BedrockError::NoImage => String::from_str("No images provided. Captioning aborted."),
            BedrockError::CaptioningUnsupported(_) => String::from_str(
                "SORRY! The model you selected is not able to caption images. Please select a model that reads images.",
            ),
            BedrockError::UnrecoverableEvent => String::from_str("received unexpected event type"),
            BedrockError::MissingModelDetails => String::from_str("Unable to get model details"),
        }
    }
}

} // verus!
