//! Failures that a request or the model lifecycle can end in.

use vstd::prelude::*;

verus! {

/// Why the model could not be brought up.
#[derive(Clone, Copy, Debug, PartialEq, Eq, Structural)]
pub enum ModelError {
    /// A resource could not be fetched, or the resources do not fit together.
    LoadFailure,
    /// The requested compute device could not be bound.
    DeviceUnavailable,
}

/// Why a summarization request failed.
#[derive(Clone, Copy, Debug, PartialEq, Eq, Structural)]
pub enum InferError {
    /// The decoding parameters or the batch were rejected before any model work.
    InvalidParams,
    /// The model could not be loaded.
    ModelUnavailable,
    /// The model raised an error while summarizing.
    InferenceFailure,
}

pub open spec fn spec_status(e: InferError) -> u16 {
    match e {
        InferError::InvalidParams => 400,
        InferError::ModelUnavailable => 503,
        InferError::InferenceFailure => 500,
    }
}

pub open spec fn spec_kind(e: InferError) -> Seq<char> {
    match e {
        InferError::InvalidParams => "invalid_params"@,
        InferError::ModelUnavailable => "model_unavailable"@,
        InferError::InferenceFailure => "inference_failure"@,
    }
}

pub open spec fn spec_message(e: InferError) -> Seq<char> {
    match e {
        InferError::InvalidParams => "min_length must be non-negative and not above max_length, num_beams at least 1, and a batch must hold a text"@,
        InferError::ModelUnavailable => "the summarization model could not be loaded"@,
        InferError::InferenceFailure => "the summarization model failed on this request"@,
    }
}

impl InferError {
    /// A failed load reaches the request that needed the model as
    /// `ModelUnavailable`, whatever the cause.
    pub fn from_model_error(e: ModelError) -> (r: InferError)
        ensures
            r == InferError::ModelUnavailable,
    {
        InferError::ModelUnavailable
    }

    /// The HTTP status that answers this failure: a client error for rejected
    /// parameters, unavailable for a missing model, internal for the rest.
    pub fn status_code(&self) -> (r: u16)
        ensures
            r == spec_status(*self),
    {
        match self {
            InferError::InvalidParams => 400,
            InferError::ModelUnavailable => 503,
            InferError::InferenceFailure => 500,
        }
    }

    /// The machine-readable kind reported in an error body.
    pub fn kind(&self) -> (r: String)
        ensures
            r@ == spec_kind(*self),
    {
        match self {
            InferError::InvalidParams => String::from_str("invalid_params"),
            InferError::ModelUnavailable => String::from_str("model_unavailable"),
            InferError::InferenceFailure => String::from_str("inference_failure"),
        }
    }

    /// A human-readable explanation reported in an error body.
    pub fn message(&self) -> (r: String)
        ensures
            r@ == spec_message(*self),
    {
        match self {
            InferError::InvalidParams => String::from_str(
                "min_length must be non-negative and not above max_length, num_beams at least 1, and a batch must hold a text",
            ),
            InferError::ModelUnavailable => String::from_str("the summarization model could not be loaded"),
            InferError::InferenceFailure => String::from_str("the summarization model failed on this request"),
        }
    }
}

} // verus!
