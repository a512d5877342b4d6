//! Decoding parameters carried by every summarization request.

use vstd::prelude::*;

verus! {

/// Per-request decoding parameters, forwarded verbatim to the model.
#[derive(Clone, Copy, Debug, PartialEq, Eq, Hash, Structural)]
pub struct DecodingParams {
    pub min_length: i64,
    pub max_length: i64,
    pub num_beams: i64,
}

impl DecodingParams {
    /// The parameters are usable: a non-negative minimum length, a maximum
    /// length not below it, and at least one beam.
    pub open spec fn valid(&self) -> bool {
        0 <= self.min_length && self.min_length <= self.max_length && 1 <= self.num_beams
    }

    pub fn new(min_length: i64, max_length: i64, num_beams: i64) -> (r: Self)
        ensures
            r.min_length == min_length,
            r.max_length == max_length,
            r.num_beams == num_beams,
    {
        DecodingParams { min_length, max_length, num_beams }
    }

    pub fn is_valid(&self) -> (r: bool)
        ensures
            r == self.valid(),
    {
        0 <= self.min_length && self.min_length <= self.max_length && 1 <= self.num_beams
    }
}

} // verus!
