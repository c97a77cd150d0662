//! Entry points for decoding an incoming wire stream, with or without a
//! base64 envelope.

use vstd::prelude::*;

use crate::batch::{decode, decode_post, Batch};
use crate::errors::DecodeError;
use crate::wire::{b64_bytes, b64_decode};

verus! {

/// Decodes incoming wire streams into typed batches.
#[derive(Clone, Copy)]
pub struct ArrowStreamHandler;

impl ArrowStreamHandler {
    pub fn new() -> ArrowStreamHandler {
        ArrowStreamHandler
    }

    /// Decodes a base64-encoded wire stream: the envelope must be a valid
    /// standard-alphabet encoding, and the encoded bytes must carry a first
    /// batch block.
    pub fn process_arrow_data(&self, base64_data: &str) -> (r: Result<Batch, DecodeError>)
        ensures
            b64_bytes(base64_data@) is None ==> r == Err::<Batch, DecodeError>(
                DecodeError::Malformed,
            ),
            b64_bytes(base64_data@) matches Some(d) ==> decode_post(d, r),
    {
        let arrow_data = match b64_decode(base64_data) {
            Ok(v) => v,
            Err(e) => {
                return Err(e);
            },
        };
        decode(arrow_data.as_slice())
    }

    /// Decodes a raw wire stream.
    pub fn process_arrow_bytes(&self, arrow_bytes: &[u8]) -> (r: Result<Batch, DecodeError>)
        ensures
            decode_post(arrow_bytes@, r),
    {
        decode(arrow_bytes)
    }
}

} // verus!
