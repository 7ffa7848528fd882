//! The per-item data model: a decoded RGB buffer with its dimensions, a typed
//! failure, and the tagged union of the two that the batch driver collects.

use vstd::prelude::*;

verus! {

/// A successfully decoded image: a contiguous buffer of interleaved RGB
/// samples, one byte per channel, row-major, top-to-bottom.
pub struct DecodedImage {
    pub data: Vec<u8>,
    pub width: u32,
    pub height: u32,
}

impl DecodedImage {
    /// The shape invariant every decoded image carries: the buffer holds
    /// exactly `width * height * 3` samples.
    pub open spec fn wf(self) -> bool {
        self.data@.len() == self.width as int * self.height as int * 3
    }
}

/// The stage a decode attempt failed in.
#[derive(Clone, Copy, Debug, PartialEq, Eq, Structural)]
pub enum FailureKind {
    /// The file could not be opened or read.
    IoError,
    /// The content could not be decoded: corrupt bytes, an unrecognized or
    /// unsupported format, or a codec-internal rejection.
    SourceError,
}

/// One item's failure: its stage and an opaque diagnostic message. Failures
/// are recorded and surfaced, never retried and never escalated.
pub struct DecodeFailure {
    pub kind: FailureKind,
    pub message: String,
}

/// The outcome of decoding exactly one input path.
pub enum DecodeOutcome {
    Image(DecodedImage),
    Failure(DecodeFailure),
}

impl DecodeOutcome {
    /// A successful outcome always carries a well-formed image; a failure
    /// always carries a non-empty diagnostic.
    pub open spec fn wf(self) -> bool {
        &&& (self matches DecodeOutcome::Image(img) ==> img.wf())
        &&& (self matches DecodeOutcome::Failure(f) ==> f.message@.len() > 0)
    }
}

} // verus!
