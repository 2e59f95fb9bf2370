//! The failures that the embedding pipeline reports to its caller.

use vstd::prelude::*;

verus! {

/// Why a model could not be made ready.
#[derive(Debug, Clone, Copy, PartialEq, Eq, Structural)]
pub enum LoadFailure {
    /// A file of the model could not be fetched or read.
    Unreachable,
    /// The configuration is not well-formed JSON.
    MalformedConfig,
    /// The configuration has no unsigned integer `max_position_embeddings`.
    MissingMaxPositionEmbeddings,
    /// The configuration has no unsigned integer `hidden_size`.
    MissingHiddenSize,
    /// The tokenizer's definition could not be parsed.
    MalformedTokenizer,
    /// The weights could not be loaded into the encoder.
    MalformedWeights,
}

/// An error of the embedding pipeline. None is retried and none is swallowed:
/// a failure in any window fails the whole call.
#[derive(Debug, Clone, Copy, PartialEq, Eq, Structural)]
pub enum EmbedError {
    /// Configuration, tokenizer or weights are unreachable or malformed.
    ModelLoad(LoadFailure),
    /// The tokenizer rejected the input.
    Tokenize,
    /// The windowing parameters are invalid: the overlap is not smaller than
    /// the window, which includes a window of length zero.
    InvalidConfig,
    /// A window's pooled vector has zero norm and cannot be normalized.
    DegenerateVector,
    /// The encoder failed on a window.
    Encode,
}

} // verus!
