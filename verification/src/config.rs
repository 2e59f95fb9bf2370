//! The two numbers that the pipeline needs from an encoder's configuration:
//! the longest window it accepts and the length of the vectors it gives.

use vstd::prelude::*;
use crate::chunking::{chunk, chunk_views, chunks_of, default_overlap};
use crate::error::{EmbedError, LoadFailure};

verus! {

/// What a model's configuration fixes for the lifetime of the model.
#[derive(Debug, Clone, Copy, PartialEq, Eq, Structural)]
pub struct ModelConfig {
    /// The longest token window that the encoder accepts.
    pub max_seq_len: usize,
    /// The length of the encoder's vectors.
    pub hidden_size: usize,
}

/// The error of `serde_json`, which the pipeline reports as
/// [`LoadFailure::MalformedConfig`].
#[verifier::external_type_specification]
#[verifier::external_body]
pub struct ExJsonError(serde_json::Error);

/// What `serde_json` reads as member `key` of the JSON text `contents`:
/// `None` where it does not accept `contents` as one JSON value;
/// `Some(None)` where the value is no object, has no member `key`, or has
/// one that is not an integer of the range of `u64`; else the member.
pub uninterp spec fn json_u64_member(contents: Seq<char>, key: Seq<char>) -> Option<Option<u64>>;

/// Parses `contents` with `serde_json::from_str` into a `serde_json::Value`
/// and reads `value[key].as_u64()`: indexing a value by a string gives null
/// where there is no such member, and `as_u64` gives `None` for all but
/// unsigned integers.
///
/// Trusted: the outcome is a function of the two strings alone, named
/// [`json_u64_member`]; a parse error is handed on as it came.
#[verifier::external_body]
fn read_u64_member(contents: &str, key: &str) -> (r: Result<Option<u64>, serde_json::Error>)
    ensures
        match r {
            Ok(member) => json_u64_member(contents@, key@) == Some(member),
            Err(_) => json_u64_member(contents@, key@).is_none(),
        },
{
    match serde_json::from_str::<serde_json::Value>(contents) {
        Ok(value) => Ok(value[key].as_u64()),
        Err(e) => Err(e),
    }
}

/// The length that a member of the configuration stands for, or the failure
/// `missing` where the member is absent. A value beyond `usize` is cut to
/// its low bits.
pub open spec fn length_of_member(member: Option<u64>, missing: LoadFailure) -> Result<
    usize,
    EmbedError,
> {
    match member {
        Some(value) => Ok(value as usize),
        None => Err(EmbedError::ModelLoad(missing)),
    }
}

/// The length read from a configuration, given what reading the member gave.
pub open spec fn length_of_reading(reading: Option<Option<u64>>, missing: LoadFailure) -> Result<
    usize,
    EmbedError,
> {
    match reading {
        Some(member) => length_of_member(member, missing),
        None => Err(EmbedError::ModelLoad(LoadFailure::MalformedConfig)),
    }
}

/// The configuration that the readings of its two members give. The window
/// length is looked at first.
pub open spec fn config_of_readings(
    max_position_embeddings: Option<Option<u64>>,
    hidden_size: Option<Option<u64>>,
) -> Result<ModelConfig, EmbedError> {
    match length_of_reading(max_position_embeddings, LoadFailure::MissingMaxPositionEmbeddings) {
        Ok(max_seq_len) => match length_of_reading(hidden_size, LoadFailure::MissingHiddenSize) {
            Ok(hidden_size) => Ok(ModelConfig { max_seq_len, hidden_size }),
            Err(e) => Err(e),
        },
        Err(e) => Err(e),
    }
}

/// Turns a member of the configuration into a length.
pub fn member_length(member: Option<u64>, missing: LoadFailure) -> (r: Result<usize, EmbedError>)
    ensures
        r == length_of_member(member, missing),
{
    match member {
        Some(value) => Ok(#[verifier::truncate] (value as usize)),
        None => Err(EmbedError::ModelLoad(missing)),
    }
}

/// The longest window of the model whose configuration is `contents`:
/// its `max_position_embeddings`.
pub fn get_max_input_length(contents: &str) -> (r: Result<usize, EmbedError>)
    ensures
        r == length_of_reading(
            json_u64_member(contents@, "max_position_embeddings"@),
            LoadFailure::MissingMaxPositionEmbeddings,
        ),
{
    match read_u64_member(contents, "max_position_embeddings") {
        Ok(member) => member_length(member, LoadFailure::MissingMaxPositionEmbeddings),
        Err(_) => Err(EmbedError::ModelLoad(LoadFailure::MalformedConfig)),
    }
}

/// The vector length of the model whose configuration is `contents`: its
/// `hidden_size`.
pub fn get_hidden_size(contents: &str) -> (r: Result<usize, EmbedError>)
    ensures
        r == length_of_reading(
            json_u64_member(contents@, "hidden_size"@),
            LoadFailure::MissingHiddenSize,
        ),
{
    match read_u64_member(contents, "hidden_size") {
        Ok(member) => member_length(member, LoadFailure::MissingHiddenSize),
        Err(_) => Err(EmbedError::ModelLoad(LoadFailure::MalformedConfig)),
    }
}

impl ModelConfig {
    /// Reads both numbers from the configuration `contents`.
    pub fn from_json(contents: &str) -> (r: Result<ModelConfig, EmbedError>)
        ensures
            r == config_of_readings(
                json_u64_member(contents@, "max_position_embeddings"@),
                json_u64_member(contents@, "hidden_size"@),
            ),
    {
        let max_seq_len = match get_max_input_length(contents) {
            Ok(len) => len,
            Err(e) => { return Err(e); },
        };
        let hidden_size = match get_hidden_size(contents) {
            Ok(len) => len,
            Err(e) => { return Err(e); },
        };
        Ok(ModelConfig { max_seq_len, hidden_size })
    }

    /// The overlap between consecutive windows: a tenth of the window.
    pub fn overlap(&self) -> (r: usize)
        ensures
            r == default_overlap(self.max_seq_len as int),
    {
        self.max_seq_len / 10
    }

    /// Cuts `tokens` into the windows that this model is given, with the
    /// overlap of [`ModelConfig::overlap`]. A window of length zero is an
    /// invalid configuration, and nothing is cut.
    pub fn chunk_tokens(&self, tokens: &[u32]) -> (r: Result<Vec<Vec<u32>>, EmbedError>)
        ensures
            match r {
                Ok(chunks) => self.max_seq_len > 0 && chunk_views(chunks@) == chunks_of(
                    tokens@,
                    self.max_seq_len as int,
                    default_overlap(self.max_seq_len as int),
                ),
                Err(e) => self.max_seq_len == 0 && e == EmbedError::InvalidConfig,
            },
    {
        chunk(tokens, self.max_seq_len, self.overlap())
    }
}

} // verus!
