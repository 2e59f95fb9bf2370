//! A loaded model: a tokenizer, an encoder and their configuration, and the
//! part of the pipeline that leads from a text to one tensor for each of its
//! windows: the window's hidden state, summed over its tokens. The mean is
//! that sum divided by the window's length.

use vstd::prelude::*;
use crate::chunking::{chunk_views, chunks_of, default_overlap};
use crate::config::ModelConfig;
use crate::error::EmbedError;

verus! {

/// The tokenizer of the `tokenizers` crate, carried through as it is.
#[verifier::external_type_specification]
#[verifier::external_body]
pub struct ExTokenizer(tokenizers::Tokenizer);

/// The BERT encoder of `candle_transformers`, carried through as it is.
#[verifier::external_type_specification]
#[verifier::external_body]
pub struct ExBertModel(candle_transformers::models::bert::BertModel);

/// The tensor of `candle_core`. Of what it holds only the shape is spoken
/// of, under the name [`tensor_dims`].
#[verifier::external_type_specification]
#[verifier::external_body]
pub struct ExTensor(candle_core::Tensor);

/// The error of `candle_core`, which the pipeline reports as
/// [`EmbedError::Encode`].
#[verifier::external_type_specification]
#[verifier::external_body]
pub struct ExEncoderError(candle_core::Error);

/// `Tokenizer::with_padding` with `None`: from then on the tokenizer pads
/// nothing. Trusted; nothing is stated of the tokenizer afterwards.
#[verifier::external_body]
fn clear_padding(tokenizer: &mut tokenizers::Tokenizer) {
    tokenizer.with_padding(None);
}

/// `Tokenizer::with_truncation` with `None`: from then on the tokenizer
/// truncates nothing. The call fails only for parameters other than `None`.
/// Trusted; nothing is stated of the tokenizer afterwards.
#[verifier::external_body]
fn clear_truncation(tokenizer: &mut tokenizers::Tokenizer) {
    let _ = tokenizer.with_truncation(None);
}

/// `Tokenizer::encode` of one text, special tokens included, and the ids of
/// the encoding (`Encoding::get_ids`); `None` where the tokenizer fails.
/// Trusted; what comes back depends on the tokenizer, and nothing is stated
/// of it.
#[verifier::external_body]
fn encode_ids(tokenizer: &tokenizers::Tokenizer, text: &str) -> (ids: Option<Vec<u32>>) {
    match tokenizer.encode(text, true) {
        Ok(encoding) => Some(encoding.get_ids().to_vec()),
        Err(_) => None,
    }
}

/// `BertModel::forward` on one window: the ids and the token types each
/// become a tensor of shape `(1, n)` on the model's device
/// (`Tensor::new`, `Tensor::unsqueeze`), and the encoder's answer of shape
/// `(1, n, hidden_size)` comes back as it is. Ids outside the vocabulary and
/// windows longer than the position table are errors of the encoder.
/// Trusted; an empty window is left out, and nothing is stated of the
/// result.
#[verifier::external_body]
fn forward_window(
    model: &candle_transformers::models::bert::BertModel,
    token_ids: &Vec<u32>,
    token_type_ids: &Vec<u32>,
) -> (hidden: Result<candle_core::Tensor, candle_core::Error>)
    requires
        token_ids@.len() > 0,
        token_type_ids@.len() == token_ids@.len(),
{
    let ids = candle_core::Tensor::new(token_ids.as_slice(), &model.device)?.unsqueeze(0)?;
    let type_ids = candle_core::Tensor::new(token_type_ids.as_slice(), &model.device)?.unsqueeze(
        0,
    )?;
    model.forward(&ids, &type_ids)
}

/// `Tensor::sum` over dimension 1, the token axis of a hidden state: the
/// rows of all tokens are added up, and the dimension is dropped. Trusted;
/// nothing is stated of the result, whose shape the caller tests.
#[verifier::external_body]
fn sum_over_tokens(hidden: &candle_core::Tensor) -> (sum: Result<
    candle_core::Tensor,
    candle_core::Error,
>)
    requires
        tensor_dims(*hidden).len() == 3,
{
    hidden.sum(1)
}

/// The shape of a tensor: the length of each of its dimensions, outermost
/// first.
pub uninterp spec fn tensor_dims(tensor: candle_core::Tensor) -> Seq<usize>;

/// `Tensor::dims`, copied into a vector. Trusted: a tensor has one shape,
/// named [`tensor_dims`], and this is it.
#[verifier::external_body]
fn dims_of(tensor: &candle_core::Tensor) -> (dims: Vec<usize>)
    ensures
        dims@ == tensor_dims(*tensor),
{
    tensor.dims().to_vec()
}

/// Tells whether `dims` is the shape of the hidden state of one window of
/// `n_tokens` tokens: one sentence, a row for each token, `hidden_size`
/// values in each row.
pub open spec fn is_hidden_state_dims(dims: Seq<usize>, n_tokens: nat, hidden_size: usize) -> bool {
    &&& dims.len() == 3
    &&& dims[0] == 1
    &&& dims[1] == n_tokens
    &&& dims[2] == hidden_size
}

/// Tells whether `dims` is the shape of the hidden state of one window of
/// `n_tokens` tokens.
pub fn is_hidden_state_shape(dims: &Vec<usize>, n_tokens: usize, hidden_size: usize) -> (yes: bool)
    ensures
        yes == is_hidden_state_dims(dims@, n_tokens as nat, hidden_size),
{
    dims.len() == 3 && dims[0] == 1 && dims[1] == n_tokens && dims[2] == hidden_size
}

/// Tells whether `dims` is the shape of a hidden state summed over its
/// tokens: one sentence of `hidden_size` values.
pub open spec fn is_token_sum_dims(dims: Seq<usize>, hidden_size: usize) -> bool {
    &&& dims.len() == 2
    &&& dims[0] == 1
    &&& dims[1] == hidden_size
}

/// Tells whether `dims` is the shape of a hidden state summed over its
/// tokens.
pub fn is_token_sum_shape(dims: &Vec<usize>, hidden_size: usize) -> (yes: bool)
    ensures
        yes == is_token_sum_dims(dims@, hidden_size),
{
    dims.len() == 2 && dims[0] == 1 && dims[1] == hidden_size
}

/// What the pipeline makes of the tokenizer's answer: the ids as they came,
/// or a tokenize error where the tokenizer gave none.
pub fn ids_or_tokenize_error(answer: Option<Vec<u32>>) -> (r: Result<Vec<u32>, EmbedError>)
    ensures
        match answer {
            Some(ids) => r == Ok::<Vec<u32>, EmbedError>(ids),
            None => r == Err::<Vec<u32>, EmbedError>(EmbedError::Tokenize),
        },
{
    match answer {
        Some(ids) => Ok(ids),
        None => Err(EmbedError::Tokenize),
    }
}

/// The token types that go with a window of `len` tokens: all zero.
pub fn zero_token_types(len: usize) -> (types: Vec<u32>)
    ensures
        types@ == Seq::new(len as nat, |i: int| 0u32),
{
    let mut types: Vec<u32> = Vec::new();
    let mut i: usize = 0;
    while i < len
        invariant
            i <= len,
            types@ == Seq::new(i as nat, |j: int| 0u32),
        decreases len - i,
    {
        types.push(0);
        i = i + 1;
    }
    types
}

/// A text as the encoder has seen it: its tokens, their windows in order,
/// and for each window the sum of its hidden state over its tokens.
pub struct EncodedText {
    /// The token ids of the whole text.
    pub tokens: Vec<u32>,
    /// The windows of `tokens`.
    pub chunks: Vec<Vec<u32>>,
    /// For each window the sum of the rows of its hidden state, of shape
    /// `(1, hidden_size)`.
    pub token_sums: Vec<candle_core::Tensor>,
}

/// The windows are not empty, and each has a sum of its own, of shape
/// `(1, hidden_size)`: sum `i` belongs to window `i`.
pub open spec fn sums_fit_chunks(
    chunks: Seq<Vec<u32>>,
    token_sums: Seq<candle_core::Tensor>,
    hidden_size: usize,
) -> bool {
    &&& token_sums.len() == chunks.len()
    &&& forall|i: int| 0 <= i < chunks.len() ==> (#[trigger] chunks[i])@.len() > 0
    &&& forall|i: int|
        0 <= i < token_sums.len() ==> is_token_sum_dims(
            tensor_dims(#[trigger] token_sums[i]),
            hidden_size,
        )
}

impl EncodedText {
    /// The windows are those of the tokens under `config`, and each has
    /// its sum, of the shape that `config` asks for.
    pub open spec fn matches(&self, config: ModelConfig) -> bool {
        &&& chunk_views(self.chunks@) == chunks_of(
            self.tokens@,
            config.max_seq_len as int,
            default_overlap(config.max_seq_len as int),
        )
        &&& sums_fit_chunks(self.chunks@, self.token_sums@, config.hidden_size)
    }
}

/// A tokenizer and an encoder, loaded once and used for many texts.
pub struct Model {
    model: candle_transformers::models::bert::BertModel,
    tokenizer: tokenizers::Tokenizer,
    config: ModelConfig,
}

impl Model {
    /// The configuration that the model was made with.
    pub closed spec fn config(&self) -> ModelConfig {
        self.config
    }

    /// The encoder that the model was made with.
    pub closed spec fn encoder(&self) -> candle_transformers::models::bert::BertModel {
        self.model
    }

    /// Puts a loaded encoder and tokenizer together. The tokenizer is set to
    /// pad and truncate nothing, once and for all texts.
    pub fn new(
        model: candle_transformers::models::bert::BertModel,
        tokenizer: tokenizers::Tokenizer,
        config: ModelConfig,
    ) -> (m: Model)
        ensures
            m.config() == config,
            m.encoder() == model,
    {
        let mut tokenizer = tokenizer;
        clear_padding(&mut tokenizer);
        clear_truncation(&mut tokenizer);
        Model { model, tokenizer, config }
    }

    /// The longest window, in tokens, that the encoder accepts.
    pub fn get_max_input_len(&mut self) -> (len: usize)
        ensures
            len == old(self).config().max_seq_len,
            *final(self) == *old(self),
    {
        self.config.max_seq_len
    }

    /// The length of the vectors that the model gives.
    pub fn get_hidde_size(&mut self) -> (len: usize)
        ensures
            len == old(self).config().hidden_size,
            *final(self) == *old(self),
    {
        self.config.hidden_size
    }

    /// The token ids of `text`, special tokens included, neither padded nor
    /// truncated. The tokenizer decides which ids, and whether it fails:
    /// the text goes to it as it is, and [`ids_or_tokenize_error`] says what
    /// is made of each of its answers.
    pub fn tokenize(&self, text: &str) -> (r: Result<Vec<u32>, EmbedError>)
        ensures
            r matches Err(e) ==> e == EmbedError::Tokenize,
    {
        ids_or_tokenize_error(encode_ids(&self.tokenizer, text))
    }

    /// The encoder's hidden state for one window, with token types all
    /// zero. An empty window is refused without asking the encoder; for any
    /// other the encoder decides, and an answer of another shape than
    /// `(1, chunk.len(), hidden_size)` counts as its failure.
    pub fn encode_chunk(&self, chunk: &Vec<u32>) -> (r: Result<candle_core::Tensor, EmbedError>)
        ensures
            match r {
                Ok(hidden) => chunk@.len() > 0 && is_hidden_state_dims(
                    tensor_dims(hidden),
                    chunk@.len(),
                    self.config().hidden_size,
                ),
                Err(e) => e == EmbedError::Encode,
            },
    {
        if chunk.len() == 0 {
            return Err(EmbedError::Encode);
        }
        let token_type_ids = zero_token_types(chunk.len());
        match forward_window(&self.model, chunk, &token_type_ids) {
            Ok(hidden) => Self::checked_hidden_state(hidden, chunk.len(), self.config.hidden_size),
            Err(_) => Err(EmbedError::Encode),
        }
    }

    /// Lets a hidden state pass if it has the shape of a window of
    /// `n_tokens` tokens, and reports an encoder failure if not.
    pub fn checked_hidden_state(
        hidden: candle_core::Tensor,
        n_tokens: usize,
        hidden_size: usize,
    ) -> (r: Result<candle_core::Tensor, EmbedError>)
        ensures
            match r {
                Ok(same) => same == hidden && is_hidden_state_dims(
                    tensor_dims(hidden),
                    n_tokens as nat,
                    hidden_size,
                ),
                Err(e) => e == EmbedError::Encode && !is_hidden_state_dims(
                    tensor_dims(hidden),
                    n_tokens as nat,
                    hidden_size,
                ),
            },
    {
        let dims = dims_of(&hidden);
        if is_hidden_state_shape(&dims, n_tokens, hidden_size) {
            Ok(hidden)
        } else {
            Err(EmbedError::Encode)
        }
    }

    /// Lets a tensor pass if it has the shape of a hidden state summed over
    /// its tokens, and reports an encoder failure if not.
    pub fn checked_token_sum(sum: candle_core::Tensor, hidden_size: usize) -> (r: Result<
        candle_core::Tensor,
        EmbedError,
    >)
        ensures
            match r {
                Ok(same) => same == sum && is_token_sum_dims(tensor_dims(sum), hidden_size),
                Err(e) => e == EmbedError::Encode && !is_token_sum_dims(
                    tensor_dims(sum),
                    hidden_size,
                ),
            },
    {
        let dims = dims_of(&sum);
        if is_token_sum_shape(&dims, hidden_size) {
            Ok(sum)
        } else {
            Err(EmbedError::Encode)
        }
    }

    /// The hidden state of one window, summed over the window's tokens:
    /// dividing it by `chunk.len()` gives the mean over all tokens of the
    /// window, special tokens included. Fails where
    /// [`Model::encode_chunk`] fails or the sum cannot be taken.
    pub fn pool_chunk(&self, chunk: &Vec<u32>) -> (r: Result<candle_core::Tensor, EmbedError>)
        ensures
            match r {
                Ok(sum) => chunk@.len() > 0 && is_token_sum_dims(
                    tensor_dims(sum),
                    self.config().hidden_size,
                ),
                Err(e) => e == EmbedError::Encode,
            },
    {
        let hidden = match self.encode_chunk(chunk) {
            Ok(hidden) => hidden,
            Err(e) => { return Err(e); },
        };
        match sum_over_tokens(&hidden) {
            Ok(sum) => Self::checked_token_sum(sum, self.config.hidden_size),
            Err(_) => Err(EmbedError::Encode),
        }
    }

    /// Cuts `tokens` into windows and takes the sum of each, first to last.
    /// One window that fails makes the whole fail: there is no partial
    /// result. With a window length of zero nothing is cut or encoded; with
    /// a positive one and no tokens there is nothing to fail.
    pub fn encode_tokens(&self, tokens: Vec<u32>) -> (r: Result<EncodedText, EmbedError>)
        ensures
            self.config().max_seq_len > 0 && tokens@.len() == 0 ==> r is Ok,
            match r {
                Ok(encoded) => self.config().max_seq_len > 0 && encoded.tokens@ == tokens@
                    && encoded.matches(self.config()),
                Err(e) => if self.config().max_seq_len == 0 {
                    e == EmbedError::InvalidConfig
                } else {
                    e == EmbedError::Encode
                },
            },
    {
        let chunks = match self.config.chunk_tokens(tokens.as_slice()) {
            Ok(chunks) => chunks,
            Err(e) => { return Err(e); },
        };
        assert(chunks@.len() == chunk_views(chunks@).len());
        let mut token_sums: Vec<candle_core::Tensor> = Vec::new();
        let mut i: usize = 0;
        while i < chunks.len()
            invariant
                i <= chunks@.len(),
                token_sums@.len() == i,
                self.config().max_seq_len > 0,
                tokens@.len() == 0 ==> chunks@.len() == 0,
                forall|j: int| 0 <= j < i ==> (#[trigger] chunks@[j])@.len() > 0,
                forall|j: int|
                    0 <= j < i ==> is_token_sum_dims(
                        tensor_dims(#[trigger] token_sums@[j]),
                        self.config().hidden_size,
                    ),
            decreases chunks@.len() - i,
        {
            let sum = match self.pool_chunk(&chunks[i]) {
                Ok(sum) => sum,
                Err(e) => { return Err(e); },
            };
            token_sums.push(sum);
            i = i + 1;
        }
        Ok(EncodedText { tokens, chunks, token_sums })
    }

    /// Tokenizes `text`, cuts the tokens into windows and takes the sum of
    /// each. A window length of zero is reported before any other work is
    /// done.
    pub fn encode_text(&self, text: &str) -> (r: Result<EncodedText, EmbedError>)
        ensures
            match r {
                Ok(encoded) => self.config().max_seq_len > 0 && encoded.matches(self.config()),
                Err(e) => if self.config().max_seq_len == 0 {
                    e == EmbedError::InvalidConfig
                } else {
                    e == EmbedError::Tokenize || e == EmbedError::Encode
                },
            },
    {
        if self.config.max_seq_len == 0 {
            return Err(EmbedError::InvalidConfig);
        }
        let tokens = match self.tokenize(text) {
            Ok(tokens) => tokens,
            Err(e) => { return Err(e); },
        };
        self.encode_tokens(tokens)
    }
}

} // verus!
