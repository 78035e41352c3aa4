//! Tokenizer selection and token counting.
//!
//! A `TokenizerKind` picks one of the closed set of encoding schemes; the
//! token sequence that a scheme assigns to a text is a fixed function of the
//! text, named here by one uninterpreted spec function per scheme.

use vstd::prelude::*;

verus! {

/// Which tokenizer scheme a run uses. Chosen once at startup.
#[derive(Clone, Copy, Debug, PartialEq, Eq, Structural)]
pub enum TokenizerKind {
    Cl100kBase,
    P50kBase,
    P50kEdit,
    R50kBase,
    /// Alias: tokenizes exactly as `R50kBase` does.
    Gpt2,
}

/// Failure of the tokenizing step: the tokenizer data could not be loaded.
/// The bundled schemes load embedded data, so the contracts rule this out;
/// the type remains as the fatal-error channel of the counting pipeline.
#[derive(Clone, Copy, Debug, PartialEq, Eq, Structural)]
pub enum TokenError {
    Construction,
}

pub uninterp spec fn cl100k_tokens(text: Seq<char>) -> Seq<u32>;

pub uninterp spec fn p50k_tokens(text: Seq<char>) -> Seq<u32>;

pub uninterp spec fn p50k_edit_tokens(text: Seq<char>) -> Seq<u32>;

pub uninterp spec fn r50k_tokens(text: Seq<char>) -> Seq<u32>;

/// The token sequence a scheme assigns to a text.
pub open spec fn kind_tokens(kind: TokenizerKind, text: Seq<char>) -> Seq<u32> {
    match kind {
        TokenizerKind::Cl100kBase => cl100k_tokens(text),
        TokenizerKind::P50kBase => p50k_tokens(text),
        TokenizerKind::P50kEdit => p50k_edit_tokens(text),
        TokenizerKind::R50kBase => r50k_tokens(text),
        TokenizerKind::Gpt2 => r50k_tokens(text),
    }
}

#[verifier::external_type_specification]
#[verifier::external_body]
pub struct ExAnyhowError(anyhow::Error);

/// Relies on `tiktoken_rs::cl100k_base` and
/// `tiktoken_rs::CoreBPE::encode_with_special_tokens`: the constructor's
/// tokenizer data is embedded and always loads, so the call returns `Ok`;
/// the token sequence depends on the text alone, and empty text encodes to
/// no tokens.
#[verifier::external_body]
fn cl100k_encode(text: &str) -> (r: Result<Vec<u32>, anyhow::Error>)
    ensures
        r is Ok,
        r matches Ok(v) ==> v@ == cl100k_tokens(text@),
        r matches Ok(v) ==> (text@.len() == 0 ==> v@.len() == 0),
{
    match tiktoken_rs::cl100k_base() {
        Ok(bpe) => Ok(bpe.encode_with_special_tokens(text)),
        Err(e) => Err(e),
    }
}

/// Relies on `tiktoken_rs::p50k_base` and
/// `tiktoken_rs::CoreBPE::encode_with_special_tokens`: the constructor's
/// tokenizer data is embedded and always loads, so the call returns `Ok`;
/// the token sequence depends on the text alone, and empty text encodes to
/// no tokens.
#[verifier::external_body]
fn p50k_encode(text: &str) -> (r: Result<Vec<u32>, anyhow::Error>)
    ensures
        r is Ok,
        r matches Ok(v) ==> v@ == p50k_tokens(text@),
        r matches Ok(v) ==> (text@.len() == 0 ==> v@.len() == 0),
{
    match tiktoken_rs::p50k_base() {
        Ok(bpe) => Ok(bpe.encode_with_special_tokens(text)),
        Err(e) => Err(e),
    }
}

/// Relies on `tiktoken_rs::p50k_edit` and
/// `tiktoken_rs::CoreBPE::encode_with_special_tokens`: the constructor's
/// tokenizer data is embedded and always loads, so the call returns `Ok`;
/// the token sequence depends on the text alone, and empty text encodes to
/// no tokens.
#[verifier::external_body]
fn p50k_edit_encode(text: &str) -> (r: Result<Vec<u32>, anyhow::Error>)
    ensures
        r is Ok,
        r matches Ok(v) ==> v@ == p50k_edit_tokens(text@),
        r matches Ok(v) ==> (text@.len() == 0 ==> v@.len() == 0),
{
    match tiktoken_rs::p50k_edit() {
        Ok(bpe) => Ok(bpe.encode_with_special_tokens(text)),
        Err(e) => Err(e),
    }
}

/// Relies on `tiktoken_rs::r50k_base` and
/// `tiktoken_rs::CoreBPE::encode_with_special_tokens`: the constructor's
/// tokenizer data is embedded and always loads, so the call returns `Ok`;
/// the token sequence depends on the text alone, and empty text encodes to
/// no tokens.
#[verifier::external_body]
fn r50k_encode(text: &str) -> (r: Result<Vec<u32>, anyhow::Error>)
    ensures
        r is Ok,
        r matches Ok(v) ==> v@ == r50k_tokens(text@),
        r matches Ok(v) ==> (text@.len() == 0 ==> v@.len() == 0),
{
    match tiktoken_rs::r50k_base() {
        Ok(bpe) => Ok(bpe.encode_with_special_tokens(text)),
        Err(e) => Err(e),
    }
}

/// The name each scheme goes by on the command line, mapped to its kind;
/// any other name maps to nothing.
pub open spec fn kind_of_name(name: Seq<char>) -> Option<TokenizerKind> {
    if name == "cl100k-base"@ {
        Some(TokenizerKind::Cl100kBase)
    } else if name == "p50k-base"@ {
        Some(TokenizerKind::P50kBase)
    } else if name == "p50k-edit"@ {
        Some(TokenizerKind::P50kEdit)
    } else if name == "r50k-base"@ {
        Some(TokenizerKind::R50kBase)
    } else if name == "gpt2"@ {
        Some(TokenizerKind::Gpt2)
    } else {
        None
    }
}

impl TokenizerKind {
    /// Selects the scheme that a command-line name denotes.
    pub fn from_name(name: &str) -> (r: Option<TokenizerKind>)
        ensures
            r == kind_of_name(name@),
    {
        let n = name.to_owned();
        if n == "cl100k-base".to_owned() {
            Some(TokenizerKind::Cl100kBase)
        } else if n == "p50k-base".to_owned() {
            Some(TokenizerKind::P50kBase)
        } else if n == "p50k-edit".to_owned() {
            Some(TokenizerKind::P50kEdit)
        } else if n == "r50k-base".to_owned() {
            Some(TokenizerKind::R50kBase)
        } else if n == "gpt2".to_owned() {
            Some(TokenizerKind::Gpt2)
        } else {
            None
        }
    }
}

/// Tokenizes a text with the selected scheme, special tokens included. The
/// schemes' tokenizer data is embedded and always loads, so the result is
/// always `Ok`; the error channel remains for the caller's fatal-error path.
pub fn tokenize(kind: TokenizerKind, text: &str) -> (r: Result<Vec<u32>, TokenError>)
    ensures
        r is Ok,
        r matches Ok(v) ==> v@ == kind_tokens(kind, text@),
        r matches Ok(v) ==> (text@.len() == 0 ==> v@.len() == 0),
{
    let raw = match kind {
        TokenizerKind::Cl100kBase => cl100k_encode(text),
        TokenizerKind::P50kBase => p50k_encode(text),
        TokenizerKind::P50kEdit => p50k_edit_encode(text),
        TokenizerKind::R50kBase => r50k_encode(text),
        TokenizerKind::Gpt2 => r50k_encode(text),
    };
    match raw {
        Ok(v) => Ok(v),
        Err(_) => Err(TokenError::Construction),
    }
}

/// A file's token count: the length of the token sequence of its text;
/// always `Ok`, as `tokenize` is.
pub fn count_tokens(kind: TokenizerKind, text: &str) -> (r: Result<usize, TokenError>)
    ensures
        r is Ok,
        r matches Ok(c) ==> c == kind_tokens(kind, text@).len(),
        r matches Ok(c) ==> (text@.len() == 0 ==> c == 0),
{
    match tokenize(kind, text) {
        Ok(v) => Ok(v.len()),
        Err(e) => Err(e),
    }
}

/// Tokenizing is deterministic: under one scheme, equal texts always get the
/// same token sequence, and so the same count.
pub proof fn lemma_tokenize_deterministic(kind: TokenizerKind, a: Seq<char>, b: Seq<char>)
    requires
        a == b,
    ensures
        kind_tokens(kind, a) == kind_tokens(kind, b),
        kind_tokens(kind, a).len() == kind_tokens(kind, b).len(),
{
}

/// `Gpt2` is an alias: it tokenizes every text exactly as `R50kBase` does.
pub proof fn lemma_gpt2_alias(text: Seq<char>)
    ensures
        kind_tokens(TokenizerKind::Gpt2, text) == kind_tokens(TokenizerKind::R50kBase, text),
{
}

} // verus!
