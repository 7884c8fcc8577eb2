use vstd::prelude::*;

verus! {

/// The cl100k_base token ids of a text, without special tokens.
pub uninterp spec fn cl100k_encoding(text: Seq<char>) -> Seq<u32>;

/// The text that a cl100k_base token sequence stands for, where its bytes are
/// valid UTF-8 and every id is known.
pub uninterp spec fn cl100k_decoding(tokens: Seq<u32>) -> Option<Seq<char>>;

/// The view of an optional string.
pub open spec fn opt_string_view(o: Option<String>) -> Option<Seq<char>> {
    match o {
        Some(t) => Some(t@),
        None => None,
    }
}

/// Relies on tiktoken_rs::CoreBPE::encode_ordinary over the cl100k_base
/// vocabulary: the token ids depend on the text alone.
#[verifier::external_body]
pub(crate) fn encode(text: &str) -> (r: Vec<u32>)
    ensures
        r@ == cl100k_encoding(text@),
{
    tiktoken_rs::cl100k_base_singleton().encode_ordinary(text)
}

/// Relies on tiktoken_rs::CoreBPE::decode over the cl100k_base vocabulary:
/// the text depends on the token ids alone; an error becomes `None`.
#[verifier::external_body]
pub(crate) fn decode(tokens: &Vec<u32>) -> (r: Option<String>)
    ensures
        opt_string_view(r) == cl100k_decoding(tokens@),
{
    tiktoken_rs::cl100k_base_singleton().decode(tokens.as_slice()).ok()
}

/// The text of a chunk, or the empty text where its tokens do not decode.
pub open spec fn chunk_text(tokens: Seq<u32>) -> Seq<char> {
    match cl100k_decoding(tokens) {
        Some(t) => t,
        None => Seq::empty(),
    }
}

/// Decodes `tokens`, falling back to the empty text where they do not form
/// valid UTF-8.
pub fn decode_or_empty(tokens: &Vec<u32>) -> (r: String)
    ensures
        r@ == chunk_text(tokens@),
{
    match decode(tokens) {
        Some(t) => t,
        None => String::new(),
    }
}

} // verus!
