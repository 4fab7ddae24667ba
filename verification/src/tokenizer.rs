//! Token counting: a pure call-through to the external tokenizer.  The
//! count under the fixed encoding is a function of the text alone, so it is
//! carried as a named, uninterpreted value.

use vstd::prelude::*;

verus! {

/// The number of tokens that the fixed o200k encoding assigns to a text.
pub uninterp spec fn token_count_of(s: Seq<char>) -> usize;

/// Relies on `tiktoken_rs::o200k_base` and
/// `CoreBPE::encode_with_special_tokens`: the token count of a text under
/// the fixed o200k encoding depends on the text alone.
#[verifier::external_body]
pub fn count_tokens_in_content(content: &str) -> (r: Result<usize, String>)
    ensures
        r matches Ok(n) ==> n == token_count_of(content@),
{
    match tiktoken_rs::o200k_base() {
        Ok(bpe) => Ok(bpe.encode_with_special_tokens(content).len()),
        Err(e) => Err(e.to_string()),
    }
}

} // verus!
