use vstd::prelude::*;
use crate::errors::KeyringError;

verus! {

/// What str::trim strips a text to: the text without its leading and
/// trailing whitespace.
pub uninterp spec fn trimmed_of(s: Seq<char>) -> Seq<char>;

/// Relies on str::trim: leading and trailing whitespace removed, a pure
/// function of the text.
#[verifier::external_body]
fn str_trim(s: &str) -> (r: &str)
    ensures
        r@ == trimmed_of(s@),
{
    s.trim()
}

/// Extract the stored API key from the raw contents of the key file: the
/// contents are trimmed, and a key that is empty after trimming counts as
/// not found.
pub fn api_key_from_contents(contents: &str) -> (r: Result<String, KeyringError>)
    ensures
        r is Ok <==> trimmed_of(contents@).len() > 0,
        r matches Ok(k) ==> k@ == trimmed_of(contents@),
        r is Err ==> r matches Err(KeyringError::KeyNotFound),
{
    let trimmed = str_trim(contents);
    if trimmed.unicode_len() == 0 {
        Err(KeyringError::KeyNotFound)
    } else {
        Ok(String::from_str(trimmed))
    }
}

} // verus!
