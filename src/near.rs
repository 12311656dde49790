//! The two computations that the registry takes from near-sdk: checking an
//! account identifier, and reading a public key into its canonical text.
use vstd::prelude::*;

verus! {

/// One of the characters that separate the parts of an account identifier.
pub open spec fn is_id_separator(c: char) -> bool {
    c == '-' || c == '_' || c == '.'
}

/// A character allowed in an account identifier.
pub open spec fn is_id_char(c: char) -> bool {
    ('a' <= c && c <= 'z') || ('0' <= c && c <= '9') || is_id_separator(c)
}

/// A valid account identifier: 2 to 64 characters, each a lower-case
/// letter, a digit or a separator, with no separator first, last, or next
/// to another separator.
pub open spec fn is_account_id(s: Seq<char>) -> bool {
    &&& 2 <= s.len() <= 64
    &&& forall|i: int| 0 <= i < s.len() ==> is_id_char(#[trigger] s[i])
    &&& !is_id_separator(s[0])
    &&& !is_id_separator(s[s.len() - 1])
    &&& forall|i: int|
        0 <= i < s.len() - 1 ==> !(is_id_separator(#[trigger] s[i]) && is_id_separator(s[i + 1]))
}

/// The canonical `curve:base58` text of the public key that near-sdk reads
/// from the text, or `None` where the text is no public key.
pub uninterp spec fn key_text(s: Seq<char>) -> Option<Seq<char>>;

/// The text held by an optional string.
pub open spec fn opt_view(o: Option<String>) -> Option<Seq<char>> {
    match o {
        Some(s) => Some(s@),
        None => None,
    }
}

/// Relies on `near_sdk::AccountId::validate`, which accepts exactly the
/// texts that `is_account_id` describes (its length is counted in bytes, and
/// every accepted character is one byte).
#[verifier::external_body]
pub(crate) fn account_id_valid(s: &String) -> (r: bool)
    ensures
        r == is_account_id(s@),
{
    near_sdk::AccountId::validate(s.as_str()).is_ok()
}

/// Relies on `near_sdk::PublicKey::from_str` to read a public key, and on
/// `String::from(&PublicKey)` to write it back in canonical form.
#[verifier::external_body]
pub(crate) fn canonical_key(s: &String) -> (r: Option<String>)
    ensures
        opt_view(r) == key_text(s@),
{
    let parsed = <near_sdk::PublicKey as std::str::FromStr>::from_str(s.as_str());
    parsed.ok().map(|k| String::from(&k))
}

} // verus!
