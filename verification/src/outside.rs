//! What is asked of the `regex` and `http` crates.

use vstd::prelude::*;

verus! {

/// The error of the `regex` crate.
#[verifier::external_type_specification]
#[verifier::external_body]
pub struct ExRegexError(regex::Error);

/// The error of `http`'s URI parser.
#[verifier::external_type_specification]
#[verifier::external_body]
pub struct ExInvalidUri(http::uri::InvalidUri);

/// `regex::Regex::new` takes `pattern`, on a machine whose pointers have
/// `pointer_bits` bits. Their width counts because the crate bounds the bytes
/// that a compiled pattern takes.
pub uninterp spec fn regex_accepts(pattern: Seq<char>, pointer_bits: nat) -> bool;

/// The text of the URI that `http::Uri` reads in `text`, and `None` where it
/// reads none.
pub uninterp spec fn uri_text(text: Seq<char>) -> Option<Seq<char>>;

/// `regex::Regex::new`, followed by `regex::Regex::as_str` on what it made.
/// Whether a pattern is accepted is a function of its text; what `as_str`
/// gives back is the text that the regular expression was made of.
#[verifier::external_body]
pub(crate) fn compile_regex(pattern: &str) -> (r: Result<String, regex::Error>)
    ensures
        r is Ok <==> regex_accepts(pattern@, usize::BITS as nat),
        r matches Ok(source) ==> source@ == pattern@,
{
    regex::Regex::new(pattern).map(|compiled| compiled.as_str().to_owned())
}

/// `http::Uri::try_from` on a string, with the URI it makes written out by
/// `to_string`. The text that comes out is a function of the text that went
/// in, and so is the refusal; the two texts may differ (a path `/` is added
/// behind a bare authority, a fragment is dropped).
#[verifier::external_body]
pub(crate) fn parse_uri(text: &str) -> (r: Result<String, http::uri::InvalidUri>)
    ensures
        r is Ok <==> uri_text(text@) is Some,
        r matches Ok(uri) ==> uri_text(text@) == Some(uri@),
{
    http::Uri::try_from(text).map(|uri| uri.to_string())
}

} // verus!
