//! Contracts for the few standard-library calls that the verifier's own
//! library leaves unspecified. Each body is the call itself.

use vstd::prelude::*;
use vstd::utf8::{decode_utf8, valid_utf8};

verus! {

/// `String::from_utf8`: succeeds exactly on well-formed UTF-8, and the
/// string it returns holds the characters those bytes encode.
#[verifier::external_body]
pub(crate) fn string_from_utf8(bytes: Vec<u8>) -> (r: Option<String>)
    ensures
        r is Some <==> valid_utf8(bytes@),
        r matches Some(s) ==> s@ == decode_utf8(bytes@),
{
    String::from_utf8(bytes).ok()
}

/// Concatenation of two string slices: the characters of the first, then
/// those of the second.
#[verifier::external_body]
pub(crate) fn str_concat(a: &str, b: &str) -> (r: String)
    ensures
        r@ == a@ + b@,
{
    [a, b].concat()
}

} // verus!
