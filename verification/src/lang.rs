//! Recognition of language codes. The set of codes the translation service
//! accepts is owned by the client library for that service; this module asks
//! it and gives the answer a name that contracts can speak about.

use vstd::prelude::*;

verus! {

/// Whether the translation service's client library recognizes `s` as a
/// language code.
pub uninterp spec fn is_language_code(s: Seq<char>) -> bool;

/// Relies on deeprl's `Language: FromStr` impl: it matches the uppercased
/// string against a fixed list of language codes, so the outcome depends on
/// the string alone.
#[verifier::external_body]
pub(crate) fn language_code_recognized(s: &str) -> (r: bool)
    ensures
        r == is_language_code(s@),
{
    s.parse::<deeprl::Language>().is_ok()
}

} // verus!
