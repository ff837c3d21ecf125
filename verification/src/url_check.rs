//! Whether a string is an absolute URL, as the `url` crate parses it.

use vstd::prelude::*;

verus! {

/// Whether `url::Url::parse` accepts the characters `s` as an absolute URL.
pub uninterp spec fn parses_as_url(s: Seq<char>) -> bool;

/// Calls `url::Url::parse` and reports whether it returned `Ok`. The
/// contract claims only that the answer is the one `parses_as_url` names
/// for these characters: the parse depends on its input alone.
#[verifier::external_body]
pub(crate) fn is_url(s: &str) -> (ok: bool)
    ensures
        ok == parses_as_url(s@),
{
    url::Url::parse(s).is_ok()
}

} // verus!
