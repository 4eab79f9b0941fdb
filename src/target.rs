//! Validation and normalization of target URLs.

use vstd::prelude::*;

verus! {

/// The serialization of the URL that `url::Url::parse` reads from `s`, or
/// `None` where it reads none (relative, malformed).
pub uninterp spec fn url_serialization(s: Seq<char>) -> Option<Seq<char>>;

/// Relies on `url::Url::parse` and on the serialization that `Url` writes
/// through `Display`.
#[verifier::external_body]
pub(crate) fn parse_and_serialize(s: &str) -> (r: Option<String>)
    ensures
        match r {
            Some(t) => url_serialization(s@) == Some(t@),
            None => url_serialization(s@) is None,
        },
{
    match url::Url::parse(s) {
        Ok(u) => Some(u.to_string()),
        Err(_) => None,
    }
}

} // verus!
