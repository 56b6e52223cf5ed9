//! Recognising the identifier of a remote video in what the user typed.
use vstd::prelude::*;

verus! {

/// The identifier that `rustube` finds in a URL or bare identifier, if any.
pub uninterp spec fn source_id_of(url: Seq<char>) -> Option<Seq<char>>;

/// Relies on `rustube::Id::from_raw`: it matches the text against its fixed
/// URL patterns, so what it yields depends on the text alone, and it yields
/// the eleven identifier characters it captured, or fails with `BadIdFormat`.
#[verifier::external_body]
pub(crate) fn parse_source_id(url: &str) -> (r: Option<String>)
    ensures
        match r {
            Some(id) => source_id_of(url@) == Some(id@) && id@.len() == 11,
            None => source_id_of(url@) is None,
        },
{
    match rustube::Id::from_raw(url) {
        Ok(id) => Some(id.as_str().to_string()),
        Err(_) => None,
    }
}

/// The identifier of the video that a URL, or a bare identifier, names.
pub fn source_id(url: &str) -> (r: Option<String>)
    ensures
        match r {
            Some(id) => source_id_of(url@) == Some(id@) && id@.len() == 11,
            None => source_id_of(url@) is None,
        },
{
    parse_source_id(url)
}

} // verus!
