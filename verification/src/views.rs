//! Spec-level views of the option and result shapes the library returns.

use vstd::prelude::*;
use crate::errors::NoteError;

verus! {

/// The view of an optional string value: the character sequence it holds,
/// if any.
pub open spec fn opt_view<T: View<V = Seq<char>>>(o: Option<T>) -> Option<Seq<char>> {
    match o {
        Some(s) => Some(s@),
        None => None,
    }
}

/// The view of a string-or-error result: the character sequence of the
/// success value, or the error unchanged.
pub open spec fn res_view(r: Result<String, NoteError>) -> Result<Seq<char>, NoteError> {
    match r {
        Ok(s) => Ok(s@),
        Err(e) => Err(e),
    }
}

/// Borrows an optional string as an optional slice.
pub fn opt_as_str<'a>(o: &'a Option<String>) -> (r: Option<&'a str>)
    ensures
        opt_view(r) == opt_view(*o),
{
    match o {
        Some(s) => Some(s.as_str()),
        None => None,
    }
}

} // verus!
