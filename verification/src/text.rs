//! Optional texts as sequences of characters.

use vstd::prelude::*;

verus! {

/// An optional string as a sequence of characters.
pub open spec fn text_view(value: Option<String>) -> Option<Seq<char>> {
    match value {
        Some(text) => Some(text@),
        None => None,
    }
}

/// An optional string slice as a sequence of characters.
pub open spec fn slice_view(value: Option<&str>) -> Option<Seq<char>> {
    match value {
        Some(text) => Some(text@),
        None => None,
    }
}

/// A text that may be missing, or the fallback in its place.
pub open spec fn text_or(value: Option<Seq<char>>, fallback: Seq<char>) -> Seq<char> {
    match value {
        Some(text) => text,
        None => fallback,
    }
}

/// Hands back the text, or the fallback where there is none.
pub fn known_or(value: Option<String>, fallback: &str) -> (text: String)
    ensures
        text@ == text_or(text_view(value), fallback@),
{
    match value {
        Some(text) => text,
        None => fallback.to_owned(),
    }
}

/// Borrows an optional string as an optional slice.
pub fn as_slice(value: &Option<String>) -> (slice: Option<&str>)
    ensures
        slice_view(slice) == text_view(*value),
{
    match value {
        Some(text) => Some(text.as_str()),
        None => None,
    }
}

} // verus!
