//! Optional values, taken by what they stand for.

use vstd::prelude::*;

verus! {

/// What was found, taken by its value.
pub open spec fn found_view<T: View>(found: Option<T>) -> Option<T::V> {
    match found {
        Some(value) => Some(value@),
        None => None,
    }
}

/// An optional text, taken as a sequence of characters.
pub open spec fn opt_text(text: Option<String>) -> Option<Seq<char>> {
    match text {
        Some(t) => Some(t@),
        None => None,
    }
}

/// An optional borrowed text, taken as a sequence of characters.
pub open spec fn opt_str(text: Option<&str>) -> Option<Seq<char>> {
    match text {
        Some(t) => Some(t@),
        None => None,
    }
}

} // verus!
