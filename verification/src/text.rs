//! Views of texts that sit inside options and lists.

use vstd::prelude::*;

verus! {

/// An optional text by its view.
pub open spec fn option_view(text: Option<String>) -> Option<Seq<char>> {
    match text {
        Some(t) => Some(t@),
        None => None,
    }
}

/// A list of texts, each by its view.
pub open spec fn texts_view(texts: Seq<String>) -> Seq<Seq<char>> {
    Seq::new(texts.len(), |i: int| texts[i]@)
}

} // verus!
