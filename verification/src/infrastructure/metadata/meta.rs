//! The kinds of show that a provider describes.

use vstd::prelude::*;

verus! {

/// What a description is of.
#[derive(Clone, Copy, Debug, PartialEq, Eq, Structural)]
pub enum ShowType {
    Movie,
    Tv,
    Undefined,
}

/// The kind of show that a provider's type name stands for: `series` is a
/// TV show and `movie` a movie; any other name, or none, is undefined.
pub open spec fn show_type_named(name: Option<Seq<char>>) -> ShowType {
    match name {
        Some(n) => if n == "series"@ {
            ShowType::Tv
        } else if n == "movie"@ {
            ShowType::Movie
        } else {
            ShowType::Undefined
        },
        None => ShowType::Undefined,
    }
}

} // verus!
