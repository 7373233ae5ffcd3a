//! Shapes of what the movie database sends.

use vstd::prelude::*;

verus! {

/// What a description is of.
#[derive(Clone, Copy, Debug, PartialEq, Eq, Structural)]
pub enum ShowType {
    Movie,
    TV,
}

impl Default for ShowType {
    fn default() -> (kind: ShowType)
        ensures
            kind == ShowType::Movie,
    {
        ShowType::Movie
    }
}

/// A title under which a show is known in some country.
#[derive(Debug)]
pub struct AlternativeTitle {
    /// The country, as a two-letter code.
    pub iso_3166_1: String,
    pub title: String,
    /// What kind of title this is, such as a romanisation.
    pub title_type: String,
}

/// An [`AlternativeTitle`] as a mathematical value.
pub struct AlternativeTitleView {
    pub iso_3166_1: Seq<char>,
    pub title: Seq<char>,
    pub title_type: Seq<char>,
}

impl View for AlternativeTitle {
    type V = AlternativeTitleView;

    open spec fn view(&self) -> AlternativeTitleView {
        AlternativeTitleView {
            iso_3166_1: self.iso_3166_1@,
            title: self.title@,
            title_type: self.title_type@,
        }
    }
}

/// What a search is made for.
#[derive(Debug)]
pub struct SearchParams {
    pub query: String,
}

} // verus!
