//! What is kept of TheTVDB's answers.

use vstd::prelude::*;

use crate::infrastructure::metadata::meta::show_type_named;
use crate::infrastructure::metadata::meta::ShowType;

verus! {

/// A name under which TheTVDB knows a show, and the language of the name.
#[derive(Debug)]
pub struct Alias {
    pub language: Option<String>,
    pub name: Option<String>,
}

/// An [`Alias`] as a mathematical value.
pub struct AliasView {
    pub language: Option<Seq<char>>,
    pub name: Option<Seq<char>>,
}

impl View for Alias {
    type V = AliasView;

    open spec fn view(&self) -> AliasView {
        AliasView {
            language: match self.language {
                Some(l) => Some(l@),
                None => None,
            },
            name: match self.name {
                Some(n) => Some(n@),
                None => None,
            },
        }
    }
}

/// True for the aliases that are kept: those in English or French that
/// carry a name.
pub open spec fn is_kept(alias: AliasView) -> bool {
    &&& alias.name is Some
    &&& alias.language matches Some(language) && (language == "eng"@ || language == "fra"@)
}

/// The names of the aliases that are kept, in the order of the aliases.
pub open spec fn kept_names(aliases: Seq<AliasView>) -> Seq<Seq<char>>
    decreases aliases.len(),
{
    if aliases.len() == 0 {
        Seq::empty()
    } else if is_kept(aliases.last()) {
        kept_names(aliases.drop_last()).push(aliases.last().name->0)
    } else {
        kept_names(aliases.drop_last())
    }
}

/// The mathematical values of a list of aliases.
pub open spec fn alias_views(aliases: Seq<Alias>) -> Seq<AliasView> {
    aliases.map_values(|a: Alias| a@)
}

/// The views of a list of texts.
pub open spec fn name_views(names: Seq<String>) -> Seq<Seq<char>> {
    names.map_values(|n: String| n@)
}

fn is_kept_language(language: &Option<String>) -> (kept: bool)
    ensures
        kept == (match language {
            Some(l) => l@ == "eng"@ || l@ == "fra"@,
            None => false,
        }),
{
    match language {
        Some(l) => *l == "eng".to_owned() || *l == "fra".to_owned(),
        None => false,
    }
}

/// The English and French names among the aliases of a show; nothing where
/// the show has no list of aliases.
pub fn filter_aliases(aliases: Option<Vec<Alias>>) -> (names: Option<Vec<String>>)
    ensures
        match names {
            Some(kept) => aliases matches Some(all) && name_views(kept@) == kept_names(
                alias_views(all@),
            ),
            None => aliases is None,
        },
{
    match aliases {
        None => None,
        Some(all) => {
            let mut kept: Vec<String> = Vec::new();
            let ghost views = alias_views(all@);
            let mut i: usize = 0;
            assert(views.take(0) =~= Seq::empty());
            assert(name_views(kept@) =~= Seq::empty());
            while i < all.len()
                invariant
                    i <= all.len(),
                    views == alias_views(all@),
                    name_views(kept@) == kept_names(views.take(i as int)),
                decreases all.len() - i,
            {
                proof {
                    assert(views.take(i + 1).drop_last() =~= views.take(i as int));
                    assert(views.take(i + 1).last() == all@[i as int]@);
                }
                let alias = &all[i];
                if is_kept_language(&alias.language) {
                    match &alias.name {
                        Some(name) => {
                            let ghost before = name_views(kept@);
                            kept.push(name.clone());
                            assert(name_views(kept@) =~= before.push(name@));
                        },
                        None => {},
                    }
                }
                i = i + 1;
            }
            assert(views.take(all.len() as int) =~= views);
            Some(kept)
        },
    }
}

/// The kind of show that a type name of TheTVDB stands for.
pub fn show_type_of(name: &Option<String>) -> (kind: ShowType)
    ensures
        kind == show_type_named(
            match name {
                Some(n) => Some(n@),
                None => None,
            },
        ),
{
    match name {
        Some(n) => {
            if *n == "series".to_owned() {
                ShowType::Tv
            } else if *n == "movie".to_owned() {
                ShowType::Movie
            } else {
                ShowType::Undefined
            }
        },
        None => ShowType::Undefined,
    }
}

} // verus!
