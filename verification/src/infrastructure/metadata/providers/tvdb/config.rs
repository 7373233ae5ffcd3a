//! Settings of the TheTVDB provider.

use vstd::prelude::*;

use crate::infrastructure::metadata::provider::ProviderConfig;

verus! {

/// The language in which TheTVDB is asked when none is chosen.
pub const DEFAULT_LANGUAGE: &'static str = "eng";

/// Settings of one request to TheTVDB.
#[derive(Debug)]
pub struct TvdbConfig {
    /// The language of titles and summaries, as a three-letter code.
    pub language: String,
}

impl ProviderConfig for TvdbConfig {}

impl Default for TvdbConfig {
    fn default() -> (config: TvdbConfig)
        ensures
            config.language@ == "eng"@,
    {
        TvdbConfig { language: DEFAULT_LANGUAGE.to_owned() }
    }
}

impl TvdbConfig {
    /// Settings that ask for the given language.
    pub fn new(language: String) -> (config: TvdbConfig)
        ensures
            config.language == language,
    {
        TvdbConfig { language }
    }
}

/// The language in which a search is made: the one asked for, or the
/// default where none is asked for.
pub fn search_language(asked: Option<String>) -> (language: String)
    ensures
        language@ == (match asked {
            Some(l) => l@,
            None => "eng"@,
        }),
{
    match asked {
        Some(language) => language,
        None => DEFAULT_LANGUAGE.to_owned(),
    }
}

} // verus!
