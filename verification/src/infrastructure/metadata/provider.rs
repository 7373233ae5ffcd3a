//! What every metadata provider is configured and asked with.

use vstd::prelude::*;

verus! {

/// Marks the settings of a provider.
pub trait ProviderConfig {}

/// Marks the parameters of a search at a provider.
pub trait ProviderSearchParam {}

} // verus!
