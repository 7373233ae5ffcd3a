//! Identity providers.

use vstd::prelude::*;

verus! {

/// Where the 42 intranet asks a user to authorize the application.
pub const FT_AUTH_URL: &'static str = "https://api.intra.42.fr/oauth/authorize";

/// Where the 42 intranet exchanges an authorization code for a token.
pub const FT_TOKEN_URL: &'static str = "https://api.intra.42.fr/oauth/token";

/// Where the 42 intranet describes the user behind a token.
pub const FT_USER_URL: &'static str = "https://api.intra.42.fr/v2/me";

/// What the 42 intranet tells of a user.
#[derive(Debug)]
pub struct FtUser {
    pub id: i64,
    pub email: String,
    pub login: String,
}

/// The identity providers that can be signed in with.
#[derive(Clone, Copy, Debug, PartialEq, Eq, Hash, Structural)]
pub enum Provider {
    Ft,
}

} // verus!
