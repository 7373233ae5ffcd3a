//! What the server says of itself.

use vstd::prelude::*;

verus! {

/// The answer of the health endpoint.
#[derive(Debug)]
pub struct ServerHealth {
    pub status: String,
}

/// The answer of a server that is up.
pub fn health() -> (answer: ServerHealth)
    ensures
        answer.status@ == "ok"@,
{
    ServerHealth { status: "ok".to_owned() }
}

} // verus!
