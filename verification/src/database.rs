//! Where the database is.

use vstd::prelude::*;

use crate::pattern::replace;
use crate::pattern::replaced;

verus! {

/// How many connections to the database are kept at most.
pub const MAX_CONNECTIONS: u32 = 5;

/// For how long a connection is kept, in seconds.
pub const MAX_LIFETIME_SECONDS: u64 = 3600;

/// The address of the database as it is connected to: the setting without
/// the double quotes that may surround it.
pub fn database_address(setting: &str) -> (address: String)
    ensures
        address@ == replaced(setting@, "\""@, Seq::<char>::empty()),
{
    proof {
        reveal_strlit("");
        reveal_strlit("\"");
        assert(""@ =~= Seq::<char>::empty());
    }
    replace(setting, "\"", "")
}

} // verus!
