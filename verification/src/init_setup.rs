//! Where the game server is.
use vstd::prelude::*;

verus! {

/// Address of the game server.
pub struct ActixServerURI(pub String);

/// The server the game talks to.
pub open spec fn server_url() -> Seq<char> {
    "http://localhost:8081"@
}

/// The server address the game starts with.
pub fn setup() -> (r: ActixServerURI)
    ensures
        r.0@ == server_url(),
{
    ActixServerURI(String::from_str("http://localhost:8081"))
}

} // verus!
