//! The location of the daemon's Unix domain socket.

use vstd::prelude::*;

verus! {

/// A filesystem path naming the Unix domain socket on which the daemon
/// listens. The path is kept as it was configured and is never parsed.
#[derive(Debug, PartialEq, Eq)]
pub struct Endpoint {
    path: String,
}

impl View for Endpoint {
    type V = Seq<char>;

    closed spec fn view(&self) -> Seq<char> {
        self.path@
    }
}

impl Clone for Endpoint {
    fn clone(&self) -> (copy: Self)
        ensures
            copy@ == self@,
    {
        Endpoint { path: self.path.clone() }
    }
}

impl Endpoint {
    /// The configured socket path, character for character.
    pub fn path(&self) -> (path: &str)
        ensures
            path@ == self@,
    {
        self.path.as_str()
    }
}

/// Turns the configured socket path into the endpoint that both the health
/// client and the download client of one invocation connect to.
pub fn resolve_endpoint(socket_path: &str) -> (endpoint: Endpoint)
    ensures
        endpoint@ == socket_path@,
{
    Endpoint { path: socket_path.to_owned() }
}

} // verus!
