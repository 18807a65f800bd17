//! The settings a server is started with.
use vstd::prelude::*;

verus! {

/// A server that listens on one socket address.
pub struct Server {
    socket_addr: String,
}

impl Server {
    /// A server for the given address.
    pub fn new(socket_addr: &str) -> (r: Server)
        ensures
            r.addr() == socket_addr@,
    {
        Server { socket_addr: socket_addr.to_owned() }
    }

    /// The address, as text.
    pub closed spec fn addr(&self) -> Seq<char> {
        self.socket_addr@
    }

    /// The address the server listens on.
    pub fn socket_addr(&self) -> (r: &str)
        ensures
            r@ == self.addr(),
    {
        self.socket_addr.as_str()
    }
}

} // verus!
