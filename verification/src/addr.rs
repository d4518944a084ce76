//! Transport addresses.

use vstd::prelude::*;

verus! {

/// The address of a network, or of one connection within it.
#[derive(Debug)]
pub struct Addr {
    /// The network on the signaling service.
    pub network_id: String,
    /// The connection, where the address names one.
    pub connection_id: Option<u64>,
}

impl Addr {
    /// The address of a connection with a network.
    pub fn new(network_id: String, connection_id: u64) -> (addr: Self)
        ensures
            addr.network_id == network_id,
            addr.connection_id == Some(connection_id),
    {
        Addr { network_id, connection_id: Some(connection_id) }
    }

    /// The address of a network as a whole.
    pub fn network(network_id: String) -> (addr: Self)
        ensures
            addr.network_id == network_id,
            addr.connection_id is None,
    {
        Addr { network_id, connection_id: None }
    }
}

impl Clone for Addr {
    fn clone(&self) -> (addr: Self)
        ensures
            addr == *self,
    {
        Addr { network_id: self.network_id.clone(), connection_id: self.connection_id }
    }
}

} // verus!
