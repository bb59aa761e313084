//! Error control: the service that will produce the heartbeat of a node.

use vstd::prelude::*;

verus! {

/// The error control service of one node.
pub struct ErrorControl {
    node_id: u8,
}

impl ErrorControl {
    /// The node that this service speaks for.
    pub closed spec fn node_id(&self) -> u8 {
        self.node_id
    }

    /// The service for the node `node_id`.
    pub fn new(node_id: u8) -> (service: Self)
        ensures
            service.node_id() == node_id,
    {
        ErrorControl { node_id }
    }
}

} // verus!
