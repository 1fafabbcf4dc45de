//! The layer that hands the client to a host that wires its parts by name.

use crate::client::{SyscoinClient, SyscoinClientView};
use vstd::prelude::*;

verus! {

/// The layer itself; it holds nothing.
#[derive(Debug)]
pub struct SyscoinWiringLayer {}

/// What the layer provides: the client.
pub struct SyscoinOutput {
    pub client: SyscoinClient,
}

impl SyscoinWiringLayer {
    pub fn new() -> (layer: SyscoinWiringLayer)
        ensures
            layer == (SyscoinWiringLayer {  }),
    {
        SyscoinWiringLayer {  }
    }

    /// The name under which the host knows the layer.
    pub fn layer_name(&self) -> (name: &'static str)
        ensures
            name@ == "syscoin_client_layer"@,
    {
        "syscoin_client_layer"
    }

    /// Provides a client with the standard configuration. The layer takes no
    /// input and cannot fail.
    pub fn wire(self, _input: ()) -> (output: SyscoinOutput)
        ensures
            output.client@ == SyscoinClientView::standard(),
    {
        SyscoinOutput { client: SyscoinClient::new() }
    }
}

} // verus!
