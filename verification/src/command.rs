//! Process configuration: where the ledger node is, and where the gateway listens.

use vstd::prelude::*;
use vstd::string::*;

verus! {

/// The gateway's configuration, built once at start-up and handed to whatever needs it.
#[derive(Debug)]
pub struct Opt {
    /// Endpoint of the ledger node, as URL text.
    pub node_server: String,
    /// Address the gateway listens on, as URL text.
    pub listen: String,
}

impl Opt {
    /// Endpoint used when none is configured.
    pub open spec fn default_node_server() -> Seq<char> {
        "ws://127.0.0.1:9944"@
    }

    /// Listen address used when none is configured.
    pub open spec fn default_listen() -> Seq<char> {
        "http://127.0.0.1:4000"@
    }
}

impl Default for Opt {
    fn default() -> (opt: Opt)
        ensures
            opt.node_server@ == Opt::default_node_server(),
            opt.listen@ == Opt::default_listen(),
    {
        Opt {
            node_server: String::from_str("ws://127.0.0.1:9944"),
            listen: String::from_str("http://127.0.0.1:4000"),
        }
    }
}

/// The node endpoint of a configuration, as an owned string.
pub fn get_node_url_from_opt(opt: &Opt) -> (node: String)
    ensures
        node@ == opt.node_server@,
{
    opt.node_server.clone()
}

} // verus!
