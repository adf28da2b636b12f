//! The handler that requests are put to.
use crate::config::RpcPollingConfig;
use vstd::prelude::*;

verus! {

/// Groups of methods that only special builds of a node offer.
#[derive(Clone, Copy, Debug, PartialEq, Eq)]
pub struct Features {
    /// The methods that change the state of a node that runs alone.
    pub sandbox: bool,
    /// The methods that make a node misbehave.
    pub test_features: bool,
}

/// What the handling of a request depends on, besides the request.
#[derive(Debug, PartialEq, Eq)]
pub struct JsonRpcHandler {
    pub polling_config: RpcPollingConfig,
    pub enable_debug_rpc: bool,
    /// Where the files of the debug pages are read from, if not from the program.
    pub debug_pages_src_path: Option<String>,
    pub features: Features,
}

} // verus!
