//! What the node is asked for the debug pages.
use crate::handler::JsonRpcHandler;
use crate::node::{ClientMessage, DebugStatus, GetDebugStatus};
use crate::primitives::BlockHeight;
use crate::text::same_text;
use serde_json::Value;
use vstd::prelude::*;

verus! {

/// A path under which a part of the state of the node is shown.
#[derive(Clone, Copy, Debug, PartialEq, Eq)]
pub enum DebugApi {
    TrackedShards,
    SyncStatus,
    CatchupStatus,
    EpochInfo,
    BlockStatus,
    ValidatorStatus,
    ChainProcessingStatus,
    RequestedStateParts,
    PeerStore,
    NetworkGraph,
    RecentOutboundConnections,
    NetworkRoutes,
    SnapshotHosts,
    SplitStoreInfo,
}

/// Who is asked for a part of the state of the node, and for which.
#[derive(Clone, Copy, Debug, PartialEq, Eq)]
pub enum DebugQuery {
    Client(DebugStatus),
    PeerManager(GetDebugStatus),
    /// The view client, for the state of a split storage.
    SplitStorage,
}

/// A part of the state of the node.
#[derive(Debug, PartialEq, Eq)]
pub enum DebugStatusResponse {
    Reply(Value),
    SplitStoreStatus(Value),
}

/// The response on a part of the state of the node.
#[derive(Debug, PartialEq, Eq)]
pub struct RpcDebugStatusResponse {
    pub status_response: DebugStatusResponse,
}

/// Why a part of the state of the node cannot be shown.
#[derive(Debug, PartialEq, Eq)]
pub enum RpcStatusError {
    /// The error of a status request, in its serialised form.
    Node { info: Value },
    /// The error of a request about a split storage, in its serialised form.
    SplitStorage { info: Value },
}

impl DebugApi {
    /// The path.
    pub open spec fn path(self) -> Seq<char> {
        match self {
            DebugApi::TrackedShards => "/debug/api/tracked_shards"@,
            DebugApi::SyncStatus => "/debug/api/sync_status"@,
            DebugApi::CatchupStatus => "/debug/api/catchup_status"@,
            DebugApi::EpochInfo => "/debug/api/epoch_info"@,
            DebugApi::BlockStatus => "/debug/api/block_status"@,
            DebugApi::ValidatorStatus => "/debug/api/validator_status"@,
            DebugApi::ChainProcessingStatus => "/debug/api/chain_processing_status"@,
            DebugApi::RequestedStateParts => "/debug/api/requested_state_parts"@,
            DebugApi::PeerStore => "/debug/api/peer_store"@,
            DebugApi::NetworkGraph => "/debug/api/network_graph"@,
            DebugApi::RecentOutboundConnections => "/debug/api/recent_outbound_connections"@,
            DebugApi::NetworkRoutes => "/debug/api/network_routes"@,
            DebugApi::SnapshotHosts => "/debug/api/snapshot_hosts"@,
            DebugApi::SplitStoreInfo => "/debug/api/split_store_info"@,
        }
    }

    /// What the node is asked under the path.
    pub open spec fn spec_query(self) -> DebugQuery {
        match self {
            DebugApi::TrackedShards => DebugQuery::Client(DebugStatus::TrackedShards),
            DebugApi::SyncStatus => DebugQuery::Client(DebugStatus::SyncStatus),
            DebugApi::CatchupStatus => DebugQuery::Client(DebugStatus::CatchupStatus),
            DebugApi::EpochInfo => DebugQuery::Client(DebugStatus::EpochInfo),
            DebugApi::BlockStatus => DebugQuery::Client(DebugStatus::BlockStatus(None)),
            DebugApi::ValidatorStatus => DebugQuery::Client(DebugStatus::ValidatorStatus),
            DebugApi::ChainProcessingStatus => DebugQuery::Client(
                DebugStatus::ChainProcessingStatus,
            ),
            DebugApi::RequestedStateParts => DebugQuery::Client(DebugStatus::RequestedStateParts),
            DebugApi::PeerStore => DebugQuery::PeerManager(GetDebugStatus::PeerStore),
            DebugApi::NetworkGraph => DebugQuery::PeerManager(GetDebugStatus::Graph),
            DebugApi::RecentOutboundConnections => DebugQuery::PeerManager(
                GetDebugStatus::RecentOutboundConnections,
            ),
            DebugApi::NetworkRoutes => DebugQuery::PeerManager(GetDebugStatus::Routes),
            DebugApi::SnapshotHosts => DebugQuery::PeerManager(GetDebugStatus::SnapshotHosts),
            DebugApi::SplitStoreInfo => DebugQuery::SplitStorage,
        }
    }

    /// The path that is meant, if it is one of these.
    pub fn of_path(path: &String) -> (api: Option<DebugApi>)
        ensures
            match api {
                Some(api) => api.path() == path@,
                None => forall|api: DebugApi| #[trigger] api.path() != path@,
            },
    {
        if same_text(path, "/debug/api/tracked_shards") {
            Some(DebugApi::TrackedShards)
        } else if same_text(path, "/debug/api/sync_status") {
            Some(DebugApi::SyncStatus)
        } else if same_text(path, "/debug/api/catchup_status") {
            Some(DebugApi::CatchupStatus)
        } else if same_text(path, "/debug/api/epoch_info") {
            Some(DebugApi::EpochInfo)
        } else if same_text(path, "/debug/api/block_status") {
            Some(DebugApi::BlockStatus)
        } else if same_text(path, "/debug/api/validator_status") {
            Some(DebugApi::ValidatorStatus)
        } else if same_text(path, "/debug/api/chain_processing_status") {
            Some(DebugApi::ChainProcessingStatus)
        } else if same_text(path, "/debug/api/requested_state_parts") {
            Some(DebugApi::RequestedStateParts)
        } else if same_text(path, "/debug/api/peer_store") {
            Some(DebugApi::PeerStore)
        } else if same_text(path, "/debug/api/network_graph") {
            Some(DebugApi::NetworkGraph)
        } else if same_text(path, "/debug/api/recent_outbound_connections") {
            Some(DebugApi::RecentOutboundConnections)
        } else if same_text(path, "/debug/api/network_routes") {
            Some(DebugApi::NetworkRoutes)
        } else if same_text(path, "/debug/api/snapshot_hosts") {
            Some(DebugApi::SnapshotHosts)
        } else if same_text(path, "/debug/api/split_store_info") {
            Some(DebugApi::SplitStoreInfo)
        } else {
            None
        }
    }

    /// What the node is asked under the path.
    pub fn query(self) -> (query: DebugQuery)
        ensures
            query == self.spec_query(),
    {
        match self {
            DebugApi::TrackedShards => DebugQuery::Client(DebugStatus::TrackedShards),
            DebugApi::SyncStatus => DebugQuery::Client(DebugStatus::SyncStatus),
            DebugApi::CatchupStatus => DebugQuery::Client(DebugStatus::CatchupStatus),
            DebugApi::EpochInfo => DebugQuery::Client(DebugStatus::EpochInfo),
            DebugApi::BlockStatus => DebugQuery::Client(DebugStatus::BlockStatus(None)),
            DebugApi::ValidatorStatus => DebugQuery::Client(DebugStatus::ValidatorStatus),
            DebugApi::ChainProcessingStatus => DebugQuery::Client(
                DebugStatus::ChainProcessingStatus,
            ),
            DebugApi::RequestedStateParts => DebugQuery::Client(DebugStatus::RequestedStateParts),
            DebugApi::PeerStore => DebugQuery::PeerManager(GetDebugStatus::PeerStore),
            DebugApi::NetworkGraph => DebugQuery::PeerManager(GetDebugStatus::Graph),
            DebugApi::RecentOutboundConnections => DebugQuery::PeerManager(
                GetDebugStatus::RecentOutboundConnections,
            ),
            DebugApi::NetworkRoutes => DebugQuery::PeerManager(GetDebugStatus::Routes),
            DebugApi::SnapshotHosts => DebugQuery::PeerManager(GetDebugStatus::SnapshotHosts),
            DebugApi::SplitStoreInfo => DebugQuery::SplitStorage,
        }
    }
}

/// The length of each path, and one character of it.
proof fn lemma_path_marks(api: DebugApi)
    ensures
        match api {
            DebugApi::TrackedShards => api.path().len() == 25 && api.path()[11] == 't',
            DebugApi::SyncStatus => api.path().len() == 22 && api.path()[11] == 's',
            DebugApi::CatchupStatus => api.path().len() == 25 && api.path()[11] == 'c',
            DebugApi::EpochInfo => api.path().len() == 21 && api.path()[11] == 'e',
            DebugApi::BlockStatus => api.path().len() == 23 && api.path()[11] == 'b',
            DebugApi::ValidatorStatus => api.path().len() == 27 && api.path()[11] == 'v',
            DebugApi::ChainProcessingStatus => api.path().len() == 34 && api.path()[11] == 'c',
            DebugApi::RequestedStateParts => api.path().len() == 32 && api.path()[11] == 'r',
            DebugApi::PeerStore => api.path().len() == 21 && api.path()[11] == 'p',
            DebugApi::NetworkGraph => api.path().len() == 24 && api.path()[11] == 'n',
            DebugApi::RecentOutboundConnections => api.path().len() == 38 && api.path()[11] == 'r',
            DebugApi::NetworkRoutes => api.path().len() == 25 && api.path()[11] == 'n',
            DebugApi::SnapshotHosts => api.path().len() == 25 && api.path()[11] == 's',
            DebugApi::SplitStoreInfo => api.path().len() == 27 && api.path()[11] == 's',
        },
{
    match api {
        DebugApi::TrackedShards => {
            reveal_strlit("/debug/api/tracked_shards");
        },
        DebugApi::SyncStatus => {
            reveal_strlit("/debug/api/sync_status");
        },
        DebugApi::CatchupStatus => {
            reveal_strlit("/debug/api/catchup_status");
        },
        DebugApi::EpochInfo => {
            reveal_strlit("/debug/api/epoch_info");
        },
        DebugApi::BlockStatus => {
            reveal_strlit("/debug/api/block_status");
        },
        DebugApi::ValidatorStatus => {
            reveal_strlit("/debug/api/validator_status");
        },
        DebugApi::ChainProcessingStatus => {
            reveal_strlit("/debug/api/chain_processing_status");
        },
        DebugApi::RequestedStateParts => {
            reveal_strlit("/debug/api/requested_state_parts");
        },
        DebugApi::PeerStore => {
            reveal_strlit("/debug/api/peer_store");
        },
        DebugApi::NetworkGraph => {
            reveal_strlit("/debug/api/network_graph");
        },
        DebugApi::RecentOutboundConnections => {
            reveal_strlit("/debug/api/recent_outbound_connections");
        },
        DebugApi::NetworkRoutes => {
            reveal_strlit("/debug/api/network_routes");
        },
        DebugApi::SnapshotHosts => {
            reveal_strlit("/debug/api/snapshot_hosts");
        },
        DebugApi::SplitStoreInfo => {
            reveal_strlit("/debug/api/split_store_info");
        },
    }
}

/// No two of the paths are the same.
pub proof fn law_paths_are_distinct(one: DebugApi, other: DebugApi)
    requires
        one.path() == other.path(),
    ensures
        one == other,
{
    lemma_path_marks(one);
    lemma_path_marks(other);
}

impl DebugQuery {
    /// The node has replied.
    pub fn replied(self, reply: Result<Value, Value>) -> (response: Result<
        RpcDebugStatusResponse,
        RpcStatusError,
    >)
        ensures
            match reply {
                Ok(value) => response matches Ok(response) && response.status_response == (
                if self is SplitStorage {
                    DebugStatusResponse::SplitStoreStatus(value)
                } else {
                    DebugStatusResponse::Reply(value)
                }),
                Err(info) => response matches Err(error) && error == (if self is SplitStorage {
                    RpcStatusError::SplitStorage { info }
                } else {
                    RpcStatusError::Node { info }
                }),
            },
    {
        match self {
            DebugQuery::SplitStorage => match reply {
                Ok(value) => Ok(
                    RpcDebugStatusResponse {
                        status_response: DebugStatusResponse::SplitStoreStatus(value),
                    },
                ),
                Err(info) => Err(RpcStatusError::SplitStorage { info }),
            },
            _ => match reply {
                Ok(value) => Ok(
                    RpcDebugStatusResponse { status_response: DebugStatusResponse::Reply(value) },
                ),
                Err(info) => Err(RpcStatusError::Node { info }),
            },
        }
    }
}

impl JsonRpcHandler {
    /// The message that asks for the detailed status of the node, if debugging is enabled.
    pub fn old_debug(&self) -> (message: Option<ClientMessage>)
        ensures
            message == (if self.enable_debug_rpc {
                Some(ClientMessage::Status { is_health_check: false, detailed: true })
            } else {
                None
            }),
    {
        if self.enable_debug_rpc {
            Some(ClientMessage::Status { is_health_check: false, detailed: true })
        } else {
            None
        }
    }

    /// What the node is asked under a path, if debugging is enabled and there is such a path.
    pub fn debug(&self, path: &String) -> (query: Option<DebugQuery>)
        ensures
            forall|api: DebugApi| #[trigger]
                api.path() == path@ && self.enable_debug_rpc ==> query == Some(api.spec_query()),
            !self.enable_debug_rpc || (forall|api: DebugApi| #[trigger] api.path() != path@)
                ==> query is None,
    {
        if self.enable_debug_rpc {
            match DebugApi::of_path(path) {
                Some(api) => {
                    proof {
                        assert forall|other: DebugApi| #[trigger]
                            other.path() == path@ implies other == api by {
                            law_paths_are_distinct(other, api);
                        }
                    }
                    Some(api.query())
                },
                None => None,
            }
        } else {
            None
        }
    }

    /// What the node is asked for the blocks from a height on, if debugging is enabled.
    pub fn debug_block_status(&self, starting_height: Option<BlockHeight>) -> (query: Option<
        DebugQuery,
    >)
        ensures
            query == (if self.enable_debug_rpc {
                Some(DebugQuery::Client(DebugStatus::BlockStatus(starting_height)))
            } else {
                None
            }),
    {
        if self.enable_debug_rpc {
            Some(DebugQuery::Client(DebugStatus::BlockStatus(starting_height)))
        } else {
            None
        }
    }
}

/// Nothing is asked for the debug pages unless debugging is enabled. Where it is, the blocks are
/// asked for from the very height that was given, and the status in detail.
pub proof fn law_debugging_must_be_enabled(
    handler: JsonRpcHandler,
    path: String,
    starting_height: Option<BlockHeight>,
    status: Option<ClientMessage>,
    part: Option<DebugQuery>,
    blocks: Option<DebugQuery>,
)
    requires
        call_ensures(JsonRpcHandler::old_debug, (&handler,), status),
        call_ensures(JsonRpcHandler::debug, (&handler, &path), part),
        call_ensures(JsonRpcHandler::debug_block_status, (&handler, starting_height), blocks),
    ensures
        status is Some <==> handler.enable_debug_rpc,
        status matches Some(message) ==> (message matches ClientMessage::Status {
            is_health_check,
            detailed,
        } && !is_health_check && detailed),
        part is Some ==> handler.enable_debug_rpc,
        blocks is Some <==> handler.enable_debug_rpc,
        blocks matches Some(query) ==> query == DebugQuery::Client(
            DebugStatus::BlockStatus(starting_height),
        ),
{
}

/// A path leads to one question only, and only a path of the table leads to any.
pub proof fn law_paths_lead_to_their_question(
    handler: JsonRpcHandler,
    path: String,
    part: Option<DebugQuery>,
)
    requires
        handler.enable_debug_rpc,
        call_ensures(JsonRpcHandler::debug, (&handler, &path), part),
    ensures
        part is Some <==> exists|api: DebugApi| #[trigger] api.path() == path@,
        part matches Some(query) ==> exists|api: DebugApi| #[trigger]
            api.path() == path@ && query == api.spec_query(),
{
}

/// A part of the state is shown as the node replied it, and a refusal is told as it came. Only
/// what is said of a split storage is marked as such.
pub proof fn law_parts_are_shown_as_replied(
    query: DebugQuery,
    reply: Result<Value, Value>,
    response: Result<RpcDebugStatusResponse, RpcStatusError>,
)
    requires
        call_ensures(DebugQuery::replied, (query, reply), response),
    ensures
        response is Ok <==> reply is Ok,
        response matches Ok(shown) ==> match shown.status_response {
            DebugStatusResponse::Reply(value) => reply == Ok::<Value, Value>(value) && !(query
                is SplitStorage),
            DebugStatusResponse::SplitStoreStatus(value) => reply == Ok::<Value, Value>(value)
                && query is SplitStorage,
        },
        response matches Err(error) ==> match error {
            RpcStatusError::Node { info } => reply == Err::<Value, Value>(info) && !(query
                is SplitStorage),
            RpcStatusError::SplitStorage { info } => reply == Err::<Value, Value>(info) && query
                is SplitStorage,
        },
{
}

} // verus!
