//! The messages that the parts of a node are sent.
use crate::primitives::{AccountId, BlockHeight, BlockReference, CryptoHash};
use crate::query::QueryRequest;
use serde_json::Value;
use vstd::prelude::*;

verus! {

/// What the client is asked for the debug pages.
#[derive(Clone, Copy, Debug, PartialEq, Eq)]
pub enum DebugStatus {
    TrackedShards,
    SyncStatus,
    CatchupStatus,
    EpochInfo,
    BlockStatus(Option<BlockHeight>),
    ValidatorStatus,
    ChainProcessingStatus,
    RequestedStateParts,
}

/// What a node that runs alone is told to do with its chain, or asked about it.
#[derive(Debug, PartialEq, Eq)]
pub enum SandboxMessage {
    PatchState { records: Value },
    PatchStateStatus,
    FastForward { delta_height: BlockHeight },
    FastForwardStatus,
}

/// What a node that runs alone replies.
#[derive(Debug, PartialEq, Eq)]
pub enum SandboxResponse {
    PatchStateFinished(bool),
    FastForwardFinished(bool),
    /// The reason, in its debug notation.
    FastForwardFailed { error: String },
    /// Any other reply.
    NoResponse,
}

/// How a node is told to misbehave.
#[derive(Clone, Copy, Debug, PartialEq, Eq)]
pub enum NetworkAdversarialMessage {
    AdvDisableHeaderSync,
    AdvDisableDoomslug,
    AdvProduceBlocks { num_blocks: u64, only_valid: bool },
    AdvSwitchToHeight { height: BlockHeight },
    AdvGetSavedBlocks,
    AdvCheckStorageConsistency,
}

/// A message to the client.
#[derive(Debug, PartialEq, Eq)]
pub enum ClientMessage {
    Status { is_health_check: bool, detailed: bool },
    DebugStatus(DebugStatus),
    GetNetworkInfo,
    GetClientConfig,
    Sandbox(SandboxMessage),
    Adversarial(NetworkAdversarialMessage),
}

/// A message to the view client.
#[derive(Debug, PartialEq, Eq)]
pub enum ViewClientMessage {
    GetBlock { block_reference: BlockReference },
    GetChunk { chunk_reference: Value },
    GetReceipt { receipt_id: CryptoHash },
    GetStateChanges { block_hash: CryptoHash, state_changes_request: Value },
    GetStateChangesInBlock { block_hash: CryptoHash },
    GetNextLightClientBlock { last_block_hash: CryptoHash },
    GetExecutionOutcome { id: Value },
    GetBlockProof { block_hash: CryptoHash, head_block_hash: CryptoHash },
    GetGasPrice { block_id: Value },
    GetValidatorInfo { epoch_reference: Value },
    GetValidatorOrdered { block_id: Value },
    GetMaintenanceWindows { account_id: AccountId },
    GetProtocolConfig { block_reference: BlockReference },
    GetProvider { epoch_id: Value, block_height: BlockHeight },
    GetSplitStorageInfo,
    Query { block_reference: BlockReference, request: QueryRequest },
}

/// A message to the peer manager.
#[derive(Clone, Copy, Debug, PartialEq, Eq)]
pub enum GetDebugStatus {
    PeerStore,
    Graph,
    RecentOutboundConnections,
    Routes,
    SnapshotHosts,
}

} // verus!
