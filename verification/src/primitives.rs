//! The values that requests, replies and errors are made of.
//!
//! What the handling of a request reads is held as plain values. Anything that is
//! only passed on is held as the JSON value that stands for it.
use serde_json::Value;
use vstd::prelude::*;

verus! {

/// The height of a block.
pub type BlockHeight = u64;

/// The name of an account.
pub type AccountId = String;

/// A hash, by the text that it is shown as.
#[derive(Debug, PartialEq, Eq)]
pub struct CryptoHash {
    pub base58: String,
}

impl Clone for CryptoHash {
    fn clone(&self) -> (copy: Self)
        ensures
            copy == *self,
    {
        CryptoHash { base58: self.base58.clone() }
    }
}

/// A block, named by its height or by its hash.
#[derive(Debug, PartialEq, Eq)]
pub enum BlockId {
    Height(BlockHeight),
    Hash(CryptoHash),
}

/// A block, named directly or in any other way that the chain resolves.
#[derive(Debug, PartialEq, Eq)]
pub enum BlockReference {
    BlockId(BlockId),
    Other(Value),
}

/// A signed transaction: its hash, its signer, and its encoded form.
#[derive(Debug, PartialEq, Eq)]
pub struct SignedTransaction {
    pub hash: CryptoHash,
    pub signer_id: AccountId,
    pub encoded: String,
}

impl Clone for SignedTransaction {
    fn clone(&self) -> (copy: Self)
        ensures
            copy == *self,
    {
        SignedTransaction {
            hash: self.hash.clone(),
            signer_id: self.signer_id.clone(),
            encoded: self.encoded.clone(),
        }
    }
}

impl SignedTransaction {
    /// The hash by which the transaction is known.
    pub fn get_hash(&self) -> (hash: CryptoHash)
        ensures
            hash == self.hash,
    {
        self.hash.clone()
    }
}

/// How far a transaction has come, in the order in which it passes the stages.
#[derive(Clone, Copy, Debug, PartialEq, Eq)]
pub enum TxExecutionStatus {
    /// Not on the chain yet.
    Pending,
    /// A stage in between, by its place in the order.
    Stage(u8),
    /// The transaction and everything that it caused is final.
    Final,
}

impl TxExecutionStatus {
    /// The place of the status in the order of all of them.
    pub open spec fn rank(self) -> int {
        match self {
            TxExecutionStatus::Pending => 0,
            TxExecutionStatus::Stage(stage) => 1 + stage,
            TxExecutionStatus::Final => 257,
        }
    }

    /// Whether this status is `wanted` or beyond it.
    pub fn reaches(&self, wanted: &TxExecutionStatus) -> (reached: bool)
        ensures
            reached == (self.rank() >= wanted.rank()),
    {
        match (*self, *wanted) {
            (_, TxExecutionStatus::Pending) => true,
            (TxExecutionStatus::Final, _) => true,
            (TxExecutionStatus::Stage(stage), TxExecutionStatus::Stage(limit)) => stage >= limit,
            _ => false,
        }
    }

    /// Whether the transaction is not on the chain yet.
    pub fn is_pending(&self) -> (pending: bool)
        ensures
            pending == (*self is Pending),
    {
        match self {
            TxExecutionStatus::Pending => true,
            _ => false,
        }
    }
}

/// Why a transaction was refused.
#[derive(Debug, PartialEq, Eq)]
pub enum InvalidTxError {
    /// The nonce is not above the last one that was used.
    InvalidNonce { info: Value },
    /// Any other reason.
    Other { info: Value },
}

/// What the client says of a transaction that was handed to it.
#[derive(Debug, PartialEq, Eq)]
pub enum ProcessTxResponse {
    NoResponse,
    ValidTx,
    InvalidTx(InvalidTxError),
    RequestRouted,
    DoesNotTrackShard,
    /// Any other response, by its debug notation.
    Other { debug: String },
}

/// Why a request about a transaction failed.
#[derive(Debug, PartialEq, Eq)]
pub enum RpcTransactionError {
    InvalidTransaction { context: InvalidTxError },
    DoesNotTrackShard,
    UnknownTransaction { requested_transaction_hash: CryptoHash },
    InternalError { debug_info: String },
    TimeoutError,
}

impl RpcTransactionError {
    /// The error that a refusal of the client is reported as.
    pub fn from_network_client_responses(resp: ProcessTxResponse) -> (error: Self)
        ensures
            match resp {
                ProcessTxResponse::InvalidTx(context) => error
                    == (RpcTransactionError::InvalidTransaction { context }),
                ProcessTxResponse::NoResponse => error == RpcTransactionError::TimeoutError,
                ProcessTxResponse::DoesNotTrackShard => error
                    == RpcTransactionError::DoesNotTrackShard,
                ProcessTxResponse::RequestRouted => error == RpcTransactionError::DoesNotTrackShard,
                ProcessTxResponse::ValidTx => error matches RpcTransactionError::InternalError {
                    debug_info,
                } && debug_info@ == "ValidTx"@,
                ProcessTxResponse::Other { debug } => error == (RpcTransactionError::InternalError {
                    debug_info: debug,
                }),
            },
    {
        match resp {
            ProcessTxResponse::InvalidTx(context) => RpcTransactionError::InvalidTransaction {
                context,
            },
            ProcessTxResponse::NoResponse => RpcTransactionError::TimeoutError,
            ProcessTxResponse::DoesNotTrackShard => RpcTransactionError::DoesNotTrackShard,
            ProcessTxResponse::RequestRouted => RpcTransactionError::DoesNotTrackShard,
            ProcessTxResponse::ValidTx => RpcTransactionError::InternalError {
                debug_info: "ValidTx".to_owned(),
            },
            ProcessTxResponse::Other { debug } => RpcTransactionError::InternalError {
                debug_info: debug,
            },
        }
    }
}

/// The stages of a transaction are in order: nothing is before it being on the chain at all,
/// nothing is beyond it being final, the stages in between follow their places, and no two
/// statuses share a place.
pub proof fn law_stages_are_ordered(
    one: TxExecutionStatus,
    other: TxExecutionStatus,
    reached: bool,
)
    ensures
        TxExecutionStatus::Pending.rank() <= one.rank() <= TxExecutionStatus::Final.rank(),
        one.rank() == other.rank() ==> one == other,
        one matches TxExecutionStatus::Stage(a) ==> (other matches TxExecutionStatus::Stage(b)
            ==> (one.rank() < other.rank() <==> a < b)),
        call_ensures(TxExecutionStatus::reaches, (&one, &other), reached) ==> (reached
            <==> other.rank() <= one.rank()),
{
}

/// How a response of the client is reported tells what the response was, and why.
pub proof fn law_reports_tell_the_response(resp: ProcessTxResponse, error: RpcTransactionError)
    requires
        call_ensures(RpcTransactionError::from_network_client_responses, (resp,), error),
    ensures
        error is InvalidTransaction <==> resp is InvalidTx,
        error matches RpcTransactionError::InvalidTransaction { context } ==> resp
            == ProcessTxResponse::InvalidTx(context),
        error is TimeoutError <==> resp is NoResponse,
        error is DoesNotTrackShard <==> resp is DoesNotTrackShard || resp is RequestRouted,
        error is InternalError <==> resp is ValidTx || resp is Other,
        error matches RpcTransactionError::InternalError { debug_info } ==> debug_info@ == match (
            resp
        ) {
            ProcessTxResponse::Other { debug } => debug@,
            _ => "ValidTx"@,
        },
{
}

/// A transaction is known by its hash.
pub proof fn law_transactions_are_known_by_their_hash(tx: SignedTransaction, hash: CryptoHash)
    ensures
        call_ensures(SignedTransaction::get_hash, (&tx,), hash) ==> hash == tx.hash,
{
}

} // verus!
