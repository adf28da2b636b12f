//! What the network asks of the manager of the shards.
use crate::primitives::CryptoHash;
use std::time::Instant;
use vstd::prelude::*;

verus! {

/// `std::time::Instant`, carried through as it is.
#[verifier::external_type_specification]
#[verifier::external_body]
pub struct ExInstant(std::time::Instant);

/// A part of a chunk, in its encoded form.
#[derive(Debug, PartialEq, Eq)]
pub struct PartialEncodedChunk {
    pub encoded: Vec<u8>,
}

/// A part of a chunk that is passed on, in its encoded form.
#[derive(Debug, PartialEq, Eq)]
pub struct PartialEncodedChunkForwardMsg {
    pub encoded: Vec<u8>,
}

/// The answer to the request for a part of a chunk, in its encoded form.
#[derive(Debug, PartialEq, Eq)]
pub struct PartialEncodedChunkResponseMsg {
    pub encoded: Vec<u8>,
}

/// The request for a part of a chunk, in its encoded form.
#[derive(Debug, PartialEq, Eq)]
pub struct PartialEncodedChunkRequestMsg {
    pub encoded: Vec<u8>,
}

/// What the network asks of the manager of the shards.
#[derive(Debug)]
pub enum ShardsManagerRequestFromNetwork {
    ProcessPartialEncodedChunk(PartialEncodedChunk),
    ProcessPartialEncodedChunkForward(PartialEncodedChunkForwardMsg),
    ProcessPartialEncodedChunkResponse {
        partial_encoded_chunk_response: PartialEncodedChunkResponseMsg,
        received_time: Instant,
    },
    ProcessPartialEncodedChunkRequest {
        partial_encoded_chunk_request: PartialEncodedChunkRequestMsg,
        route_back: CryptoHash,
    },
}

impl ShardsManagerRequestFromNetwork {
    /// The name of the kind of request.
    pub open spec fn name(self) -> &'static str {
        match self {
            ShardsManagerRequestFromNetwork::ProcessPartialEncodedChunk(
                _,
            ) => "ProcessPartialEncodedChunk",
            ShardsManagerRequestFromNetwork::ProcessPartialEncodedChunkForward(
                _,
            ) => "ProcessPartialEncodedChunkForward",
            ShardsManagerRequestFromNetwork::ProcessPartialEncodedChunkResponse {
                ..
            } => "ProcessPartialEncodedChunkResponse",
            ShardsManagerRequestFromNetwork::ProcessPartialEncodedChunkRequest {
                ..
            } => "ProcessPartialEncodedChunkRequest",
        }
    }
}

impl From<&ShardsManagerRequestFromNetwork> for &'static str {
    /// The name of the kind of request.
    fn from(request: &ShardsManagerRequestFromNetwork) -> (name: &'static str) {
        match request {
            ShardsManagerRequestFromNetwork::ProcessPartialEncodedChunk(
                _,
            ) => "ProcessPartialEncodedChunk",
            ShardsManagerRequestFromNetwork::ProcessPartialEncodedChunkForward(
                _,
            ) => "ProcessPartialEncodedChunkForward",
            ShardsManagerRequestFromNetwork::ProcessPartialEncodedChunkResponse {
                ..
            } => "ProcessPartialEncodedChunkResponse",
            ShardsManagerRequestFromNetwork::ProcessPartialEncodedChunkRequest {
                ..
            } => "ProcessPartialEncodedChunkRequest",
        }
    }
}

impl vstd::std_specs::convert::FromSpecImpl<&ShardsManagerRequestFromNetwork> for &'static str {
    open spec fn obeys_from_spec() -> bool {
        true
    }

    open spec fn from_spec(request: &ShardsManagerRequestFromNetwork) -> &'static str {
        request.name()
    }
}

impl From<ShardsManagerRequestFromNetwork> for &'static str {
    /// The name of the kind of request.
    fn from(request: ShardsManagerRequestFromNetwork) -> (name: &'static str) {
        <&'static str>::from(&request)
    }
}

impl vstd::std_specs::convert::FromSpecImpl<ShardsManagerRequestFromNetwork> for &'static str {
    open spec fn obeys_from_spec() -> bool {
        true
    }

    open spec fn from_spec(request: ShardsManagerRequestFromNetwork) -> &'static str {
        request.name()
    }
}

/// The name tells the kinds of requests apart: only requests of the same kind share one.
pub proof fn law_name_tells_the_kind(
    one: ShardsManagerRequestFromNetwork,
    other: ShardsManagerRequestFromNetwork,
)
    requires
        one.name()@ == other.name()@,
    ensures
        one is ProcessPartialEncodedChunk <==> other is ProcessPartialEncodedChunk,
        one is ProcessPartialEncodedChunkForward <==> other is ProcessPartialEncodedChunkForward,
        one is ProcessPartialEncodedChunkResponse <==> other is ProcessPartialEncodedChunkResponse,
        one is ProcessPartialEncodedChunkRequest <==> other is ProcessPartialEncodedChunkRequest,
{
    reveal_strlit("ProcessPartialEncodedChunk");
    reveal_strlit("ProcessPartialEncodedChunkForward");
    reveal_strlit("ProcessPartialEncodedChunkResponse");
    reveal_strlit("ProcessPartialEncodedChunkRequest");
    assert("ProcessPartialEncodedChunk"@.len() == 26);
    assert("ProcessPartialEncodedChunkForward"@[26] == 'F');
    assert("ProcessPartialEncodedChunkResponse"@.len() == 34);
    assert("ProcessPartialEncodedChunkRequest"@[26] == 'R');
}

} // verus!
