use std::time::Instant;
use unc_jsonrpc::primitives::CryptoHash;
use unc_jsonrpc::shards_manager::{
    PartialEncodedChunk, PartialEncodedChunkForwardMsg, PartialEncodedChunkRequestMsg,
    PartialEncodedChunkResponseMsg, ShardsManagerRequestFromNetwork,
};

fn requests() -> Vec<(ShardsManagerRequestFromNetwork, &'static str)> {
    vec![
        (
            ShardsManagerRequestFromNetwork::ProcessPartialEncodedChunk(PartialEncodedChunk {
                encoded: vec![1],
            }),
            "ProcessPartialEncodedChunk",
        ),
        (
            ShardsManagerRequestFromNetwork::ProcessPartialEncodedChunkForward(
                PartialEncodedChunkForwardMsg { encoded: vec![2] },
            ),
            "ProcessPartialEncodedChunkForward",
        ),
        (
            ShardsManagerRequestFromNetwork::ProcessPartialEncodedChunkResponse {
                partial_encoded_chunk_response: PartialEncodedChunkResponseMsg {
                    encoded: vec![3],
                },
                received_time: Instant::now(),
            },
            "ProcessPartialEncodedChunkResponse",
        ),
        (
            ShardsManagerRequestFromNetwork::ProcessPartialEncodedChunkRequest {
                partial_encoded_chunk_request: PartialEncodedChunkRequestMsg { encoded: vec![4] },
                route_back: CryptoHash { base58: "11111111".to_string() },
            },
            "ProcessPartialEncodedChunkRequest",
        ),
    ]
}

#[test]
fn kinds_have_their_names() {
    for (request, expected) in requests() {
        let by_reference: &'static str = (&request).into();
        assert_eq!(by_reference, expected);
        let by_value: &'static str = request.into();
        assert_eq!(by_value, expected);
    }
}

#[test]
fn names_tell_the_kinds_apart() {
    let names: Vec<&'static str> =
        requests().into_iter().map(|(request, _)| request.into()).collect();
    for i in 0..names.len() {
        for j in 0..i {
            assert_ne!(names[i], names[j]);
        }
    }
}
