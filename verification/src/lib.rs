//! The request handling of a node's JSON RPC server.
pub mod answer_laws;
pub mod api;
pub mod config;
pub mod conversation_laws;
pub mod cors;
pub mod debug;
pub mod dispatch;
pub mod errors;
pub mod handler;
pub mod http;
pub mod json;
pub mod methods;
pub mod metrics;
pub mod node;
pub mod pages;
pub mod primitives;
pub mod query;
pub mod request_laws;
pub mod requests;
pub mod server;
pub mod shards_manager;
pub mod text;
pub mod transaction_laws;
pub mod transactions;
