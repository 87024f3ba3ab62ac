//! Host side of a sandboxed script runtime.
pub mod bytes;
pub mod codec;
pub mod columnar;
pub mod daemon_cluster;
pub mod daemon_dgram;
pub mod daemon_envelopes;
pub mod daemon_http;
pub mod daemon_http_outbound;
pub mod daemon_inspector;
pub mod daemon_net;
pub mod daemon_port_claims;
pub mod daemon_runtime;
pub mod daemon_sab;
pub mod daemon_shard_pool;
pub mod error;
pub mod host;
pub mod host_calls;
pub mod host_imports;
pub mod host_memory;
pub mod host_promises;
pub mod host_replies;
pub mod host_requests;
pub mod host_state;
pub mod host_values;
pub mod json;
pub mod manifold;
pub mod manifold_codec;
pub mod registry;
pub mod text;
pub mod wasm_engine;
pub mod wasm_loader;
