//! Resilient network communication core: error classification, proxy and TLS
//! configuration, retry bookkeeping and the WebSocket connection logic.

pub mod text;
pub mod error;
pub mod network;
pub mod native_error;
pub mod retry;
pub mod ws_config;
pub mod ws_backend;
pub mod ws_request;
pub mod ws_handle;
pub mod ws_event;
pub mod ws_machine;
pub mod ws_laws;
pub mod ws_codec;
pub mod ws_connect;
pub mod breaker;
pub mod http_request;
