//! Client-side access layer for a remote inference service: endpoint
//! resolution, the per-call authorization interceptor and the error kinds
//! that construction and calls can end in.

pub mod client;
pub mod error;
pub mod interceptor;
pub mod laws;
pub mod metadata;
pub mod transport;
pub mod wasm_client;

pub use client::Client;
