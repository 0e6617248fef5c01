//! Security core of a local signing daemon: an authenticated cipher with
//! self-describing nonce framing, a P-256 key-exchange engine, a
//! password-gated credential store and the request pipeline of the RPC
//! gateway that ties them together.

pub mod config;
pub mod hexstr;
pub mod logger;
pub mod rpc;
pub mod service;
pub mod text;
pub mod tls;
