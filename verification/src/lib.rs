//! Connection-level runtime of a small RPC framework: framing, call
//! correlation, method dispatch and connection bookkeeping, with every rule
//! stated as a contract and proved.

pub mod buffer;
pub mod channel;
pub mod client;
pub mod codec;
pub mod codegen;
pub mod connection;
pub mod controller;
pub mod dispatcher;
pub mod echo;
pub mod laws;
pub mod message;
pub mod monitor;
pub mod protocol;
pub mod server;
pub mod service;
pub mod stub;
pub mod table;
pub mod text;
pub mod throughput;
pub mod varint;
