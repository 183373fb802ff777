//! Core logic of a private, authenticated peer-to-peer overlay node.
//!
//! The crate covers the pieces of a closed swarm deployment that are worth
//! stating precisely: the obfuscation of embedded secrets, the encrypted
//! local state store and its address book, the operator-signed command
//! envelope, the command registry with its built-in scripting command, the
//! operator CLI tokenizer, and the reaction table that drives a node's
//! behaviour on every swarm event. Network transports, disk and console I/O
//! live outside, in the surrounding application; they hand this crate plain
//! values and carry its decisions out.

pub mod address;
pub mod bytes;
pub mod cli;
pub mod codec;
pub mod commands;
pub mod crypto;
pub mod keygen;
pub mod obfuscate;
pub mod payload;
pub mod profile;
pub mod reactor;
pub mod text;
pub mod vault;
