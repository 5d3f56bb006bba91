//! # zela-std: guest SDK for Zela custom procedures
//!
//! The verified core of the SDK: what a procedure sends to the host, what it makes of the host's
//! replies, and every decision in between. Nothing here performs I/O. The shell in `app/` makes
//! the host calls and hands the raw replies back to this crate.
//!
//! * [`poll`]: the bounded busy-poll that drives a procedure's future.
//! * [`host`]: replies of the host's `call-rpc` import and the two-layer result made of them.
//! * [`procedure`]: one run of a procedure, from parameter bytes to reply bytes.
//! * [`subscription`]: host subscriptions and the stream made of one.
//! * [`rpc_client`]: the Solana JSON-RPC client, one request and one reply function per method.
//! * [`laws`]: what the functions of the modules above do, stated over their arguments and results.
//! * [`bindings`]: the functions of other crates that the library calls, and what it assumes of
//!   each of them.

pub mod bindings;
pub mod constants;
pub mod host;
pub mod laws;
pub mod poll;
pub mod procedure;
pub mod rpc_client;
pub mod subscription;
pub mod text;
