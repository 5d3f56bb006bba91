//! The Solana JSON-RPC client.
//!
//! A method of [`RpcClient`](client::RpcClient) builds the request that goes to the host; a method
//! with the suffix `_reply` turns the host's raw reply into the result. Methods with the same reply
//! share it. They stand in [`transactions`], [`accounts`], [`tokens`], [`cluster`] and [`ledger`].
//! Methods that wait in a loop are state machines, in [`confirm`] and [`polling`].

pub mod accounts;
pub mod client;
pub mod cluster;
pub mod config;
pub mod confirm;
pub mod error;
pub mod keys;
pub mod ledger;
pub mod polling;
pub mod pubsub;
pub mod request;
pub mod response;
pub mod tokens;
pub mod transactions;
