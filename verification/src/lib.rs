//! Verified decision logic of a peer-to-peer node.
//!
//! The node keeps one encrypted overlay network, finds peers on the local
//! segment, and is driven by a single actor that owns the network engine.
//! Around it stand a service loop that clients talk to, a license check on
//! the Bitcoin blockchain, a query engine and a WebAssembly sandbox.
//!
//! This crate holds what the node decides and computes, each function with
//! its contract:
//!
//! - [`psk`]: the pre-shared key and the file format it is stored in;
//! - [`transport`]: the stages of the transport pipeline and their order;
//! - [`mesh`]: the mesh actor, from event to action;
//! - [`framing`]: the length-prefixed frames of the client protocol;
//! - [`protocol`] and [`service`]: requests, responses, and how a request is
//!   planned and answered;
//! - [`license`]: the audit of a transaction as a machine-bound license;
//! - [`cognitive`] and [`wasm`]: the query engine and the sandbox.
//!
//! Sockets, clocks, channels and the network engine itself belong to the
//! program that uses this crate.

pub mod bytes;
pub mod cognitive;
pub mod framing;
pub mod license;
pub mod mesh;
pub mod protocol;
pub mod psk;
pub mod service;
pub mod transport;
pub mod wasm;
