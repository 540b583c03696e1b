//! The messages that clients exchange with the node.

use vstd::prelude::*;

verus! {

/// A JSON value.
#[verifier::external_type_specification]
#[verifier::external_body]
pub struct ExJsonValue(serde_json::Value);

/// The name of the pipe on which a Windows node serves its clients.
pub const PIPE_NAME: &'static str = "\\\\.\\pipe\\SovereignNode";

/// What a client may ask of the node.
#[derive(Debug)]
pub enum Request {
    /// Are you there?
    Ping,
    /// Report the node's condition.
    GetStatus,
    /// Run a Datalog query in the cognitive layer.
    QueryCore { query: String, params: serde_json::Value },
    /// Run a WebAssembly module in the compute layer.
    RunWasm { path: String, input: String },
    /// Connect the mesh to a peer.
    MeshDial { addr: String },
    /// List the mesh's connections.
    MeshPeers,
    /// Check for a valid license on the blockchain.
    VerifyLicense { tx_id: String, developer_addr: String, required_sats: u64 },
}

/// What the node answers.
#[derive(Debug)]
pub enum Response {
    /// The answer to `Ping`, and to anything that calls for no other.
    Pong,
    /// The node's condition.
    Status(NodeStatus),
    /// The result of a query.
    CoreResult(serde_json::Value),
    /// What a module printed.
    WasmOutput(String),
    /// A word from the mesh.
    MeshGeneric(String),
    /// The verdict on a license.
    LicenseResult { valid: bool, details: String },
    /// The request failed; the text says why.
    Error(String),
}

/// A snapshot of the node's condition, as reported to clients.
#[derive(Debug, Clone)]
pub struct NodeStatus {
    pub uptime_ms: u64,
    pub mesh_peer_id: String,
    pub mesh_connections: u32,
    pub license_active: bool,
    pub system_health: String,
}

} // verus!
