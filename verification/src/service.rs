//! The node's service loop, as far as it decides anything: what a request
//! asks the node to do, how the shared state moves, and what is answered.
//! The caller owns the socket, the clock and the workers.

use vstd::prelude::*;
use vstd::string::*;
use crate::license::LicenseError;
use crate::protocol::{NodeStatus, Request, Response};
use crate::wasm::WasmError;

verus! {

/// What the node knows of itself between requests.
#[derive(Debug, Clone)]
pub struct SharedState {
    /// The mesh's peer identifier, once the mesh has told it.
    pub peer_id: String,
    /// The number of connected peers at the last count.
    pub connections: u32,
    /// Whether the last license check found a valid license.
    pub license_active: bool,
}

/// What a request asks the node to do before it can be answered.
#[derive(Debug)]
pub enum Task {
    /// Nothing: the answer is at hand.
    Reply(Response),
    /// Read the clock, then report the node's condition.
    Status,
    /// Run the query in the cognitive layer.
    QueryCore { query: String, params: serde_json::Value },
    /// Run a module on this input, off the loop.
    RunWasm { input: String },
    /// Tell the mesh to dial this address.
    MeshDial { addr: String },
    /// Ask the mesh for its peers.
    MeshPeers,
    /// Check this transaction as a license, off the loop.
    VerifyLicense { tx_id: String },
}

/// How std prints a list of strings for debugging.
pub uninterp spec fn debug_list(items: Seq<Seq<char>>) -> Seq<char>;

/// Formats a list of strings with `{:?}`. The result is std's debug text of
/// the list, which depends on the strings alone.
#[verifier::external_body]
fn debug_text(items: &Vec<String>) -> (text: String)
    ensures
        text@ == debug_list(items@.map_values(|item: String| item@)),
{
    format!("{:?}", items)
}

/// The machine's identifier, or `fallback-id` where the machine has none to
/// give.
pub fn agent_id(machine_uid: Option<String>) -> (id: String)
    ensures
        match machine_uid {
            Some(uid) => id == uid,
            None => id@ == "fallback-id"@,
        },
{
    match machine_uid {
        Some(uid) => uid,
        None => String::from_str("fallback-id"),
    }
}

/// The low 64 bits of a number of milliseconds.
pub open spec fn clipped_millis(millis: u128) -> u64 {
    (millis % 0x1_0000_0000_0000_0000) as u64
}

/// The low 32 bits of a count.
pub open spec fn clipped_count(count: nat) -> u32 {
    (count % 0x1_0000_0000) as u32
}

/// What a request asks the node to do. The path of a module and the
/// address and price of a license are not looked at: the node runs what it
/// is given and checks licenses against its own terms.
pub open spec fn task_for(request: Request, task: Task) -> bool {
    match request {
        Request::Ping => task matches Task::Reply(Response::Pong),
        Request::GetStatus => task is Status,
        Request::QueryCore { query, params } => task == (Task::QueryCore { query, params }),
        Request::RunWasm { path, input } => task == (Task::RunWasm { input }),
        Request::MeshDial { addr } => task == (Task::MeshDial { addr }),
        Request::MeshPeers => task is MeshPeers,
        Request::VerifyLicense { tx_id, developer_addr, required_sats } => {
            task == (Task::VerifyLicense { tx_id })
        },
    }
}

/// Decides what a request asks the node to do.
pub fn plan(request: Request) -> (task: Task)
    ensures
        task_for(request, task),
{
    match request {
        Request::GetStatus => Task::Status,
        Request::QueryCore { query, params } => Task::QueryCore { query, params },
        Request::RunWasm { path: _, input } => Task::RunWasm { input },
        Request::MeshDial { addr } => Task::MeshDial { addr },
        Request::MeshPeers => Task::MeshPeers,
        Request::VerifyLicense { tx_id, developer_addr: _, required_sats: _ } => {
            Task::VerifyLicense { tx_id }
        },
        Request::Ping => Task::Reply(Response::Pong),
    }
}

impl SharedState {
    /// The state of a node that has just started: no peer identifier yet, no
    /// connection, no license.
    pub fn new() -> (state: Self)
        ensures
            state.peer_id@ == "Initializing..."@,
            state.connections == 0,
            !state.license_active,
    {
        SharedState {
            peer_id: String::from_str("Initializing..."),
            connections: 0,
            license_active: false,
        }
    }

    /// Takes note of the mesh's answer to the question for its identifier.
    /// Without an answer the state stays as it is.
    pub fn record_peer_id(&mut self, reply: Option<String>)
        ensures
            match reply {
                Some(id) => final(self).peer_id == id,
                None => final(self).peer_id == old(self).peer_id,
            },
            final(self).connections == old(self).connections,
            final(self).license_active == old(self).license_active,
    {
        match reply {
            Some(id) => {
                self.peer_id = id;
            },
            None => {},
        }
    }

    /// Reports the node's condition after `uptime_ms` milliseconds of
    /// running. Of an uptime that does not fit in 64 bits the low 64 bits
    /// are reported.
    pub fn status_response(&self, uptime_ms: u128) -> (response: Response)
        ensures
            response matches Response::Status(status) && {
                &&& status.uptime_ms == clipped_millis(uptime_ms)
                &&& status.mesh_peer_id@ == self.peer_id@
                &&& status.mesh_connections == self.connections
                &&& status.license_active == self.license_active
                &&& status.system_health@ == "OK"@
            },
    {
        Response::Status(
            NodeStatus {
                uptime_ms: (uptime_ms % 0x1_0000_0000_0000_0000) as u64,
                mesh_peer_id: self.peer_id.clone(),
                mesh_connections: self.connections,
                license_active: self.license_active,
                system_health: String::from_str("OK"),
            },
        )
    }

    /// Answers a request for the mesh's peers, given the mesh's reply, and
    /// takes note of their number. Without a reply the state stays as it is
    /// and the answer is an error.
    pub fn peers_response(&mut self, reply: Option<Vec<String>>) -> (response: Response)
        ensures
            final(self).peer_id == old(self).peer_id,
            final(self).license_active == old(self).license_active,
            match reply {
                Some(peers) => {
                    &&& final(self).connections == clipped_count(peers@.len())
                    &&& response matches Response::MeshGeneric(text)
                    &&& text@ == debug_list(peers@.map_values(|item: String| item@))
                },
                None => {
                    &&& final(self).connections == old(self).connections
                    &&& response matches Response::Error(text)
                    &&& text@ == "Mesh timeout"@
                },
            },
    {
        match reply {
            Some(peers) => peers_listed(self, peers),
            None => Response::Error(String::from_str("Mesh timeout")),
        }
    }

    /// Answers a license check, given its outcome, and takes note of the
    /// verdict. `Err` at the outside stands for a check that broke down
    /// before it reached an outcome; the state then stays as it is, as it
    /// does when the check itself failed.
    pub fn license_response(
        &mut self,
        outcome: Result<Result<bool, LicenseError>, String>,
    ) -> (response: Response)
        ensures
            final(self).peer_id == old(self).peer_id,
            final(self).connections == old(self).connections,
            match outcome {
                Ok(Ok(valid)) => {
                    &&& final(self).license_active == valid
                    &&& response matches Response::LicenseResult { valid: verdict, details }
                    &&& verdict == valid
                    &&& details@ == if valid {
                        "Active"@
                    } else {
                        "Invalid"@
                    }
                },
                Ok(Err(e)) => {
                    &&& final(self).license_active == old(self).license_active
                    &&& response matches Response::Error(text)
                    &&& text@ == "Verification Logic Failed: "@ + e.text()
                },
                Err(reason) => {
                    &&& final(self).license_active == old(self).license_active
                    &&& response matches Response::Error(text)
                    &&& text@ == "Task Panicked: "@ + reason@
                },
            },
    {
        match outcome {
            Ok(Ok(valid)) => {
                self.license_active = valid;
                let details = if valid {
                    String::from_str("Active")
                } else {
                    String::from_str("Invalid")
                };
                Response::LicenseResult { valid, details }
            },
            Ok(Err(e)) => Response::Error(
                String::from_str("Verification Logic Failed: ").concat(e.message().as_str()),
            ),
            Err(reason) => Response::Error(
                String::from_str("Task Panicked: ").concat(reason.as_str()),
            ),
        }
    }
}

/// Takes note of a count of peers and answers with `listing`, the text that
/// lists them. Of a count that does not fit in 32 bits the low 32 bits are
/// kept.
pub fn peers_listed_as(state: &mut SharedState, count: usize, listing: String) -> (response:
    Response)
    ensures
        final(state).peer_id == old(state).peer_id,
        final(state).license_active == old(state).license_active,
        final(state).connections == clipped_count(count as nat),
        response == Response::MeshGeneric(listing),
{
    state.connections = ((count as u64) % 0x1_0000_0000) as u32;
    Response::MeshGeneric(listing)
}

fn peers_listed(state: &mut SharedState, peers: Vec<String>) -> (response: Response)
    ensures
        final(state).peer_id == old(state).peer_id,
        final(state).license_active == old(state).license_active,
        final(state).connections == clipped_count(peers@.len()),
        response matches Response::MeshGeneric(text) && text@ == debug_list(
            peers@.map_values(|item: String| item@),
        ),
{
    let listing = debug_text(&peers);
    peers_listed_as(state, peers.len(), listing)
}

/// The answer to a request to dial: the mesh has been told, and no more is
/// known.
pub fn dial_response() -> (response: Response)
    ensures
        response matches Response::MeshGeneric(text) && text@ == "Dialing..."@,
{
    Response::MeshGeneric(String::from_str("Dialing..."))
}

/// The answer to a query, given its outcome: the result, or the error's
/// text.
pub fn core_response(outcome: Result<serde_json::Value, String>) -> (response: Response)
    ensures
        match outcome {
            Ok(value) => response == Response::CoreResult(value),
            Err(reason) => response == Response::Error(reason),
        },
{
    match outcome {
        Ok(value) => Response::CoreResult(value),
        Err(reason) => Response::Error(reason),
    }
}

/// The answer to a request to run a module, given the outcome. `Err` at the
/// outside stands for a run that broke down before it reached an outcome.
pub fn wasm_response(outcome: Result<Result<String, WasmError>, String>) -> (response: Response)
    ensures
        match outcome {
            Ok(Ok(output)) => response == Response::WasmOutput(output),
            Ok(Err(e)) => response matches Response::Error(text) && text@
                == "wasm engine unavailable"@,
            Err(reason) => response == Response::Error(reason),
        },
{
    match outcome {
        Ok(Ok(output)) => Response::WasmOutput(output),
        Ok(Err(e)) => Response::Error(e.message()),
        Err(reason) => Response::Error(reason),
    }
}

} // verus!
