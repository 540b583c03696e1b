use sovereign_node::cognitive::{CognitiveCore, CoreError};
use sovereign_node::license::LicenseError;
use sovereign_node::protocol::{Request, Response, PIPE_NAME};
use sovereign_node::service::{
    agent_id, core_response, dial_response, peers_listed_as, plan, wasm_response, SharedState, Task,
};
use sovereign_node::wasm::{WasmError, WasmRuntime, MAX_WASM_STACK};

fn text(s: &str) -> String {
    String::from(s)
}

#[test]
fn pipe_name_is_that_of_the_node() {
    assert_eq!(PIPE_NAME, r"\\.\pipe\SovereignNode");
}

#[test]
fn agent_id_falls_back_where_the_machine_has_none() {
    assert_eq!(agent_id(Some(text("abc-123"))), "abc-123");
    assert_eq!(agent_id(None), "fallback-id");
}

#[test]
fn fresh_state_knows_nothing_yet() {
    let state = SharedState::new();
    assert_eq!(state.peer_id, "Initializing...");
    assert_eq!(state.connections, 0);
    assert!(!state.license_active);
}

#[test]
fn peer_id_is_recorded_when_the_mesh_answers() {
    let mut state = SharedState::new();
    state.record_peer_id(None);
    assert_eq!(state.peer_id, "Initializing...");
    state.record_peer_id(Some(text("12D3KooWLocal")));
    assert_eq!(state.peer_id, "12D3KooWLocal");
    assert_eq!(state.connections, 0);
}

#[test]
fn ping_is_answered_at_once() {
    assert!(matches!(plan(Request::Ping), Task::Reply(Response::Pong)));
}

#[test]
fn requests_are_planned_by_their_kind() {
    assert!(matches!(plan(Request::GetStatus), Task::Status));
    assert!(matches!(plan(Request::MeshPeers), Task::MeshPeers));
    let query = Request::QueryCore { query: text("?[x] := x = 1"), params: serde_json::Value::Null };
    assert!(matches!(
        plan(query),
        Task::QueryCore { query, params } if query == "?[x] := x = 1" && params.is_null()
    ));
    let run = Request::RunWasm { path: text("/tmp/m.wasm"), input: text("in") };
    assert!(matches!(plan(run), Task::RunWasm { input } if input == "in"));
    let dial = Request::MeshDial { addr: text("/ip4/1.2.3.4/tcp/5") };
    assert!(matches!(plan(dial), Task::MeshDial { addr } if addr == "/ip4/1.2.3.4/tcp/5"));
    let verify = Request::VerifyLicense {
        tx_id: text("aa"),
        developer_addr: text("ignored"),
        required_sats: 7,
    };
    assert!(matches!(plan(verify), Task::VerifyLicense { tx_id } if tx_id == "aa"));
}

#[test]
fn status_reports_the_state() {
    let mut state = SharedState::new();
    state.record_peer_id(Some(text("12D3KooWLocal")));
    state.connections = 3;
    state.license_active = true;
    match state.status_response(1_234) {
        Response::Status(status) => {
            assert_eq!(status.uptime_ms, 1_234);
            assert_eq!(status.mesh_peer_id, "12D3KooWLocal");
            assert_eq!(status.mesh_connections, 3);
            assert!(status.license_active);
            assert_eq!(status.system_health, "OK");
        }
        other => panic!("unexpected response {:?}", other),
    }
}

#[test]
fn status_reports_the_low_64_bits_of_the_uptime() {
    let state = SharedState::new();
    let uptime = (1u128 << 64) + 5;
    assert!(matches!(state.status_response(uptime), Response::Status(s) if s.uptime_ms == 5));
    let uptime = u64::MAX as u128;
    assert!(matches!(state.status_response(uptime), Response::Status(s) if s.uptime_ms == u64::MAX));
}

#[test]
fn peers_are_listed_and_counted() {
    let mut state = SharedState::new();
    let response = state.peers_response(Some(vec![text("a"), text("b\"c")]));
    assert!(matches!(response, Response::MeshGeneric(t) if t == r#"["a", "b\"c"]"#));
    assert_eq!(state.connections, 2);
    let response = state.peers_response(Some(Vec::new()));
    assert!(matches!(response, Response::MeshGeneric(t) if t == "[]"));
    assert_eq!(state.connections, 0);
}

#[test]
fn missing_reply_of_the_mesh_is_a_timeout() {
    let mut state = SharedState::new();
    state.connections = 4;
    let response = state.peers_response(None);
    assert!(matches!(response, Response::Error(t) if t == "Mesh timeout"));
    assert_eq!(state.connections, 4);
}

#[test]
fn count_of_peers_keeps_its_low_32_bits() {
    let mut state = SharedState::new();
    let response = peers_listed_as(&mut state, 7, text("[...]"));
    assert!(matches!(response, Response::MeshGeneric(t) if t == "[...]"));
    assert_eq!(state.connections, 7);
    if let Ok(count) = usize::try_from(0x1_0000_0003u64) {
        peers_listed_as(&mut state, count, text(""));
        assert_eq!(state.connections, 3);
    }
}

#[test]
fn license_verdict_is_answered_and_recorded() {
    let mut state = SharedState::new();
    let response = state.license_response(Ok(Ok(true)));
    assert!(matches!(
        response,
        Response::LicenseResult { valid: true, details } if details == "Active"
    ));
    assert!(state.license_active);
    let response = state.license_response(Ok(Ok(false)));
    assert!(matches!(
        response,
        Response::LicenseResult { valid: false, details } if details == "Invalid"
    ));
    assert!(!state.license_active);
}

#[test]
fn failed_license_check_leaves_the_state() {
    let mut state = SharedState::new();
    state.license_active = true;
    let response = state.license_response(Ok(Err(LicenseError::InvalidTxid)));
    assert!(matches!(
        response,
        Response::Error(t) if t == "Verification Logic Failed: Invalid TxID"
    ));
    assert!(state.license_active);
    let failure = LicenseError::Network(text("Network error: refused"));
    let response = state.license_response(Ok(Err(failure)));
    assert!(matches!(
        response,
        Response::Error(t) if t == "Verification Logic Failed: Network error: refused"
    ));
    let response = state.license_response(Err(text("task 7 panicked")));
    assert!(matches!(response, Response::Error(t) if t == "Task Panicked: task 7 panicked"));
    assert!(state.license_active);
}

#[test]
fn dial_is_acknowledged() {
    assert!(matches!(dial_response(), Response::MeshGeneric(t) if t == "Dialing..."));
}

#[test]
fn query_outcome_is_passed_on() {
    let value = serde_json::Value::String(text("v"));
    assert!(matches!(core_response(Ok(value.clone())), Response::CoreResult(v) if v == value));
    assert!(matches!(core_response(Err(text("boom"))), Response::Error(t) if t == "boom"));
}

#[test]
fn module_outcome_is_passed_on() {
    assert!(matches!(wasm_response(Ok(Ok(text("out")))), Response::WasmOutput(t) if t == "out"));
    assert!(matches!(
        wasm_response(Ok(Err(WasmError::EngineUnavailable))),
        Response::Error(t) if t == "wasm engine unavailable"
    ));
    assert!(matches!(wasm_response(Err(text("joined"))), Response::Error(t) if t == "joined"));
}

#[test]
fn query_engine_answers_every_query_with_the_stub() {
    let mut core = CognitiveCore::new().unwrap();
    let params = serde_json::Value::Bool(true);
    let reply = core.run("?[a] := a = 2", params.clone()).unwrap();
    assert_eq!(reply.result, "stub_response");
    assert_eq!(reply.query, "?[a] := a = 2");
    assert_eq!(reply.params, params);
    assert_eq!(CoreError::Unavailable.message(), "query engine unavailable");
}

#[test]
fn sandbox_caps_the_stack_at_one_mebibyte() {
    let runtime = WasmRuntime::new().unwrap();
    assert_eq!(MAX_WASM_STACK, 1024 * 1024);
    assert_eq!(runtime.max_wasm_stack(), 1024 * 1024);
}

#[test]
fn sandbox_names_the_input() {
    let runtime = WasmRuntime::new().unwrap();
    assert_eq!(runtime.run_module(&[], "hello").unwrap(), "Stub WASM execution: input=hello");
    assert_eq!(runtime.run_module(&[0, 1], "").unwrap(), "Stub WASM execution: input=");
    assert_eq!(WasmError::EngineUnavailable.message(), "wasm engine unavailable");
}
