use simprint_runtime::api::{
    AuthCommandRequest, AuthCommandResponse, AuthInfo, EnvironmentCommandRequest,
    EnvironmentCommandResponse, EnvironmentStartRequest, HandshakeRequest, RuntimePhase,
    SyncCommandRequest, SyncCommandResponse, UserInfo,
};
use simprint_runtime::runtime::{
    cdp_endpoint, list_url, not_implemented, route, version_url, EnvironmentStep, Route,
    RuntimeState,
};
use simprint_runtime::topics::Topic;

fn start_request(uuid: &str) -> EnvironmentStartRequest {
    EnvironmentStartRequest {
        exe_path: None,
        env_uuid: uuid.to_string(),
        user_data_dir: format!("/tmp/{}", uuid),
        cookies: None,
        urls: None,
        proxy: None,
        fingerprint_config: None,
        accounts: None,
        display_id: None,
        window_position: None,
        window_size: None,
        extension_dirs: None,
    }
}

fn reply(step: EnvironmentStep) -> EnvironmentCommandResponse {
    match step {
        EnvironmentStep::Reply(r) => r,
        EnvironmentStep::Launch(_) => panic!("expected a reply"),
        EnvironmentStep::Stop { .. } => panic!("expected a reply"),
    }
}

fn stop(state: &mut RuntimeState, uuid: &str) -> EnvironmentCommandResponse {
    match state.environment_command(EnvironmentCommandRequest::StopEnvironment {
        env_uuid: uuid.to_string(),
    }) {
        EnvironmentStep::Stop { env_uuid, reply } => {
            assert_eq!(env_uuid, uuid);
            reply
        }
        _ => panic!("expected a stop"),
    }
}

fn endpoint_port(state: &mut RuntimeState, uuid: &str) -> Option<u16> {
    match reply(state.environment_command(EnvironmentCommandRequest::GetCdpEndpoint {
        env_uuid: uuid.to_string(),
    })) {
        EnvironmentCommandResponse::CdpEndpoint { endpoint } => endpoint.map(|e| e.port),
        other => panic!("unexpected {:?}", other),
    }
}

fn connected(state: &mut RuntimeState) -> Vec<String> {
    match reply(state.environment_command(EnvironmentCommandRequest::GetConnectedEnvironments)) {
        EnvironmentCommandResponse::ConnectedEnvironments { mut env_ids } => {
            env_ids.sort();
            env_ids
        }
        other => panic!("unexpected {:?}", other),
    }
}

fn snapshot(state: &RuntimeState) -> simprint_runtime::api::RuntimeStateSnapshot {
    state.snapshot(&"rid".to_string(), &"0.1.0".to_string(), 1_000, 1_500)
}

#[test]
fn fresh_state_is_booting_and_empty() {
    let state = RuntimeState::new();
    let s = snapshot(&state);
    assert_eq!(s.phase, RuntimePhase::Booting);
    assert_eq!(s.runtime_id, "rid");
    assert_eq!(s.runtime_version, "0.1.0");
    assert_eq!(s.booted_at_unix_ms, 1_000);
    assert_eq!(s.uptime_ms, 500);
    assert_eq!(s.context_id, None);
    assert_eq!(s.last_error, None);
    assert_eq!(s.module_count, 0);
}

#[test]
fn handshake_with_this_version_makes_the_runtime_ready() {
    let mut state = RuntimeState::new();
    let req = HandshakeRequest {
        protocol_version: 3,
        client_name: "app".into(),
        client_version: "1".into(),
    };
    let resp = state.handshake(&req, &"0.1.0".to_string(), &"rid".to_string()).unwrap();
    assert_eq!(resp.protocol_version, 3);
    assert_eq!(resp.runtime_version, "0.1.0");
    assert_eq!(resp.runtime_id, "rid");
    assert_eq!(snapshot(&state).phase, RuntimePhase::Ready);
}

#[test]
fn handshake_with_another_version_is_refused() {
    let mut state = RuntimeState::new();
    let req = HandshakeRequest {
        protocol_version: 2,
        client_name: "app".into(),
        client_version: "1".into(),
    };
    let e = state.handshake(&req, &"v".to_string(), &"id".to_string()).unwrap_err();
    assert_eq!(e, "Unsupported protocol version: 2");
    assert_eq!(snapshot(&state).phase, RuntimePhase::Booting);
}

#[test]
fn context_initialization_and_destruction() {
    let mut state = RuntimeState::new();
    let resp = state.initialize_context("ctx-1".to_string());
    assert_eq!(resp.context_id, "ctx-1");
    assert_eq!(resp.phase, "ready");
    let s = snapshot(&state);
    assert_eq!(s.phase, RuntimePhase::Ready);
    assert_eq!(s.context_id, Some("ctx-1".to_string()));

    state.finish_start("env".to_string(), Ok(9300));
    state.auth_command(AuthCommandRequest::SetAuthState {
        auth_info: AuthInfo { is_authenticated: true, access_token: Some("t".into()), user_info: None },
    });
    state.destroy_context();
    let s = snapshot(&state);
    assert_eq!(s.phase, RuntimePhase::Destroying);
    assert_eq!(s.context_id, None);
    assert_eq!(s.module_count, 0);
    assert_eq!(endpoint_port(&mut state, "env"), None);
    match state.auth_command(AuthCommandRequest::GetAuthState) {
        AuthCommandResponse::State { auth_info } => assert!(!auth_info.is_authenticated),
        other => panic!("unexpected {:?}", other),
    }
}

#[test]
fn start_hands_back_the_launch_request() {
    let mut state = RuntimeState::new();
    match state.environment_command(EnvironmentCommandRequest::StartEnvironment {
        request: start_request("a"),
    }) {
        EnvironmentStep::Launch(req) => assert_eq!(req.env_uuid, "a"),
        EnvironmentStep::Reply(r) => panic!("unexpected {:?}", r),
        EnvironmentStep::Stop { .. } => panic!("unexpected stop"),
    }
    assert_eq!(snapshot(&state).module_count, 0);
}

#[test]
fn started_environment_reports_its_endpoint() {
    let mut state = RuntimeState::new();
    match state.finish_start("a".to_string(), Ok(9876)) {
        EnvironmentCommandResponse::Started { endpoint } => {
            assert_eq!(endpoint.env_uuid, "a");
            assert_eq!(endpoint.host, "127.0.0.1");
            assert_eq!(endpoint.port, 9876);
            assert_eq!(endpoint.version_url, "http://127.0.0.1:9876/json/version");
            assert_eq!(endpoint.list_url, "http://127.0.0.1:9876/json/list");
            assert_eq!(endpoint.browser_ws_url, None);
        }
        other => panic!("unexpected {:?}", other),
    }
    assert_eq!(endpoint_port(&mut state, "a"), Some(9876));
    assert_eq!(endpoint_port(&mut state, "b"), None);
    assert_eq!(snapshot(&state).module_count, 1);
}

#[test]
fn failed_launch_is_only_acknowledged() {
    let mut state = RuntimeState::new();
    let r = state.finish_start("a".to_string(), Err("boom".to_string()));
    assert!(matches!(r, EnvironmentCommandResponse::Ack));
    assert_eq!(endpoint_port(&mut state, "a"), None);
}

#[test]
fn restarting_replaces_the_port() {
    let mut state = RuntimeState::new();
    state.finish_start("a".to_string(), Ok(9201));
    state.finish_start("b".to_string(), Ok(9202));
    state.finish_start("a".to_string(), Ok(9203));
    assert_eq!(endpoint_port(&mut state, "a"), Some(9203));
    assert_eq!(endpoint_port(&mut state, "b"), Some(9202));
    assert_eq!(connected(&mut state), vec!["a".to_string(), "b".to_string()]);
    assert_eq!(snapshot(&state).module_count, 2);
}

#[test]
fn stop_forgets_only_that_environment() {
    let mut state = RuntimeState::new();
    state.finish_start("a".to_string(), Ok(9201));
    state.finish_start("b".to_string(), Ok(9202));
    state.finish_start("c".to_string(), Ok(9203));
    let r = stop(&mut state, "b");
    assert!(matches!(r, EnvironmentCommandResponse::Ack));
    assert_eq!(endpoint_port(&mut state, "b"), None);
    assert_eq!(endpoint_port(&mut state, "a"), Some(9201));
    assert_eq!(endpoint_port(&mut state, "c"), Some(9203));
    assert_eq!(connected(&mut state), vec!["a".to_string(), "c".to_string()]);
    let r = stop(&mut state, "zzz");
    assert!(matches!(r, EnvironmentCommandResponse::Ack));
    assert_eq!(connected(&mut state).len(), 2);
}

#[test]
fn other_environment_commands_are_acknowledged() {
    let mut state = RuntimeState::new();
    state.finish_start("a".to_string(), Ok(9201));
    let cmds = vec![
        EnvironmentCommandRequest::BatchStopEnvironments { env_uuids: vec!["a".to_string()] },
        EnvironmentCommandRequest::GetEnvironmentStatus { env_uuid: "a".to_string() },
        EnvironmentCommandRequest::GetAllEnvironmentStatuses,
        EnvironmentCommandRequest::RefreshProxy { env_uuid: "a".to_string(), proxy: None },
        EnvironmentCommandRequest::BatchStartEnvironments { requests: vec![start_request("x")] },
    ];
    for c in cmds {
        assert!(matches!(reply(state.environment_command(c)), EnvironmentCommandResponse::Ack));
    }
    assert_eq!(connected(&mut state), vec!["a".to_string()]);
}

#[test]
fn auth_state_set_get_clear() {
    let mut state = RuntimeState::new();
    match state.auth_command(AuthCommandRequest::GetAuthState) {
        AuthCommandResponse::State { auth_info } => {
            assert!(!auth_info.is_authenticated);
            assert!(auth_info.access_token.is_none());
            assert!(auth_info.user_info.is_none());
        }
        other => panic!("unexpected {:?}", other),
    }
    let info = AuthInfo {
        is_authenticated: true,
        access_token: Some("tok".into()),
        user_info: Some(UserInfo {
            user_id: "u1".into(),
            username: "ann".into(),
            email: Some("a@b.c".into()),
        }),
    };
    assert!(matches!(
        state.auth_command(AuthCommandRequest::SetAuthState { auth_info: info }),
        AuthCommandResponse::Ack
    ));
    match state.auth_command(AuthCommandRequest::GetAuthState) {
        AuthCommandResponse::State { auth_info } => {
            assert!(auth_info.is_authenticated);
            assert_eq!(auth_info.access_token.as_deref(), Some("tok"));
            let u = auth_info.user_info.unwrap();
            assert_eq!(u.user_id, "u1");
            assert_eq!(u.username, "ann");
            assert_eq!(u.email.as_deref(), Some("a@b.c"));
        }
        other => panic!("unexpected {:?}", other),
    }
    assert!(matches!(
        state.auth_command(AuthCommandRequest::ClearAuthState),
        AuthCommandResponse::Ack
    ));
    match state.auth_command(AuthCommandRequest::GetAuthState) {
        AuthCommandResponse::State { auth_info } => assert!(!auth_info.is_authenticated),
        other => panic!("unexpected {:?}", other),
    }
}

#[test]
fn sync_commands_report_no_running_environments() {
    let state = RuntimeState::new();
    for c in [
        SyncCommandRequest::GetRunningEnvironments,
        SyncCommandRequest::StopSync,
        SyncCommandRequest::StartSync { master_env_id: "m".into(), slave_env_ids: vec!["s".into()] },
    ] {
        match state.sync_command(&c) {
            SyncCommandResponse::RunningEnvironments { environments } => assert!(environments.is_empty()),
            other => panic!("unexpected {:?}", other),
        }
    }
}

#[test]
fn shutdown_sets_the_phase() {
    let mut state = RuntimeState::new();
    state.finish_start("a".to_string(), Ok(9201));
    state.shutdown();
    let s = snapshot(&state);
    assert_eq!(s.phase, RuntimePhase::ShuttingDown);
    assert_eq!(s.module_count, 1);
}

#[test]
fn routes() {
    assert_eq!(route(Topic::Handshake), Route::Handshake);
    assert_eq!(route(Topic::InitializeContext), Route::InitializeContext);
    assert_eq!(route(Topic::DestroyContext), Route::DestroyContext);
    assert_eq!(route(Topic::GetState), Route::GetState);
    assert_eq!(route(Topic::EnvironmentCommand), Route::EnvironmentCommand);
    assert_eq!(route(Topic::AuthCommand), Route::AuthCommand);
    assert_eq!(route(Topic::SyncCommand), Route::SyncCommand);
    assert_eq!(route(Topic::Shutdown), Route::Shutdown);
    assert_eq!(route(Topic::RuntimeEvent), Route::NotImplemented);
    assert_eq!(not_implemented().message, "Not implemented");
}

#[test]
fn cdp_urls() {
    assert_eq!(version_url(9222), "http://127.0.0.1:9222/json/version");
    assert_eq!(list_url(0), "http://127.0.0.1:0/json/list");
    let e = cdp_endpoint("x".to_string(), 65535);
    assert_eq!(e.version_url, "http://127.0.0.1:65535/json/version");
    assert_eq!(e.env_uuid, "x");
}

#[test]
fn endpoint_and_auth_survive_unrelated_requests() {
    let mut state = RuntimeState::new();
    let started = match state.finish_start("a".to_string(), Ok(9555)) {
        EnvironmentCommandResponse::Started { endpoint } => endpoint,
        other => panic!("unexpected {:?}", other),
    };
    state.auth_command(AuthCommandRequest::SetAuthState {
        auth_info: AuthInfo { is_authenticated: true, access_token: Some("k".into()), user_info: None },
    });
    state.finish_start("b".to_string(), Ok(9556));
    stop(&mut state, "b");
    state.initialize_context("c".to_string());
    state.shutdown();
    match reply(state.environment_command(EnvironmentCommandRequest::GetCdpEndpoint {
        env_uuid: "a".to_string(),
    })) {
        EnvironmentCommandResponse::CdpEndpoint { endpoint: Some(e) } => {
            assert_eq!(e.env_uuid, started.env_uuid);
            assert_eq!(e.host, started.host);
            assert_eq!(e.port, started.port);
            assert_eq!(e.version_url, started.version_url);
            assert_eq!(e.list_url, started.list_url);
            assert_eq!(e.browser_ws_url, started.browser_ws_url);
        }
        other => panic!("unexpected {:?}", other),
    }
    match state.auth_command(AuthCommandRequest::GetAuthState) {
        AuthCommandResponse::State { auth_info } => {
            assert!(auth_info.is_authenticated);
            assert_eq!(auth_info.access_token.as_deref(), Some("k"));
        }
        other => panic!("unexpected {:?}", other),
    }
}
