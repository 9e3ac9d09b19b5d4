//! The request and response types that travel in message payloads.
//!
//! These are the plain types; the payload encoding of them is done by the
//! program around the library.

use vstd::prelude::*;
use std::collections::{BTreeMap, HashMap};

verus! {

/// `serde_json::Value`, a free-form JSON value that is only carried along.
#[verifier::external_type_specification]
#[verifier::external_body]
pub struct ExJsonValue(serde_json::Value);

/// Browser fingerprint settings; each field that is `None` is chosen by the runtime.
#[derive(Debug, Clone)]
pub struct FingerprintConfig {
    pub language: Option<String>,
    pub interface_language: Option<String>,
    pub timezone: Option<String>,
    pub platform: Option<String>,
    pub user_agent: Option<String>,
    pub sound: Option<bool>,
    pub images: Option<bool>,
    pub video: Option<bool>,
    pub window_width: Option<i32>,
    pub window_height: Option<i32>,
    pub canvas: Option<String>,
    pub webgl_vendor: Option<String>,
    pub webgl_renderer: Option<String>,
    pub font_list: Option<Vec<String>>,
    pub audio_context: Option<String>,
    pub webrtc: Option<String>,
    pub do_not_track: Option<bool>,
    pub hardware_concurrency: Option<i32>,
    pub device_memory: Option<i32>,
}

impl FingerprintConfig {
    /// Every setting is left to the runtime.
    pub open spec fn is_empty(&self) -> bool {
        &&& self.language is None
        &&& self.interface_language is None
        &&& self.timezone is None
        &&& self.platform is None
        &&& self.user_agent is None
        &&& self.sound is None
        &&& self.images is None
        &&& self.video is None
        &&& self.window_width is None
        &&& self.window_height is None
        &&& self.canvas is None
        &&& self.webgl_vendor is None
        &&& self.webgl_renderer is None
        &&& self.font_list is None
        &&& self.audio_context is None
        &&& self.webrtc is None
        &&& self.do_not_track is None
        &&& self.hardware_concurrency is None
        &&& self.device_memory is None
    }
}

impl Default for FingerprintConfig {
    fn default() -> (c: Self)
        ensures
            c.is_empty(),
    {
        FingerprintConfig {
            language: None,
            interface_language: None,
            timezone: None,
            platform: None,
            user_agent: None,
            sound: None,
            images: None,
            video: None,
            window_width: None,
            window_height: None,
            canvas: None,
            webgl_vendor: None,
            webgl_renderer: None,
            font_list: None,
            audio_context: None,
            webrtc: None,
            do_not_track: None,
            hardware_concurrency: None,
            device_memory: None,
        }
    }
}

/// The identity of the signed-in user.
#[derive(Debug)]
pub struct UserInfo {
    pub user_id: String,
    pub username: String,
    pub email: Option<String>,
}

/// The authentication state that the client hands to the runtime.
#[derive(Debug)]
pub struct AuthInfo {
    pub is_authenticated: bool,
    pub access_token: Option<String>,
    pub user_info: Option<UserInfo>,
}

fn clone_opt_string(s: &Option<String>) -> (r: Option<String>)
    ensures
        r == *s,
{
    match s {
        Some(v) => Some(v.clone()),
        None => None,
    }
}

impl Clone for UserInfo {
    fn clone(&self) -> (r: Self)
        ensures
            r == *self,
    {
        UserInfo {
            user_id: self.user_id.clone(),
            username: self.username.clone(),
            email: clone_opt_string(&self.email),
        }
    }
}

impl Clone for AuthInfo {
    fn clone(&self) -> (r: Self)
        ensures
            r == *self,
    {
        AuthInfo {
            is_authenticated: self.is_authenticated,
            access_token: clone_opt_string(&self.access_token),
            user_info: match &self.user_info {
                Some(u) => Some(u.clone()),
                None => None,
            },
        }
    }
}

impl AuthInfo {
    /// The state of a client that has not signed in.
    pub fn signed_out() -> (a: Self)
        ensures
            !a.is_authenticated,
            a.access_token is None,
            a.user_info is None,
    {
        AuthInfo { is_authenticated: false, access_token: None, user_info: None }
    }
}

#[derive(Debug, Clone)]
pub struct AccountConfig {
    pub url: String,
    pub username: String,
    pub password: String,
}

#[derive(Debug, Clone)]
pub struct CookieGroup {
    pub site: String,
    pub cookie_text: String,
}

#[derive(Debug, Clone, Copy)]
pub struct EmptyPayload {}

#[derive(Debug, Clone)]
pub struct ContextResponse {
    pub context_id: String,
    pub phase: String,
}

#[derive(Debug, Clone)]
pub struct HandshakeRequest {
    pub protocol_version: u8,
    pub client_name: String,
    pub client_version: String,
}

#[derive(Debug, Clone)]
pub struct HandshakeResponse {
    pub protocol_version: u8,
    pub runtime_version: String,
    pub runtime_id: String,
}

/// The context a client starts; `attributes` are free-form JSON values.
#[derive(Debug)]
pub struct RuntimeContextInput {
    pub user_id: Option<String>,
    pub workspace_id: Option<String>,
    pub auth_info: Option<AuthInfo>,
    pub attributes: BTreeMap<String, serde_json::Value>,
}

#[derive(Debug)]
pub struct InitializeContextRequest {
    pub context: RuntimeContextInput,
}

#[derive(Debug, Clone)]
pub struct DestroyContextRequest {
    pub reason: Option<String>,
}

#[derive(Debug, Clone)]
pub struct ErrorResponse {
    pub message: String,
}

/// The life cycle of the runtime.
#[derive(Debug, Clone, Copy, PartialEq, Eq, Structural)]
pub enum RuntimePhase {
    Booting,
    Uninitialized,
    Initializing,
    Ready,
    Destroying,
    ShuttingDown,
    Stopped,
    Failed,
}

impl Default for RuntimePhase {
    fn default() -> (p: Self)
        ensures
            p == RuntimePhase::Booting,
    {
        RuntimePhase::Booting
    }
}

#[derive(Debug, Clone)]
pub struct RuntimeStateSnapshot {
    pub runtime_id: String,
    pub runtime_version: String,
    pub phase: RuntimePhase,
    pub booted_at_unix_ms: u64,
    pub uptime_ms: u64,
    pub context_id: Option<String>,
    pub last_error: Option<String>,
    pub module_count: usize,
}

#[derive(Debug, Clone)]
pub struct StateResponse {
    pub state: RuntimeStateSnapshot,
}

/// An event the runtime emits; `payload` is a free-form JSON value.
#[derive(Debug)]
pub struct RuntimeEventEnvelope {
    pub name: String,
    pub emitted_at_unix_ms: u64,
    pub payload: serde_json::Value,
}

#[derive(Debug, Clone)]
pub struct RunningEnvironment {
    pub uuid: String,
    pub name: String,
    pub status: String,
}

#[derive(Debug, Clone)]
pub struct BrowserProxyConfigPayload {
    pub proxy_type: Option<String>,
    pub server: Option<String>,
    pub port: Option<u16>,
    pub username: Option<String>,
    pub password: Option<String>,
}

#[derive(Debug, Clone)]
pub struct EnvironmentStartRequest {
    pub exe_path: Option<String>,
    pub env_uuid: String,
    pub user_data_dir: String,
    pub cookies: Option<Vec<CookieGroup>>,
    pub urls: Option<Vec<String>>,
    pub proxy: Option<BrowserProxyConfigPayload>,
    pub fingerprint_config: Option<FingerprintConfig>,
    pub accounts: Option<Vec<AccountConfig>>,
    pub display_id: Option<String>,
    pub window_position: Option<String>,
    pub window_size: Option<String>,
    pub extension_dirs: Option<Vec<String>>,
}

#[derive(Debug, Clone)]
pub struct BatchLaunchResult {
    pub env_uuid: String,
    pub success: bool,
    pub error: Option<String>,
}

#[derive(Debug, Clone)]
pub struct CdpEndpointResponse {
    pub env_uuid: String,
    pub host: String,
    pub port: u16,
    pub version_url: String,
    pub list_url: String,
    pub browser_ws_url: Option<String>,
}

#[derive(Debug, Clone)]
pub struct WindowBoundsRequest {
    pub env_uuid: String,
    pub x: i32,
    pub y: i32,
    pub width: i32,
    pub height: i32,
}

#[derive(Debug, Clone)]
pub struct EnvironmentStatus {
    pub uuid: String,
    pub name: String,
    pub status: String,
}

#[derive(Debug, Clone)]
pub enum EnvironmentCommandRequest {
    StartEnvironment { request: EnvironmentStartRequest },
    BatchStartEnvironments { requests: Vec<EnvironmentStartRequest> },
    StopEnvironment { env_uuid: String },
    BatchStopEnvironments { env_uuids: Vec<String> },
    RefreshProxy { env_uuid: String, proxy: Option<BrowserProxyConfigPayload> },
    SetWindowBounds { request: WindowBoundsRequest },
    GetConnectedEnvironments,
    GetCdpEndpoint { env_uuid: String },
    GetEnvironmentStatus { env_uuid: String },
    GetAllEnvironmentStatuses,
}

#[derive(Debug, Clone)]
pub enum EnvironmentCommandResponse {
    Ack,
    Started { endpoint: CdpEndpointResponse },
    ConnectedEnvironments { env_ids: Vec<String> },
    CdpEndpoint { endpoint: Option<CdpEndpointResponse> },
    BatchLaunchResults { results: Vec<BatchLaunchResult> },
    Status { status: Option<EnvironmentStatus> },
    AllStatuses { statuses: HashMap<String, EnvironmentStatus> },
}

#[derive(Debug, Clone)]
pub struct EnvironmentResponse {
    pub result: EnvironmentCommandResponse,
}

#[derive(Debug, Clone)]
pub enum SyncCommandRequest {
    GetRunningEnvironments,
    StartSync { master_env_id: String, slave_env_ids: Vec<String> },
    StopSync,
}

#[derive(Debug, Clone)]
pub enum SyncCommandResponse {
    Ack,
    RunningEnvironments { environments: Vec<RunningEnvironment> },
}

#[derive(Debug, Clone)]
pub struct SyncResponse {
    pub result: SyncCommandResponse,
}

#[derive(Debug, Clone)]
pub enum AuthCommandRequest {
    SetAuthState { auth_info: AuthInfo },
    ClearAuthState,
    GetAuthState,
}

#[derive(Debug, Clone)]
pub enum AuthCommandResponse {
    Ack,
    State { auth_info: AuthInfo },
}

#[derive(Debug, Clone)]
pub struct AuthResponse {
    pub result: AuthCommandResponse,
}

} // verus!
