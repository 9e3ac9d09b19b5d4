//! The runtime's state and what each request does to it.
//!
//! The program around the library decodes a request payload, calls the
//! matching method here, and encodes what comes back. Starting a browser is
//! the one step that needs outside work: `environment_command` hands back a
//! launch request, and `finish_start` records its outcome.

use vstd::prelude::*;
use vstd::string::StringExecFns;
use crate::api::{
    AuthCommandRequest, AuthCommandResponse, AuthInfo, CdpEndpointResponse, ContextResponse,
    EmptyPayload, EnvironmentCommandRequest, ErrorResponse, EnvironmentCommandResponse, EnvironmentStartRequest,
    HandshakeRequest, HandshakeResponse, RuntimePhase, RuntimeStateSnapshot, SyncCommandRequest,
    SyncCommandResponse,
};
use crate::environments::{EnvInfo, EnvRecord, EnvironmentTable};
use crate::protocol::PROTOCOL_VERSION;
use crate::topics::Topic;
use crate::text::{decimal, push_decimal, names_number, lemma_decimal_names};

verus! {

/// The address that CDP endpoints are served on.
pub open spec fn cdp_host() -> Seq<char> {
    "127.0.0.1"@
}

/// `http://127.0.0.1:{port}/json/version`
pub open spec fn cdp_version_url(port: u16) -> Seq<char> {
    "http://127.0.0.1:"@ + decimal(port as nat) + "/json/version"@
}

/// `http://127.0.0.1:{port}/json/list`
pub open spec fn cdp_list_url(port: u16) -> Seq<char> {
    "http://127.0.0.1:"@ + decimal(port as nat) + "/json/list"@
}

/// The two CDP URLs name the loopback address, the whole port in decimal, and
/// the version document or target list.
pub proof fn lemma_cdp_urls_name_port(port: u16)
    ensures
        exists|d: Seq<char>|
            #[trigger] names_number(d, port as int) && cdp_version_url(port) == "http://127.0.0.1:"@
                + d + "/json/version"@,
        exists|d: Seq<char>|
            #[trigger] names_number(d, port as int) && cdp_list_url(port) == "http://127.0.0.1:"@ + d
                + "/json/list"@,
{
    lemma_decimal_names(port as nat);
    let d = decimal(port as nat);
    assert(cdp_version_url(port) == "http://127.0.0.1:"@ + d + "/json/version"@);
    assert(cdp_list_url(port) == "http://127.0.0.1:"@ + d + "/json/list"@);
}

/// The endpoint of environment `env_uuid` whose browser listens on `port`.
pub open spec fn is_cdp_endpoint(e: CdpEndpointResponse, env_uuid: Seq<char>, port: u16) -> bool {
    &&& e.env_uuid@ == env_uuid
    &&& e.host@ == cdp_host()
    &&& e.port == port
    &&& e.version_url@ == cdp_version_url(port)
    &&& e.list_url@ == cdp_list_url(port)
    &&& e.browser_ws_url is None
}

/// The URL of the CDP version document on `port`.
pub fn version_url(port: u16) -> (s: String)
    ensures
        s@ == cdp_version_url(port),
{
    let mut s = String::from_str("http://127.0.0.1:");
    push_decimal(&mut s, port as u64);
    s.append("/json/version");
    s
}

/// The URL of the CDP target list on `port`.
pub fn list_url(port: u16) -> (s: String)
    ensures
        s@ == cdp_list_url(port),
{
    let mut s = String::from_str("http://127.0.0.1:");
    push_decimal(&mut s, port as u64);
    s.append("/json/list");
    s
}

/// The endpoint that a client uses to reach the browser of an environment.
pub fn cdp_endpoint(env_uuid: String, port: u16) -> (e: CdpEndpointResponse)
    ensures
        is_cdp_endpoint(e, env_uuid@, port),
{
    CdpEndpointResponse {
        env_uuid,
        host: String::from_str("127.0.0.1"),
        port,
        version_url: version_url(port),
        list_url: list_url(port),
        browser_ws_url: None,
    }
}

/// The optional string as an optional character sequence.
pub open spec fn opt_view(o: Option<String>) -> Option<Seq<char>> {
    match o {
        Some(s) => Some(s@),
        None => None,
    }
}

/// What the runtime state holds.
pub struct RuntimeView {
    pub phase: RuntimePhase,
    pub context_id: Option<Seq<char>>,
    pub auth_info: Option<AuthInfo>,
    pub environments: Map<Seq<char>, EnvRecord>,
}

/// The state of a freshly started runtime.
pub open spec fn initial_view() -> RuntimeView {
    RuntimeView {
        phase: RuntimePhase::Booting,
        context_id: None,
        auth_info: None,
        environments: Map::empty(),
    }
}

/// After a successful handshake.
pub open spec fn after_handshake(v: RuntimeView) -> RuntimeView {
    RuntimeView { phase: RuntimePhase::Ready, ..v }
}

/// After a context is initialized with id `context_id`.
pub open spec fn after_initialize(v: RuntimeView, context_id: Seq<char>) -> RuntimeView {
    RuntimeView { phase: RuntimePhase::Ready, context_id: Some(context_id), ..v }
}

/// After the context is destroyed: no context, no authentication, no environments.
pub open spec fn after_destroy(v: RuntimeView) -> RuntimeView {
    RuntimeView {
        phase: RuntimePhase::Destroying,
        context_id: None,
        auth_info: None,
        environments: Map::empty(),
    }
}

/// The record of an environment that has just started.
pub open spec fn started_record(env_uuid: Seq<char>, port: u16) -> EnvRecord {
    EnvRecord { name: env_uuid, status: "running"@, cdp_port: port }
}

/// After environment `env_uuid` started with its browser on `port`.
pub open spec fn after_start(v: RuntimeView, env_uuid: Seq<char>, port: u16) -> RuntimeView {
    RuntimeView {
        environments: v.environments.insert(env_uuid, started_record(env_uuid, port)),
        ..v
    }
}

/// After environment `env_uuid` is stopped.
pub open spec fn after_stop(v: RuntimeView, env_uuid: Seq<char>) -> RuntimeView {
    RuntimeView { environments: v.environments.remove(env_uuid), ..v }
}

/// After the authentication state is set (`Some`) or cleared (`None`).
pub open spec fn after_auth(v: RuntimeView, auth: Option<AuthInfo>) -> RuntimeView {
    RuntimeView { auth_info: auth, ..v }
}

/// After a shutdown request.
pub open spec fn after_shutdown(v: RuntimeView) -> RuntimeView {
    RuntimeView { phase: RuntimePhase::ShuttingDown, ..v }
}

/// The authentication state that a query answers with.
pub open spec fn reported_auth(v: RuntimeView) -> AuthInfo {
    match v.auth_info {
        Some(a) => a,
        None => AuthInfo { is_authenticated: false, access_token: None, user_info: None },
    }
}

/// The port that a CDP endpoint query reports for `env_uuid`, if the environment runs.
pub open spec fn endpoint_port(v: RuntimeView, env_uuid: Seq<char>) -> Option<u16> {
    if v.environments.contains_key(env_uuid) {
        Some(v.environments[env_uuid].cdp_port)
    } else {
        None
    }
}

/// The error text of a handshake with another protocol version.
pub open spec fn handshake_refusal(version: u8) -> Seq<char> {
    "Unsupported protocol version: "@ + decimal(version as nat)
}


/// After an environment starts on a port, a CDP endpoint query for it reports that port,
/// and queries for every other environment answer as before.
pub proof fn lemma_endpoint_after_start(v: RuntimeView, env_uuid: Seq<char>, port: u16, other: Seq<char>)
    ensures
        endpoint_port(after_start(v, env_uuid, port), env_uuid) == Some(port),
        other != env_uuid ==> endpoint_port(after_start(v, env_uuid, port), other) == endpoint_port(
            v,
            other,
        ),
{
}

/// Stopping an environment makes it unknown, whether or not it had been started,
/// and leaves every other environment as it was.
pub proof fn lemma_stop_forgets(v: RuntimeView, env_uuid: Seq<char>, port: u16, other: Seq<char>)
    ensures
        endpoint_port(after_stop(v, env_uuid), env_uuid) is None,
        after_stop(after_start(v, env_uuid, port), env_uuid).environments
            == v.environments.remove(env_uuid),
        other != env_uuid ==> endpoint_port(after_stop(v, env_uuid), other) == endpoint_port(v, other),
{
    assert(after_stop(after_start(v, env_uuid, port), env_uuid).environments
        =~= v.environments.remove(env_uuid));
}

/// An authentication state that is set is what a query reports until it is
/// cleared; after clearing, a query reports a signed-out client.
pub proof fn lemma_auth_set_get_clear(v: RuntimeView, auth: AuthInfo)
    ensures
        reported_auth(after_auth(v, Some(auth))) == auth,
        !reported_auth(after_auth(v, None)).is_authenticated,
        reported_auth(after_auth(v, None)).access_token is None,
        reported_auth(after_auth(v, None)).user_info is None,
{
}

/// Destroying the context leaves no context, no authentication and no
/// environment, whatever the state was.
pub proof fn lemma_destroy_resets(v: RuntimeView, env_uuid: Seq<char>)
    ensures
        after_destroy(v).context_id is None,
        !reported_auth(after_destroy(v)).is_authenticated,
        endpoint_port(after_destroy(v), env_uuid) is None,
        after_destroy(v).environments.dom().len() == 0,
{
}

/// A handshake, a context and a shutdown leave the environments and the
/// authentication state alone.
pub proof fn lemma_phase_changes_keep_environments(v: RuntimeView, context_id: Seq<char>)
    ensures
        after_handshake(v).environments == v.environments,
        after_initialize(v, context_id).environments == v.environments,
        after_shutdown(v).environments == v.environments,
        after_handshake(v).auth_info == v.auth_info,
        after_initialize(v, context_id).auth_info == v.auth_info,
{
}


/// Which handler a message goes to.
#[derive(Debug, Clone, Copy, PartialEq, Eq, Structural)]
pub enum Route {
    Handshake,
    InitializeContext,
    DestroyContext,
    GetState,
    EnvironmentCommand,
    AuthCommand,
    SyncCommand,
    Shutdown,
    /// No handler: answer with `NotImplemented`.
    NotImplemented,
}

/// The handler of each topic; runtime events are not handled.
pub open spec fn route_of(topic: Topic) -> Route {
    match topic {
        Topic::Handshake => Route::Handshake,
        Topic::InitializeContext => Route::InitializeContext,
        Topic::DestroyContext => Route::DestroyContext,
        Topic::GetState => Route::GetState,
        Topic::EnvironmentCommand => Route::EnvironmentCommand,
        Topic::AuthCommand => Route::AuthCommand,
        Topic::SyncCommand => Route::SyncCommand,
        Topic::Shutdown => Route::Shutdown,
        Topic::RuntimeEvent => Route::NotImplemented,
    }
}

/// The handler of a topic.
pub fn route(topic: Topic) -> (r: Route)
    ensures
        r == route_of(topic),
{
    match topic {
        Topic::Handshake => Route::Handshake,
        Topic::InitializeContext => Route::InitializeContext,
        Topic::DestroyContext => Route::DestroyContext,
        Topic::GetState => Route::GetState,
        Topic::EnvironmentCommand => Route::EnvironmentCommand,
        Topic::AuthCommand => Route::AuthCommand,
        Topic::SyncCommand => Route::SyncCommand,
        Topic::Shutdown => Route::Shutdown,
        Topic::RuntimeEvent => Route::NotImplemented,
    }
}

/// The payload that answers a topic without a handler.
pub fn not_implemented() -> (r: ErrorResponse)
    ensures
        r.message@ == "Not implemented"@,
{
    ErrorResponse { message: String::from_str("Not implemented") }
}

/// What a request does to the runtime state, as the methods of `RuntimeState` state it.
pub enum Effect {
    /// A successful handshake.
    Handshake,
    /// A context is initialized with this id.
    Initialize(Seq<char>),
    /// The context is destroyed.
    Destroy,
    /// An environment started with its browser on this port.
    Start(Seq<char>, u16),
    /// An environment is stopped.
    Stop(Seq<char>),
    /// The authentication state is set.
    SetAuth(AuthInfo),
    /// The authentication state is cleared.
    ClearAuth,
    /// Shutdown was requested.
    Shutdown,
    /// A request that leaves the state as it is: a query, a refused handshake,
    /// a failed launch, an acknowledged command.
    Keep,
}

/// The state after one request.
pub open spec fn apply(v: RuntimeView, e: Effect) -> RuntimeView {
    match e {
        Effect::Handshake => after_handshake(v),
        Effect::Initialize(c) => after_initialize(v, c),
        Effect::Destroy => after_destroy(v),
        Effect::Start(k, p) => after_start(v, k, p),
        Effect::Stop(k) => after_stop(v, k),
        Effect::SetAuth(a) => after_auth(v, Some(a)),
        Effect::ClearAuth => after_auth(v, None),
        Effect::Shutdown => after_shutdown(v),
        Effect::Keep => v,
    }
}

/// The state after a run of requests, in order.
pub open spec fn apply_all(v: RuntimeView, es: Seq<Effect>) -> RuntimeView
    decreases es.len(),
{
    if es.len() == 0 {
        v
    } else {
        apply_all(apply(v, es[0]), es.drop_first())
    }
}

/// The request starts, stops or forgets environment `env_uuid`.
pub open spec fn touches_environment(e: Effect, env_uuid: Seq<char>) -> bool {
    match e {
        Effect::Start(k, _) => k == env_uuid,
        Effect::Stop(k) => k == env_uuid,
        Effect::Destroy => true,
        _ => false,
    }
}

/// The request sets, clears or forgets the authentication state.
pub open spec fn touches_auth(e: Effect) -> bool {
    match e {
        Effect::SetAuth(_) | Effect::ClearAuth | Effect::Destroy => true,
        _ => false,
    }
}

/// Once an environment has started on a port, a CDP endpoint query for it reports
/// that port after any run of requests that neither starts nor stops it nor
/// destroys the context.
pub proof fn lemma_endpoint_persists(v: RuntimeView, env_uuid: Seq<char>, port: u16, es: Seq<Effect>)
    requires
        forall|i: int| 0 <= i < es.len() ==> !touches_environment(#[trigger] es[i], env_uuid),
    ensures
        endpoint_port(apply_all(after_start(v, env_uuid, port), es), env_uuid) == Some(port),
{
    lemma_endpoint_kept(after_start(v, env_uuid, port), env_uuid, port, es);
}

proof fn lemma_endpoint_kept(w: RuntimeView, env_uuid: Seq<char>, port: u16, es: Seq<Effect>)
    requires
        endpoint_port(w, env_uuid) == Some(port),
        forall|i: int| 0 <= i < es.len() ==> !touches_environment(#[trigger] es[i], env_uuid),
    ensures
        endpoint_port(apply_all(w, es), env_uuid) == Some(port),
    decreases es.len(),
{
    if es.len() > 0 {
        assert(!touches_environment(es[0], env_uuid));
        let w2 = apply(w, es[0]);
        assert(endpoint_port(w2, env_uuid) == Some(port));
        assert forall|i: int| 0 <= i < es.drop_first().len() implies !touches_environment(
            #[trigger] es.drop_first()[i],
            env_uuid,
        ) by {
            assert(es.drop_first()[i] == es[i + 1]);
        }
        lemma_endpoint_kept(w2, env_uuid, port, es.drop_first());
    }
}

/// Two endpoints of the same environment and port are the same, field by field.
pub proof fn lemma_endpoints_agree(
    a: CdpEndpointResponse,
    b: CdpEndpointResponse,
    env_uuid: Seq<char>,
    port: u16,
)
    requires
        is_cdp_endpoint(a, env_uuid, port),
        is_cdp_endpoint(b, env_uuid, port),
    ensures
        a.env_uuid@ == b.env_uuid@,
        a.host@ == b.host@,
        a.port == b.port,
        a.version_url@ == b.version_url@,
        a.list_url@ == b.list_url@,
        a.browser_ws_url == b.browser_ws_url,
{
}

/// An authentication state that is set is what a query reports after any run
/// of requests that neither sets nor clears it nor destroys the context.
pub proof fn lemma_auth_persists(v: RuntimeView, auth: AuthInfo, es: Seq<Effect>)
    requires
        forall|i: int| 0 <= i < es.len() ==> !touches_auth(#[trigger] es[i]),
    ensures
        reported_auth(apply_all(after_auth(v, Some(auth)), es)) == auth,
{
    lemma_auth_kept(after_auth(v, Some(auth)), auth, es);
}

proof fn lemma_auth_kept(w: RuntimeView, auth: AuthInfo, es: Seq<Effect>)
    requires
        w.auth_info == Some(auth),
        forall|i: int| 0 <= i < es.len() ==> !touches_auth(#[trigger] es[i]),
    ensures
        reported_auth(apply_all(w, es)) == auth,
    decreases es.len(),
{
    if es.len() > 0 {
        assert(!touches_auth(es[0]));
        let w2 = apply(w, es[0]);
        assert(w2.auth_info == Some(auth));
        assert forall|i: int| 0 <= i < es.drop_first().len() implies !touches_auth(
            #[trigger] es.drop_first()[i],
        ) by {
            assert(es.drop_first()[i] == es[i + 1]);
        }
        lemma_auth_kept(w2, auth, es.drop_first());
    }
}

/// What an environment command leads to.
pub enum EnvironmentStep {
    /// Answer with this response.
    Reply(EnvironmentCommandResponse),
    /// Launch a browser for this request, then call `finish_start`.
    Launch(EnvironmentStartRequest),
    /// Stop the browser of this environment, if one runs, then answer with `reply`.
    Stop { env_uuid: String, reply: EnvironmentCommandResponse },
}

/// The runtime's state.
pub struct RuntimeState {
    phase: RuntimePhase,
    context_id: Option<String>,
    auth_info: Option<AuthInfo>,
    environments: EnvironmentTable,
}

impl View for RuntimeState {
    type V = RuntimeView;

    closed spec fn view(&self) -> RuntimeView {
        RuntimeView {
            phase: self.phase,
            context_id: opt_view(self.context_id),
            auth_info: self.auth_info,
            environments: self.environments@,
        }
    }
}

impl RuntimeState {
    /// The state of a freshly started runtime.
    pub fn new() -> (s: Self)
        ensures
            s@ == initial_view(),
    {
        RuntimeState {
            phase: RuntimePhase::default(),
            context_id: None,
            auth_info: None,
            environments: EnvironmentTable::new(),
        }
    }

    /// Answers a handshake: a client speaking this protocol version puts the
    /// runtime in `Ready`; any other version is refused and nothing changes.
    pub fn handshake(
        &mut self,
        request: &HandshakeRequest,
        runtime_version: &String,
        runtime_id: &String,
    ) -> (r: Result<HandshakeResponse, String>)
        ensures
            request.protocol_version == PROTOCOL_VERSION ==> {
                &&& r matches Ok(resp) && {
                    &&& resp.protocol_version == PROTOCOL_VERSION
                    &&& resp.runtime_version@ == runtime_version@
                    &&& resp.runtime_id@ == runtime_id@
                }
                &&& final(self)@ == after_handshake(old(self)@)
            },
            request.protocol_version != PROTOCOL_VERSION ==> {
                &&& r matches Err(e) && e@ == handshake_refusal(request.protocol_version)
                &&& final(self)@ == old(self)@
            },
    {
        if request.protocol_version != PROTOCOL_VERSION {
            let mut e = String::from_str("Unsupported protocol version: ");
            push_decimal(&mut e, request.protocol_version as u64);
            return Err(e);
        }
        self.phase = RuntimePhase::Ready;
        Ok(
            HandshakeResponse {
                protocol_version: PROTOCOL_VERSION,
                runtime_version: runtime_version.clone(),
                runtime_id: runtime_id.clone(),
            },
        )
    }

    /// Starts a context with the given id; the runtime is then `Ready`.
    pub fn initialize_context(&mut self, context_id: String) -> (r: ContextResponse)
        ensures
            r.context_id@ == context_id@,
            r.phase@ == "ready"@,
            final(self)@ == after_initialize(old(self)@, context_id@),
    {
        self.phase = RuntimePhase::Ready;
        self.context_id = Some(context_id.clone());
        ContextResponse { context_id, phase: String::from_str("ready") }
    }

    /// Ends the context: forgets it, the authentication state and every environment.
    pub fn destroy_context(&mut self) -> (r: EmptyPayload)
        ensures
            final(self)@ == after_destroy(old(self)@),
    {
        self.phase = RuntimePhase::Destroying;
        self.context_id = None;
        self.auth_info = None;
        self.environments.clear();
        EmptyPayload {  }
    }

    /// The state as reported to clients, `now_unix_ms` being the current time.
    pub fn snapshot(
        &self,
        runtime_id: &String,
        runtime_version: &String,
        booted_at_unix_ms: u64,
        now_unix_ms: u64,
    ) -> (r: RuntimeStateSnapshot)
        requires
            booted_at_unix_ms <= now_unix_ms,
        ensures
            r.runtime_id@ == runtime_id@,
            r.runtime_version@ == runtime_version@,
            r.phase == self@.phase,
            r.booted_at_unix_ms == booted_at_unix_ms,
            r.uptime_ms == now_unix_ms - booted_at_unix_ms,
            opt_view(r.context_id) == self@.context_id,
            r.last_error is None,
            r.module_count == self@.environments.dom().len(),
    {
        RuntimeStateSnapshot {
            runtime_id: runtime_id.clone(),
            runtime_version: runtime_version.clone(),
            phase: self.phase,
            booted_at_unix_ms,
            uptime_ms: now_unix_ms - booted_at_unix_ms,
            context_id: match &self.context_id {
                Some(c) => Some(c.clone()),
                None => None,
            },
            last_error: None,
            module_count: self.environments.len(),
        }
    }

    /// Carries out an environment command. Starting an environment needs a
    /// browser launch, which is handed back; stopping forgets the environment and
    /// hands back the stop of its browser, to be answered with an acknowledgement;
    /// the two queries answer from the table; every other command is acknowledged.
    pub fn environment_command(&mut self, request: EnvironmentCommandRequest) -> (r:
        EnvironmentStep)
        ensures
            match request {
                EnvironmentCommandRequest::StartEnvironment { request: start } => {
                    &&& r matches EnvironmentStep::Launch(l) && l == start
                    &&& final(self)@ == old(self)@
                },
                EnvironmentCommandRequest::StopEnvironment { env_uuid } => {
                    &&& r matches EnvironmentStep::Stop { env_uuid: u, reply } && (u@ == env_uuid@
                        && reply is Ack)
                    &&& final(self)@ == after_stop(old(self)@, env_uuid@)
                },
                EnvironmentCommandRequest::GetConnectedEnvironments => {
                    &&& r matches EnvironmentStep::Reply(
                        EnvironmentCommandResponse::ConnectedEnvironments { env_ids },
                    ) && {
                        &&& env_ids@.len() == old(self)@.environments.dom().len()
                        &&& forall|i: int, j: int|
                            0 <= i < env_ids@.len() && 0 <= j < env_ids@.len() && i != j
                                ==> #[trigger] env_ids@[i]@ != #[trigger] env_ids@[j]@
                        &&& forall|i: int|
                            0 <= i < env_ids@.len() ==> old(self)@.environments.contains_key(
                                #[trigger] env_ids@[i]@,
                            )
                        &&& forall|k: Seq<char>|
                            #[trigger] old(self)@.environments.contains_key(k) ==> exists|i: int|
                                0 <= i < env_ids@.len() && #[trigger] env_ids@[i]@ == k
                    }
                    &&& final(self)@ == old(self)@
                },
                EnvironmentCommandRequest::GetCdpEndpoint { env_uuid } => {
                    &&& r matches EnvironmentStep::Reply(
                        EnvironmentCommandResponse::CdpEndpoint { endpoint },
                    ) && match endpoint {
                        Some(e) => endpoint_port(old(self)@, env_uuid@) matches Some(p)
                            && is_cdp_endpoint(e, env_uuid@, p),
                        None => endpoint_port(old(self)@, env_uuid@) is None,
                    }
                    &&& final(self)@ == old(self)@
                },
                _ => {
                    &&& r matches EnvironmentStep::Reply(EnvironmentCommandResponse::Ack)
                    &&& final(self)@ == old(self)@
                },
            },
    {
        match request {
            EnvironmentCommandRequest::StartEnvironment { request } => {
                EnvironmentStep::Launch(request)
            },
            EnvironmentCommandRequest::StopEnvironment { env_uuid } => {
                self.environments.remove(&env_uuid);
                EnvironmentStep::Stop { env_uuid, reply: EnvironmentCommandResponse::Ack }
            },
            EnvironmentCommandRequest::GetConnectedEnvironments => {
                let env_ids = self.environments.ids_vec();
                proof {
                    let ids = self.environments.ids();
                    assert forall|i: int, j: int|
                        0 <= i < env_ids@.len() && 0 <= j < env_ids@.len() && i != j implies #[trigger] env_ids@[i]@
                        != #[trigger] env_ids@[j]@ by {
                        assert(env_ids@[i]@ == ids[i]);
                        assert(env_ids@[j]@ == ids[j]);
                    }
                    assert forall|i: int| 0 <= i < env_ids@.len() implies self@.environments.contains_key(
                        #[trigger] env_ids@[i]@,
                    ) by {
                        assert(env_ids@[i]@ == ids[i]);
                        assert(ids.contains(ids[i]));
                    }
                    assert forall|k: Seq<char>| #[trigger] self@.environments.contains_key(k) implies exists|i: int|
                        0 <= i < env_ids@.len() && #[trigger] env_ids@[i]@ == k by {
                        assert(ids.contains(k));
                        let i = choose|i: int| 0 <= i < ids.len() && ids[i] == k;
                        assert(env_ids@[i]@ == k);
                    }
                }
                EnvironmentStep::Reply(EnvironmentCommandResponse::ConnectedEnvironments { env_ids })
            },
            EnvironmentCommandRequest::GetCdpEndpoint { env_uuid } => {
                let endpoint = match self.environments.port_of(&env_uuid) {
                    Some(port) => Some(cdp_endpoint(env_uuid, port)),
                    None => None,
                };
                EnvironmentStep::Reply(EnvironmentCommandResponse::CdpEndpoint { endpoint })
            },
            _ => EnvironmentStep::Reply(EnvironmentCommandResponse::Ack),
        }
    }

    /// Records the outcome of a browser launch for environment `env_uuid`: on
    /// success the environment is recorded as running on the port and its
    /// endpoint is returned; on failure the command is only acknowledged.
    pub fn finish_start(&mut self, env_uuid: String, launch: Result<u16, String>) -> (r:
        EnvironmentCommandResponse)
        ensures
            match launch {
                Ok(port) => {
                    &&& r matches EnvironmentCommandResponse::Started { endpoint } && is_cdp_endpoint(
                        endpoint,
                        env_uuid@,
                        port,
                    )
                    &&& final(self)@ == after_start(old(self)@, env_uuid@, port)
                },
                Err(_) => {
                    &&& r matches EnvironmentCommandResponse::Ack
                    &&& final(self)@ == old(self)@
                },
            },
    {
        match launch {
            Ok(port) => {
                let endpoint = cdp_endpoint(env_uuid.clone(), port);
                let info = EnvInfo {
                    name: env_uuid.clone(),
                    status: String::from_str("running"),
                    cdp_port: port,
                };
                self.environments.insert(env_uuid, info);
                EnvironmentCommandResponse::Started { endpoint }
            },
            Err(_) => EnvironmentCommandResponse::Ack,
        }
    }

    /// Carries out an authentication command.
    pub fn auth_command(&mut self, request: AuthCommandRequest) -> (r: AuthCommandResponse)
        ensures
            match request {
                AuthCommandRequest::SetAuthState { auth_info } => {
                    &&& r matches AuthCommandResponse::Ack
                    &&& final(self)@ == after_auth(old(self)@, Some(auth_info))
                },
                AuthCommandRequest::ClearAuthState => {
                    &&& r matches AuthCommandResponse::Ack
                    &&& final(self)@ == after_auth(old(self)@, None)
                },
                AuthCommandRequest::GetAuthState => {
                    &&& r matches AuthCommandResponse::State { auth_info } && auth_info
                        == reported_auth(old(self)@)
                    &&& final(self)@ == old(self)@
                },
            },
    {
        match request {
            AuthCommandRequest::SetAuthState { auth_info } => {
                self.auth_info = Some(auth_info);
                AuthCommandResponse::Ack
            },
            AuthCommandRequest::GetAuthState => {
                let auth_info = match &self.auth_info {
                    Some(a) => a.clone(),
                    None => AuthInfo::signed_out(),
                };
                AuthCommandResponse::State { auth_info }
            },
            AuthCommandRequest::ClearAuthState => {
                self.auth_info = None;
                AuthCommandResponse::Ack
            },
        }
    }

    /// Answers a sync command: there are never running environments to report.
    pub fn sync_command(&self, request: &SyncCommandRequest) -> (r: SyncCommandResponse)
        ensures
            r matches SyncCommandResponse::RunningEnvironments { environments } && environments@.len()
                == 0,
    {
        SyncCommandResponse::RunningEnvironments { environments: Vec::new() }
    }

    /// Marks the runtime as shutting down.
    pub fn shutdown(&mut self)
        ensures
            final(self)@ == after_shutdown(old(self)@),
    {
        self.phase = RuntimePhase::ShuttingDown;
    }
}

} // verus!
