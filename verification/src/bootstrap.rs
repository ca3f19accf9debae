//! The client side of the artifact server, as far as it decides anything:
//! which request follows which command or answer, with which credentials, and
//! what the player is told.
//!
//! Nothing here talks to a server. The host performs the requests that these
//! functions name and hands the answers back as events.

use std::collections::HashMap;
use vstd::prelude::*;
use vstd::string::StringExecFns;
use crate::bot_runtime::BOT_TARGET_TRIPLE;
use crate::game_api::{DriverType, SpawnCarRequest, SpawnResolvedCarRequest};
use crate::game_api::WebApiCommand;
use crate::text::{
    append_decimal,
    joined,
    nonempty,
    decimal,
    strip_trailing,
    trim,
    trimmed,
    end_trimmed,
    trim_end,
    without_trailing,
};

verus! {

/// How the game was started.
#[derive(Clone, Debug, Default)]
pub struct BootstrapConfig {
    /// Whether the game runs its own artifact server.
    pub standalone_mode: bool,
    /// The address that its own server binds to.
    pub standalone_bind: Option<String>,
}

/// What the server requires of its clients.
#[derive(Clone, Debug)]
pub struct ServerCapabilities {
    /// The authentication mode of the server, as it names it.
    pub mode: String,
    /// Whether requests must carry a token.
    pub auth_required: bool,
    /// Whether new users may register.
    pub registration_enabled: bool,
}

/// The answer to a successful login.
#[derive(Clone, Debug)]
pub struct LoginResponse {
    /// The token for further requests.
    pub token: String,
    /// The name of the user who logged in.
    pub username: String,
}

/// One artifact in the list of the server.
#[derive(Clone, Debug)]
pub struct ArtifactSummary {
    /// The identifier of the artifact.
    pub id: i64,
    /// Its name.
    pub name: String,
    /// Whether everybody may use it.
    pub is_public: bool,
}

/// The answer to a successful upload.
#[derive(Clone, Copy, Debug, PartialEq, Eq, Structural)]
pub struct UploadArtifactResponse {
    /// The identifier that the server gave to the artifact.
    pub artifact_id: i64,
}

/// An answer of the server, or the failure of a request.
#[derive(Debug)]
pub enum WebApiEvent {
    /// The capabilities of the server.
    Capabilities(Result<ServerCapabilities, String>),
    /// The outcome of a login.
    Login(Result<LoginResponse, String>),
    /// The list of artifacts.
    Artifacts(Result<Vec<ArtifactSummary>, String>),
    /// The outcome of an upload.
    UploadResult(Result<UploadArtifactResponse, String>),
    /// The outcome of a deletion.
    DeleteResult { artifact_id: i64, result: Result<(), String> },
    /// The outcome of a change of visibility.
    VisibilityResult { artifact_id: i64, is_public: bool, result: Result<(), String> },
}

/// A request to the server. What it carries besides its kind (the address of
/// the server, the token, the credentials) is taken from the portal state.
#[derive(Clone, Copy, Debug, PartialEq, Eq, Structural)]
pub enum WebRequest {
    /// Ask for the capabilities of the server.
    Capabilities,
    /// Log in with the credentials of the command line.
    Login,
    /// Ask for the list of artifacts.
    Artifacts,
    /// Upload an artifact.
    Upload,
    /// Delete the artifact `id`.
    Delete { id: i64 },
    /// Make the artifact `id` public or private.
    Visibility { id: i64, is_public: bool },
    /// Download the image of the artifact `id`.
    ArtifactElf { id: i64 },
}

/// A request together with the token that it is to carry.
#[derive(Clone, Debug)]
pub struct Dispatch {
    /// What is asked of the server.
    pub request: WebRequest,
    /// The token of the login, where the server requires one.
    pub token: Option<String>,
}

/// What a dispatch says: the request, and the text of its token.
pub struct DispatchView {
    /// What is asked of the server.
    pub request: WebRequest,
    /// The text of the token.
    pub token: Option<Seq<char>>,
}

impl View for Dispatch {
    type V = DispatchView;

    open spec fn view(&self) -> DispatchView {
        DispatchView { request: self.request, token: text_of(self.token) }
    }
}

/// What the host is to do after a command.
#[derive(Clone, Debug)]
pub enum PortalAction {
    /// Nothing.
    Idle,
    /// Perform the request.
    Fetch(Dispatch),
    /// Let the player pick the file to upload, then upload it with the token.
    PickArtifact { token: Option<String> },
}

/// What an action says, with texts in place of strings.
pub enum ActionView {
    /// Nothing.
    Idle,
    /// Perform the request.
    Fetch(DispatchView),
    /// Let the player pick the file to upload.
    PickArtifact { token: Option<Seq<char>> },
}

impl View for PortalAction {
    type V = ActionView;

    open spec fn view(&self) -> ActionView {
        match self {
            PortalAction::Idle => ActionView::Idle,
            PortalAction::Fetch(dispatch) => ActionView::Fetch(dispatch@),
            PortalAction::PickArtifact { token } => ActionView::PickArtifact {
                token: text_of(*token),
            },
        }
    }
}

/// The view of an optional dispatch.
pub open spec fn dispatch_of(value: Option<Dispatch>) -> Option<DispatchView> {
    match value {
        Some(dispatch) => Some(dispatch@),
        None => None,
    }
}

/// The method, address and authorization of a request.
#[derive(Clone, Debug)]
pub struct HttpRequest {
    /// The method, in capitals.
    pub method: String,
    /// The address.
    pub url: String,
    /// The value of the `Authorization` header, if the request carries one.
    pub authorization: Option<String>,
}

/// The text of an optional string.
pub open spec fn text_of(value: Option<String>) -> Option<Seq<char>> {
    match value {
        Some(text) => Some(text@),
        None => None,
    }
}

/// What the client knows of the server and tells the player.
#[derive(Debug)]
pub struct WebPortalState {
    /// The address of the server, without a path.
    pub server_url: String,
    /// Whether the game runs its own server.
    pub standalone_mode: bool,
    /// Whether the server requires a token; `None` until it has said so.
    pub auth_required: Option<bool>,
    /// The token of the current login.
    pub token: Option<String>,
    /// User name and password from the command line.
    pub cli_credentials: Option<(String, String)>,
    /// The artifacts that the server listed last.
    pub artifacts: Vec<ArtifactSummary>,
    /// The last message for the player.
    pub status_message: Option<String>,
}

/// The address of `path` on the server `base`: the path alone if the base is
/// blank, else the base without trailing slashes, followed by the path.
pub open spec fn spec_api_url(blank: bool, base: Seq<char>, path: Seq<char>) -> Seq<char> {
    if blank {
        path
    } else {
        without_trailing(base, '/') + path
    }
}

/// The address of `path` on the server `base`, where `blank` says whether the
/// base is blank.
pub fn api_url(blank: bool, base: &str, path: &str) -> (url: String)
    ensures
        url@ == spec_api_url(blank, base@, path@),
{
    if blank {
        String::from_str(path)
    } else {
        joined(strip_trailing(base, '/'), path)
    }
}

/// The address of `path` on the server `base`. A base is blank if trimming
/// leaves nothing of it.
pub open spec fn spec_web_api_url(base: Seq<char>, path: Seq<char>) -> Seq<char> {
    spec_api_url(trimmed(base).len() == 0, base, path)
}

/// The address of `path` on the server `base`.
pub fn web_api_url(base: &str, path: &str) -> (url: String)
    ensures
        url@ == spec_web_api_url(base@, path@),
{
    api_url(trim(base).is_empty(), base, path)
}

/// The path of a request on the server.
pub open spec fn spec_path(request: WebRequest) -> Seq<char> {
    match request {
        WebRequest::Capabilities => "/api/v1/capabilities"@,
        WebRequest::Login => "/api/v1/auth/login"@,
        WebRequest::Artifacts => "/api/v1/artifacts"@,
        WebRequest::Upload => "/api/v1/artifacts"@,
        WebRequest::Delete { id } => "/api/v1/artifacts/"@ + decimal(id as int),
        WebRequest::Visibility { id, .. } => "/api/v1/artifacts/"@ + decimal(id as int)
            + "/visibility"@,
        WebRequest::ArtifactElf { id } => "/api/v1/artifacts/"@ + decimal(id as int),
    }
}

/// The method of a request.
pub open spec fn spec_method(request: WebRequest) -> Seq<char> {
    match request {
        WebRequest::Capabilities => "GET"@,
        WebRequest::Login => "POST"@,
        WebRequest::Artifacts => "GET"@,
        WebRequest::Upload => "POST"@,
        WebRequest::Delete { .. } => "DELETE"@,
        WebRequest::Visibility { .. } => "PATCH"@,
        WebRequest::ArtifactElf { .. } => "GET"@,
    }
}

impl WebRequest {
    /// The path of the request on the server.
    pub fn path(&self) -> (path: String)
        ensures
            path@ == spec_path(*self),
    {
        match self {
            WebRequest::Capabilities => String::from_str("/api/v1/capabilities"),
            WebRequest::Login => String::from_str("/api/v1/auth/login"),
            WebRequest::Artifacts => String::from_str("/api/v1/artifacts"),
            WebRequest::Upload => String::from_str("/api/v1/artifacts"),
            WebRequest::Delete { id } => {
                let mut path: String = String::from_str("/api/v1/artifacts/");
                append_decimal(&mut path, *id);
                path
            },
            WebRequest::Visibility { id, .. } => {
                let mut path: String = String::from_str("/api/v1/artifacts/");
                append_decimal(&mut path, *id);
                path.append("/visibility");
                path
            },
            WebRequest::ArtifactElf { id } => {
                let mut path: String = String::from_str("/api/v1/artifacts/");
                append_decimal(&mut path, *id);
                path
            },
        }
    }

    /// The method of the request.
    pub fn method(&self) -> (method: String)
        ensures
            method@ == spec_method(*self),
    {
        match self {
            WebRequest::Capabilities => String::from_str("GET"),
            WebRequest::Login => String::from_str("POST"),
            WebRequest::Artifacts => String::from_str("GET"),
            WebRequest::Upload => String::from_str("POST"),
            WebRequest::Delete { .. } => String::from_str("DELETE"),
            WebRequest::Visibility { .. } => String::from_str("PATCH"),
            WebRequest::ArtifactElf { .. } => String::from_str("GET"),
        }
    }
}

/// A `GET` request to `url` that carries `token`, if there is one, as a
/// bearer token.
pub fn web_request_with_auth(url: String, token: Option<&str>) -> (request: HttpRequest)
    ensures
        request.method@ == "GET"@,
        request.url@ == url@,
        text_of(request.authorization) == match token {
            Some(token) => Some("Bearer "@ + token@),
            None => None,
        },
{
    let authorization: Option<String> = match token {
        Some(token) => Some(joined("Bearer ", token)),
        None => None,
    };
    HttpRequest { method: String::from_str("GET"), url, authorization }
}

/// What the player is told of an answer that is no success: the status code,
/// the status text and what the body says.
pub open spec fn spec_describe_response(
    status: u16,
    status_text: Seq<char>,
    body: Seq<char>,
) -> Seq<char> {
    "HTTP "@ + decimal(status as int) + " "@ + status_text + ": "@ + body
}

/// Describes an answer that is no success, from its status code, its status
/// text and what its body says.
pub fn describe_response(status: u16, status_text: &str, body: &str) -> (message: String)
    ensures
        message@ == spec_describe_response(status, status_text@, body@),
{
    let mut message: String = String::from_str("HTTP ");
    append_decimal(&mut message, status as i64);
    message.append(" ");
    message.append(status_text);
    message.append(": ");
    message.append(body);
    message
}

/// What the player is told of an answer that is no success. Of the body the
/// white space around it is left out.
pub open spec fn spec_response_error(status: u16, status_text: Seq<char>, body: Seq<char>) -> Seq<
    char,
> {
    spec_describe_response(status, status_text, trimmed(body))
}

/// Describes an answer that is no success.
pub fn response_error(status: u16, status_text: &str, body: &str) -> (message: String)
    ensures
        message@ == spec_response_error(status, status_text@, body@),
{
    describe_response(status, status_text, trim(body))
}

/// How a request ended.
#[derive(Clone, Debug)]
pub enum FetchOutcome {
    /// The server answered.
    Response {
        /// Whether the status code is a success.
        ok: bool,
        /// The status code.
        status: u16,
        /// The status text.
        status_text: String,
        /// The body, as text.
        body: String,
    },
    /// No answer arrived.
    NetworkError(String),
}

impl FetchOutcome {
    /// Why the request failed, or `None` if the server answered with a
    /// success.
    pub open spec fn spec_failure(&self) -> Option<Seq<char>> {
        match self {
            FetchOutcome::Response { ok, status, status_text, body } => if *ok {
                None
            } else {
                Some(spec_response_error(*status, status_text@, body@))
            },
            FetchOutcome::NetworkError(error) => Some("network error: "@ + error@),
        }
    }

    /// Why the request failed, or `None` if the server answered with a
    /// success.
    pub fn failure(&self) -> (failure: Option<String>)
        ensures
            text_of(failure) == self.spec_failure(),
    {
        match self {
            FetchOutcome::Response { ok, status, status_text, body } => {
                if *ok {
                    None
                } else {
                    Some(response_error(*status, status_text.as_str(), body.as_str()))
                }
            },
            FetchOutcome::NetworkError(error) => Some(joined("network error: ", error.as_str())),
        }
    }
}

/// The outcome of a request that carries no answer worth reading: done, or
/// why not.
pub open spec fn spec_done(outcome: &FetchOutcome) -> Result<(), Seq<char>> {
    match outcome.spec_failure() {
        Some(failure) => Err(failure),
        None => Ok(()),
    }
}

/// The text of the failure of such an outcome.
pub open spec fn done_of(result: Result<(), String>) -> Result<(), Seq<char>> {
    match result {
        Ok(_) => Ok(()),
        Err(error) => Err(error@),
    }
}

/// The event that the end of the deletion of artifact `artifact_id` makes.
pub fn delete_event(artifact_id: i64, outcome: &FetchOutcome) -> (event: WebApiEvent)
    ensures
        event matches WebApiEvent::DeleteResult { artifact_id: id, result } && id == artifact_id
            && done_of(result) == spec_done(outcome),
{
    let result: Result<(), String> = match outcome.failure() {
        Some(failure) => Err(failure),
        None => Ok(()),
    };
    WebApiEvent::DeleteResult { artifact_id, result }
}

/// The event that the end of a change of visibility of artifact
/// `artifact_id` makes.
pub fn visibility_event(artifact_id: i64, is_public: bool, outcome: &FetchOutcome) -> (event:
    WebApiEvent)
    ensures
        event matches WebApiEvent::VisibilityResult { artifact_id: id, is_public: public, result }
            && id == artifact_id && public == is_public && done_of(result) == spec_done(outcome),
{
    let result: Result<(), String> = match outcome.failure() {
        Some(failure) => Err(failure),
        None => Ok(()),
    };
    WebApiEvent::VisibilityResult { artifact_id, is_public, result }
}

/// What the player is told of an answer that cannot be read: which answer it
/// was, and why it cannot be read.
pub fn invalid_response(what: &str, error: &str) -> (message: String)
    ensures
        message@ == "invalid "@ + what@ + " response: "@ + error@,
{
    let mut message: String = joined("invalid ", what);
    message.append(" response: ");
    message.append(error);
    message
}

/// What a portal state says, with texts in place of strings.
pub struct PortalView {
    /// The address of the server.
    pub server_url: Seq<char>,
    /// Whether the game runs its own server.
    pub standalone_mode: bool,
    /// Whether the server requires a token.
    pub auth_required: Option<bool>,
    /// The token of the current login.
    pub token: Option<Seq<char>>,
    /// User name and password from the command line.
    pub cli_credentials: Option<(Seq<char>, Seq<char>)>,
    /// The artifacts that the server listed last.
    pub artifacts: Seq<ArtifactSummary>,
    /// The last message for the player.
    pub status_message: Option<Seq<char>>,
}

impl View for WebPortalState {
    type V = PortalView;

    open spec fn view(&self) -> PortalView {
        PortalView {
            server_url: self.server_url@,
            standalone_mode: self.standalone_mode,
            auth_required: self.auth_required,
            token: text_of(self.token),
            cli_credentials: match self.cli_credentials {
                Some((username, password)) => Some((username@, password@)),
                None => None,
            },
            artifacts: self.artifacts@,
            status_message: text_of(self.status_message),
        }
    }
}

/// The word for a visibility.
pub open spec fn spec_visibility(is_public: bool) -> Seq<char> {
    if is_public {
        "public"@
    } else {
        "private"@
    }
}

/// The word for a truth value.
pub open spec fn spec_truth(value: bool) -> Seq<char> {
    if value {
        "true"@
    } else {
        "false"@
    }
}

/// What the player is told when the server has named its capabilities.
pub open spec fn spec_connected(caps: &ServerCapabilities) -> Seq<char> {
    "[capabilities] Connected: mode="@ + caps.mode@ + ", auth_required="@ + spec_truth(
        caps.auth_required,
    ) + ", registration_enabled="@ + spec_truth(caps.registration_enabled)
}

impl PortalView {
    /// The state of a client that knows nothing of the server yet.
    pub open spec fn fresh(server_url: Seq<char>) -> PortalView {
        PortalView {
            server_url,
            standalone_mode: false,
            auth_required: None,
            token: None,
            cli_credentials: None,
            artifacts: Seq::empty(),
            status_message: None,
        }
    }

    /// The state with another message for the player.
    pub open spec fn with_status(self, status: Seq<char>) -> PortalView {
        PortalView { status_message: Some(status), ..self }
    }

    /// The token that a request is to carry: the token of the login where the
    /// server requires one, none where it requires none; or why no request
    /// can be made: there is no login, or the server has not yet said what it
    /// requires.
    pub open spec fn auth_token(self) -> Result<Option<Seq<char>>, Seq<char>> {
        match self.auth_required {
            Some(true) => match self.token {
                Some(token) => Ok(Some(token)),
                None => Err("[auth] Login required"@),
            },
            Some(false) => Ok(None),
            None => Err("[capabilities] Server capabilities not loaded yet"@),
        }
    }

    /// The request for the list of artifacts, if a request can be made.
    pub open spec fn refresh(self) -> Option<DispatchView> {
        match self.auth_token() {
            Ok(token) => Some(DispatchView { request: WebRequest::Artifacts, token }),
            Err(_) => None,
        }
    }

    /// State and action after a command of the player.
    ///
    /// Asking for the capabilities always goes out. Every other command first
    /// needs the capabilities: while they are unknown, they are asked for
    /// instead. Then it needs a token where the server requires one: without
    /// it the player is told why nothing happens.
    pub open spec fn after_command(self, command: WebApiCommand) -> (PortalView, ActionView) {
        let capabilities = ActionView::Fetch(
            DispatchView { request: WebRequest::Capabilities, token: None },
        );
        if command is RefreshCapabilities {
            (self.with_status("[capabilities] Loading server capabilities..."@), capabilities)
        } else if self.auth_required is None {
            (
                self.with_status("[capabilities] Checking server capabilities first..."@),
                capabilities,
            )
        } else {
            match self.auth_token() {
                Err(error) => (self.with_status(error), ActionView::Idle),
                Ok(token) => match command {
                    WebApiCommand::RefreshCapabilities => (self, ActionView::Idle),
                    WebApiCommand::LoadArtifacts => (
                        self.with_status("[load] Loading artifacts..."@),
                        ActionView::Fetch(DispatchView { request: WebRequest::Artifacts, token }),
                    ),
                    WebApiCommand::UploadArtifact => (self, ActionView::PickArtifact { token }),
                    WebApiCommand::DeleteArtifact { id } => (
                        self.with_status(
                            "[delete] Deleting artifact #"@ + decimal(id as int) + "..."@,
                        ),
                        ActionView::Fetch(
                            DispatchView { request: WebRequest::Delete { id }, token },
                        ),
                    ),
                    WebApiCommand::SetArtifactVisibility { id, is_public } => (
                        self.with_status(
                            "[visibility] Setting artifact #"@ + decimal(id as int) + " to "@
                                + spec_visibility(is_public) + "..."@,
                        ),
                        ActionView::Fetch(
                            DispatchView {
                                request: WebRequest::Visibility { id, is_public },
                                token,
                            },
                        ),
                    ),
                },
            }
        }
    }

    /// State and follow-up request after an answer of the server.
    ///
    /// Capabilities that require a token lead to a login, if there are
    /// credentials and no token yet. Every other success that can change the
    /// list of artifacts leads to a request for the list. A failure only
    /// changes the message.
    pub open spec fn after_event(self, event: &WebApiEvent) -> (PortalView, Option<DispatchView>) {
        match event {
            WebApiEvent::Capabilities(Ok(caps)) => {
                let known = PortalView { auth_required: Some(caps.auth_required), ..self };
                if caps.auth_required && self.token is None && self.cli_credentials is Some {
                    (
                        known.with_status(
                            "[auth] Logging in as '"@ + self.cli_credentials->Some_0.0 + "'..."@,
                        ),
                        Some(DispatchView { request: WebRequest::Login, token: None }),
                    )
                } else {
                    (known.with_status(spec_connected(caps)), known.refresh())
                }
            },
            WebApiEvent::Capabilities(Err(error)) => (
                self.with_status("[error][capabilities] Capability check failed: "@ + error@),
                None,
            ),
            WebApiEvent::Login(Ok(login)) => (
                (PortalView { token: Some(login.token@), ..self }).with_status(
                    "[auth] Logged in as "@ + login.username@,
                ),
                Some(DispatchView { request: WebRequest::Artifacts, token: Some(login.token@) }),
            ),
            WebApiEvent::Login(Err(error)) => (
                self.with_status("[error][auth] Login failed: "@ + error@),
                None,
            ),
            WebApiEvent::Artifacts(Ok(artifacts)) => (
                (PortalView { artifacts: artifacts@, ..self }).with_status(
                    "[load] Loaded "@ + decimal(artifacts@.len() as int) + " artifacts"@,
                ),
                None,
            ),
            WebApiEvent::Artifacts(Err(error)) => (
                self.with_status("[error][load] Loading artifacts failed: "@ + error@),
                None,
            ),
            WebApiEvent::UploadResult(Ok(upload)) => (
                self.with_status(
                    "[upload] Uploaded artifact #"@ + decimal(upload.artifact_id as int),
                ),
                self.refresh(),
            ),
            WebApiEvent::UploadResult(Err(error)) => (
                self.with_status("[error][upload] Upload failed: "@ + error@),
                None,
            ),
            WebApiEvent::DeleteResult { artifact_id, result: Ok(_) } => (
                self.with_status("[delete] Deleted artifact #"@ + decimal(*artifact_id as int)),
                self.refresh(),
            ),
            WebApiEvent::DeleteResult { artifact_id, result: Err(error) } => (
                self.with_status(
                    "[error][delete] Failed to delete artifact #"@ + decimal(*artifact_id as int)
                        + ": "@ + error@,
                ),
                None,
            ),
            WebApiEvent::VisibilityResult { artifact_id, is_public, result: Ok(_) } => (
                self.with_status(
                    "[visibility] Set artifact #"@ + decimal(*artifact_id as int) + " to "@
                        + spec_visibility(*is_public),
                ),
                self.refresh(),
            ),
            WebApiEvent::VisibilityResult { artifact_id, is_public, result: Err(error) } => (
                self.with_status(
                    "[error][visibility] Failed to update artifact #"@ + decimal(
                        *artifact_id as int,
                    ) + ": "@ + error@,
                ),
                None,
            ),
        }
    }
}

/// No command sends a request that needs a token without the token that the
/// state gives for it: whatever is dispatched besides the question for the
/// capabilities carries exactly the token of `auth_token`, and where that
/// fails nothing is dispatched at all.
pub proof fn lemma_commands_respect_the_login(state: PortalView, command: WebApiCommand)
    ensures
        match state.after_command(command).1 {
            ActionView::Idle => !(command is RefreshCapabilities),
            ActionView::Fetch(dispatch) => dispatch.request is Capabilities || state.auth_token()
                == Ok::<Option<Seq<char>>, Seq<char>>(dispatch.token),
            ActionView::PickArtifact { token } => state.auth_token() == Ok::<
                Option<Seq<char>>,
                Seq<char>,
            >(token),
        },
        state.auth_required == Some(true) && state.token is None && !(command
            is RefreshCapabilities) ==> state.after_command(command).1 is Idle,
{
}

/// No answer of the server leads to a request for the list of artifacts
/// without the token that the new state gives for it; and a login is only
/// tried where the server requires one and there are credentials.
pub proof fn lemma_events_respect_the_login(state: PortalView, event: &WebApiEvent)
    ensures
        match state.after_event(event).1 {
            None => true,
            Some(dispatch) => {
                ||| dispatch.request is Artifacts && state.after_event(event).0.auth_token()
                    == Ok::<Option<Seq<char>>, Seq<char>>(dispatch.token)
                ||| dispatch.request is Artifacts && event is Login && dispatch.token
                    == state.after_event(event).0.token
                ||| dispatch.request is Login && dispatch.token is None && state.after_event(
                    event,
                ).0.auth_required == Some(true) && state.cli_credentials is Some
            },
        },
{
}

/// The view of the outcome of `maybe_auth_token`.
pub open spec fn token_result(value: Result<Option<String>, String>) -> Result<
    Option<Seq<char>>,
    Seq<char>,
> {
    match value {
        Ok(token) => Ok(text_of(token)),
        Err(error) => Err(error@),
    }
}

/// The token that a request is to carry, or why no request can be made.
pub fn maybe_auth_token(web_state: &WebPortalState) -> (result: Result<Option<String>, String>)
    ensures
        token_result(result) == web_state@.auth_token(),
{
    match web_state.auth_required {
        Some(true) => match &web_state.token {
            Some(token) => Ok(Some(token.clone())),
            None => Err(String::from_str("[auth] Login required")),
        },
        Some(false) => Ok(None),
        None => Err(String::from_str("[capabilities] Server capabilities not loaded yet")),
    }
}

/// The first command of a session: ask the server for its capabilities.
pub fn trigger_initial_capability_check() -> (command: WebApiCommand)
    ensures
        command == WebApiCommand::RefreshCapabilities,
{
    WebApiCommand::RefreshCapabilities
}

fn visibility(is_public: bool) -> (word: &'static str)
    ensures
        word@ == spec_visibility(is_public),
{
    if is_public {
        "public"
    } else {
        "private"
    }
}

fn truth(value: bool) -> (word: &'static str)
    ensures
        word@ == spec_truth(value),
{
    if value {
        "true"
    } else {
        "false"
    }
}

fn prefixed(prefix: &str, id: i64) -> (text: String)
    ensures
        text@ == prefix@ + decimal(id as int),
{
    let mut text: String = String::from_str(prefix);
    append_decimal(&mut text, id);
    text
}

fn numbered(prefix: &str, id: i64, suffix: &str) -> (text: String)
    ensures
        text@ == prefix@ + decimal(id as int) + suffix@,
{
    let mut text: String = String::from_str(prefix);
    append_decimal(&mut text, id);
    text.append(suffix);
    text
}

impl WebPortalState {
    /// The state of a client of the server at `server_url` that knows nothing
    /// of the server yet.
    pub fn new(server_url: String) -> (state: WebPortalState)
        ensures
            state@ == PortalView::fresh(server_url@),
    {
        let state = WebPortalState {
            server_url,
            standalone_mode: false,
            auth_required: None,
            token: None,
            cli_credentials: None,
            artifacts: Vec::new(),
            status_message: None,
        };
        assert(state@.artifacts =~= Seq::<ArtifactSummary>::empty());
        state
    }

    fn refresh(&self) -> (dispatch: Option<Dispatch>)
        ensures
            dispatch_of(dispatch) == self@.refresh(),
    {
        match maybe_auth_token(self) {
            Ok(token) => Some(Dispatch { request: WebRequest::Artifacts, token }),
            Err(_) => None,
        }
    }

    /// Takes a command of the player: updates the message and names what the
    /// host is to do.
    pub fn handle_command(&mut self, command: WebApiCommand) -> (action: PortalAction)
        ensures
            (final(self)@, action@) == old(self)@.after_command(command),
    {
        if let WebApiCommand::RefreshCapabilities = command {
            self.status_message = Some(
                String::from_str("[capabilities] Loading server capabilities..."),
            );
            return PortalAction::Fetch(Dispatch { request: WebRequest::Capabilities, token: None });
        }
        if self.auth_required.is_none() {
            self.status_message = Some(
                String::from_str("[capabilities] Checking server capabilities first..."),
            );
            return PortalAction::Fetch(Dispatch { request: WebRequest::Capabilities, token: None });
        }
        let token: Option<String> = match maybe_auth_token(self) {
            Ok(token) => token,
            Err(error) => {
                self.status_message = Some(error);
                return PortalAction::Idle;
            },
        };
        match command {
            WebApiCommand::RefreshCapabilities => PortalAction::Idle,
            WebApiCommand::LoadArtifacts => {
                self.status_message = Some(String::from_str("[load] Loading artifacts..."));
                PortalAction::Fetch(Dispatch { request: WebRequest::Artifacts, token })
            },
            WebApiCommand::UploadArtifact => PortalAction::PickArtifact { token },
            WebApiCommand::DeleteArtifact { id } => {
                self.status_message = Some(numbered("[delete] Deleting artifact #", id, "..."));
                PortalAction::Fetch(Dispatch { request: WebRequest::Delete { id }, token })
            },
            WebApiCommand::SetArtifactVisibility { id, is_public } => {
                let mut text: String = numbered("[visibility] Setting artifact #", id, " to ");
                text.append(visibility(is_public));
                text.append("...");
                self.status_message = Some(text);
                PortalAction::Fetch(
                    Dispatch { request: WebRequest::Visibility { id, is_public }, token },
                )
            },
        }
    }

    /// Takes an answer of the server: updates the state and names the request
    /// that follows, if one does.
    pub fn handle_event(&mut self, event: WebApiEvent) -> (dispatch: Option<Dispatch>)
        ensures
            (final(self)@, dispatch_of(dispatch)) == old(self)@.after_event(&event),
    {
        match event {
            WebApiEvent::Capabilities(Ok(caps)) => {
                self.auth_required = Some(caps.auth_required);
                if caps.auth_required && self.token.is_none() {
                    if let Some((username, _)) = &self.cli_credentials {
                        let mut text: String = joined("[auth] Logging in as '", username.as_str());
                        text.append("'...");
                        self.status_message = Some(text);
                        return Some(Dispatch { request: WebRequest::Login, token: None });
                    }
                }
                let mut text: String = joined(
                    "[capabilities] Connected: mode=",
                    caps.mode.as_str(),
                );
                text.append(", auth_required=");
                text.append(truth(caps.auth_required));
                text.append(", registration_enabled=");
                text.append(truth(caps.registration_enabled));
                self.status_message = Some(text);
                self.refresh()
            },
            WebApiEvent::Capabilities(Err(error)) => {
                self.status_message = Some(
                    joined("[error][capabilities] Capability check failed: ", error.as_str()),
                );
                None
            },
            WebApiEvent::Login(Ok(login)) => {
                self.status_message = Some(joined("[auth] Logged in as ", login.username.as_str()));
                let token: String = login.token.clone();
                self.token = Some(login.token);
                Some(Dispatch { request: WebRequest::Artifacts, token: Some(token) })
            },
            WebApiEvent::Login(Err(error)) => {
                self.status_message = Some(joined("[error][auth] Login failed: ", error.as_str()));
                None
            },
            WebApiEvent::Artifacts(Ok(artifacts)) => {
                let count: usize = artifacts.len();
                let mut text: String = String::from_str("[load] Loaded ");
                crate::text::append_digits(&mut text, count as u64);
                text.append(" artifacts");
                self.artifacts = artifacts;
                self.status_message = Some(text);
                None
            },
            WebApiEvent::Artifacts(Err(error)) => {
                self.status_message = Some(
                    joined("[error][load] Loading artifacts failed: ", error.as_str()),
                );
                None
            },
            WebApiEvent::UploadResult(Ok(upload)) => {
                self.status_message = Some(
                    prefixed("[upload] Uploaded artifact #", upload.artifact_id),
                );
                self.refresh()
            },
            WebApiEvent::UploadResult(Err(error)) => {
                self.status_message = Some(
                    joined("[error][upload] Upload failed: ", error.as_str()),
                );
                None
            },
            WebApiEvent::DeleteResult { artifact_id, result } => match result {
                Ok(_) => {
                    self.status_message = Some(
                        prefixed("[delete] Deleted artifact #", artifact_id),
                    );
                    self.refresh()
                },
                Err(error) => {
                    let mut text: String = numbered(
                        "[error][delete] Failed to delete artifact #",
                        artifact_id,
                        ": ",
                    );
                    text.append(error.as_str());
                    self.status_message = Some(text);
                    None
                },
            },
            WebApiEvent::VisibilityResult { artifact_id, is_public, result } => match result {
                Ok(_) => {
                    let mut text: String = numbered(
                        "[visibility] Set artifact #",
                        artifact_id,
                        " to ",
                    );
                    text.append(visibility(is_public));
                    self.status_message = Some(text);
                    self.refresh()
                },
                Err(error) => {
                    let mut text: String = numbered(
                        "[error][visibility] Failed to update artifact #",
                        artifact_id,
                        ": ",
                    );
                    text.append(error.as_str());
                    self.status_message = Some(text);
                    None
                },
            },
        }
    }
}

/// The address that the game's own server binds to where none is given.
pub const DEFAULT_BIND: &'static str = "127.0.0.1:8787";

/// The address of the server where none is given.
pub const DEFAULT_SERVER_URL: &'static str = "http://127.0.0.1:8787";

/// The address of the server: `configured`, which the host takes from its
/// environment, or the default.
pub fn server_url_or_default(configured: Option<String>) -> (url: String)
    ensures
        url@ == match configured {
            Some(given) => given@,
            None => DEFAULT_SERVER_URL@,
        },
{
    match configured {
        Some(given) => given,
        None => String::from_str(DEFAULT_SERVER_URL),
    }
}

/// What the host is to do at start-up, before the first command.
#[derive(Debug)]
pub enum BootstrapStep {
    /// Start the game's own server on the given address.
    SpawnServer(String),
    /// Ask the player for user name and password.
    PromptCredentials,
}

/// Prepares the portal state for the way the game was started.
///
/// In standalone mode the game talks to its own server, which asks for no
/// login; the host is to start that server. Otherwise the state is left as
/// it is and the host is to ask for credentials.
pub fn initialize_bootstrap(config: &BootstrapConfig, web_state: &mut WebPortalState) -> (step:
    BootstrapStep)
    ensures
        match step {
            BootstrapStep::SpawnServer(bind) => {
                &&& config.standalone_mode
                &&& bind@ == match config.standalone_bind {
                    Some(given) => given@,
                    None => DEFAULT_BIND@,
                }
                &&& final(web_state)@ == (PortalView {
                    server_url: "http://"@ + bind@,
                    standalone_mode: true,
                    status_message: Some("Standalone mode: auth disabled"@),
                    ..old(web_state)@
                })
            },
            BootstrapStep::PromptCredentials => {
                &&& !config.standalone_mode
                &&& final(web_state)@ == old(web_state)@
            },
        },
{
    if config.standalone_mode {
        let bind: String = match &config.standalone_bind {
            Some(given) => given.clone(),
            None => String::from_str(DEFAULT_BIND),
        };
        web_state.server_url = joined("http://", bind.as_str());
        web_state.standalone_mode = true;
        web_state.status_message = Some(String::from_str("Standalone mode: auth disabled"));
        BootstrapStep::SpawnServer(bind)
    } else {
        BootstrapStep::PromptCredentials
    }
}

/// The user name in a line of input: the line without the white space around
/// it, or `None` if nothing is left.
pub fn parse_username(line: &str) -> (username: Option<String>)
    ensures
        text_of(username) == if trimmed(line@).len() == 0 {
            None
        } else {
            Some(trimmed(line@))
        },
{
    nonempty(trim(line))
}

/// The password in a line of input: the line without the white space at its
/// end, or `None` if nothing is left.
pub fn parse_password(line: &str) -> (password: Option<String>)
    ensures
        text_of(password) == if end_trimmed(line@).len() == 0 {
            None
        } else {
            Some(end_trimmed(line@))
        },
{
    nonempty(trim_end(line))
}

impl WebPortalState {
    /// Takes what the prompt for credentials gave: credentials, none, or a
    /// failure.
    pub fn apply_credentials(&mut self, prompt: Result<Option<(String, String)>, String>)
        ensures
            final(self)@ == match prompt {
                Ok(Some((username, password))) => (PortalView {
                    cli_credentials: Some((username@, password@)),
                    ..old(self)@
                }).with_status("Using CLI credentials for '"@ + username@ + "'"@),
                Ok(None) => old(self)@.with_status(
                    "No CLI credentials provided; remote auth may fail"@,
                ),
                Err(error) => old(self)@.with_status("CLI login prompt failed: "@ + error@),
            },
    {
        match prompt {
            Ok(Some((username, password))) => {
                let mut text: String = joined("Using CLI credentials for '", username.as_str());
                text.append("'");
                self.cli_credentials = Some((username, password));
                self.status_message = Some(text);
            },
            Ok(None) => {
                self.status_message = Some(
                    String::from_str("No CLI credentials provided; remote auth may fail"),
                );
            },
            Err(error) => {
                self.status_message = Some(joined("CLI login prompt failed: ", error.as_str()));
            },
        }
    }
}

/// The text that Base64 with the standard alphabet and padding gives for the
/// bytes.
pub uninterp spec fn base64_text(bytes: Seq<u8>) -> Seq<char>;

/// Calls `Engine::encode` of the `base64` crate on its `STANDARD` engine.
/// Believed, not proved: that the result depends on the bytes alone, so that
/// it can be named `base64_text`. The engine pads, so that every three bytes,
/// or what is left of them, give four characters; the call panics if that
/// count exceeds `usize`, which the precondition rules out.
#[verifier::external_body]
fn base64_encode(bytes: &[u8]) -> (text: String)
    requires
        encodable(bytes@.len()),
    ensures
        text@ == base64_text(bytes@),
{
    base64::Engine::encode(&base64::engine::general_purpose::STANDARD, bytes)
}

/// What is sent to the server with an upload.
#[derive(Debug)]
pub struct UploadArtifactRequest {
    /// The name of the artifact.
    pub name: String,
    /// A note for the artifact.
    pub note: Option<String>,
    /// The target that the artifact was built for.
    pub target: String,
    /// The image, Base64 encoded.
    pub elf_base64: String,
}

/// Whether an image of `len` bytes can be encoded for an upload.
pub open spec fn encodable(len: nat) -> bool {
    4 * ((len + 2) / 3) <= usize::MAX
}

/// Whether an image of `len` bytes can be encoded for an upload.
#[verifier::when_used_as_spec(encodable_len)]
pub fn is_encodable(len: usize) -> (fits: bool)
    ensures
        fits == encodable(len as nat),
{
    let groups: usize = len / 3;
    if len % 3 == 0 {
        groups <= usize::MAX / 4
    } else {
        groups < usize::MAX / 4
    }
}

/// Whether an image of `len` bytes can be encoded for an upload.
pub open spec fn encodable_len(len: usize) -> bool {
    encodable(len as nat)
}

/// The payload of an upload under `name`, without a note, for the bot target,
/// of an image whose encoding is `elf_base64`.
pub fn encoded_payload(name: String, elf_base64: String) -> (payload: UploadArtifactRequest)
    ensures
        payload.name@ == name@,
        payload.note is None,
        payload.target@ == BOT_TARGET_TRIPLE@,
        payload.elf_base64@ == elf_base64@,
{
    UploadArtifactRequest {
        name,
        note: None,
        target: String::from_str(BOT_TARGET_TRIPLE),
        elf_base64,
    }
}

/// The payload of the upload of the image `elf` under `name`, without a note,
/// for the bot target.
pub fn upload_payload(name: String, elf: &[u8]) -> (payload: UploadArtifactRequest)
    requires
        encodable(elf@.len()),
    ensures
        payload.name@ == name@,
        payload.note is None,
        payload.target@ == BOT_TARGET_TRIPLE@,
        payload.elf_base64@ == base64_text(elf@),
{
    encoded_payload(name, base64_encode(elf))
}

impl WebPortalState {
    /// Takes what picking a file gave: name and contents of a file, nothing,
    /// or a failure. Returns the payload of the upload, if there is one.
    pub fn begin_upload(&mut self, picked: Result<Option<(String, Vec<u8>)>, String>) -> (payload:
        Option<UploadArtifactRequest>)
        requires
            picked matches Ok(Some((_, bytes))) ==> encodable(bytes@.len()),
        ensures
            match picked {
                Ok(Some((name, bytes))) => {
                    &&& final(self)@ == old(self)@.with_status(
                        "[upload] Uploading '"@ + name@ + "'..."@,
                    )
                    &&& payload matches Some(upload) && upload.name@ == name@ && upload.note is None
                        && upload.target@ == BOT_TARGET_TRIPLE@ && upload.elf_base64@
                        == base64_text(bytes@)
                },
                Ok(None) => final(self)@ == old(self)@ && payload is None,
                Err(error) => final(self)@ == old(self)@.with_status(error@) && payload is None,
            },
    {
        match picked {
            Ok(Some((name, bytes))) => {
                let mut text: String = joined("[upload] Uploading '", name.as_str());
                text.append("'...");
                self.status_message = Some(text);
                Some(upload_payload(name, bytes.as_slice()))
            },
            Ok(None) => None,
            Err(error) => {
                self.status_message = Some(error);
                None
            },
        }
    }
}

/// The outcome of fetching the image of an artifact.
#[derive(Debug)]
pub struct CompileResult {
    /// The number of the request that asked for the image.
    pub id: u64,
    /// The name under which the image is known.
    pub binary: String,
    /// The image, or why it could not be had.
    pub result: Result<Vec<u8>, String>,
}

/// The outcome of the download of artifact `artifact_id` for request
/// `request_id`: the bytes of the answer, or the failure of the request.
pub fn artifact_fetch_result(
    request_id: u64,
    artifact_id: i64,
    failure: Option<String>,
    bytes: Vec<u8>,
) -> (outcome: CompileResult)
    ensures
        outcome.id == request_id,
        outcome.binary@ == "artifact_"@ + decimal(artifact_id as int),
        match failure {
            None => outcome.result matches Ok(image) && image@ == bytes@,
            Some(error) => outcome.result matches Err(reported) && reported@ == error@,
        },
{
    let binary: String = prefixed("artifact_", artifact_id);
    match failure {
        None => CompileResult { id: request_id, binary, result: Ok(bytes) },
        Some(error) => CompileResult { id: request_id, binary, result: Err(error) },
    }
}

/// The requests for images that are under way.
pub struct ArtifactFetchPipeline {
    /// The driver that each open request is for, by request number.
    pub pending: HashMap<u64, DriverType>,
    /// The number of the next request.
    pub next_request_id: u64,
}

impl ArtifactFetchPipeline {
    /// A pipeline without open requests, whose first request gets number 1.
    pub fn new() -> (pipeline: ArtifactFetchPipeline)
        ensures
            pipeline.pending@ == Map::<u64, DriverType>::empty(),
            pipeline.next_request_id == 1,
    {
        ArtifactFetchPipeline { pending: HashMap::new(), next_request_id: 1 }
    }
}

impl Default for ArtifactFetchPipeline {
    fn default() -> (pipeline: ArtifactFetchPipeline)
        ensures
            pipeline.pending@ == Map::<u64, DriverType>::empty(),
            pipeline.next_request_id == 1,
    {
        ArtifactFetchPipeline::new()
    }
}

/// Takes a request for a car. Before the race, and with a token where the
/// server requires one, the request gets the next number, is noted as open,
/// and the download of its image is named to the host. Without the token the
/// number is used up, but nothing is noted. Once the race has begun,
/// requests are dropped.
pub fn handle_spawn_car_request(
    fetch_pipeline: &mut ArtifactFetchPipeline,
    web_state: &mut WebPortalState,
    request: SpawnCarRequest,
    pre_race: bool,
) -> (download: Option<(u64, Dispatch)>)
    requires
        pre_race ==> old(fetch_pipeline).next_request_id < u64::MAX,
    ensures
        !pre_race ==> download is None && *final(fetch_pipeline) == *old(fetch_pipeline)
            && final(web_state)@ == old(web_state)@,
        pre_race ==> {
            let number = old(fetch_pipeline).next_request_id;
            let artifact = request.driver->id;
            &&& final(fetch_pipeline).next_request_id == number + 1
            &&& match old(web_state)@.auth_token() {
                Ok(token) => {
                    &&& final(fetch_pipeline).pending@ == old(fetch_pipeline).pending@.insert(
                        number,
                        request.driver,
                    )
                    &&& final(web_state)@ == old(web_state)@.with_status(
                        "Downloading artifact #"@ + decimal(artifact as int) + "..."@,
                    )
                    &&& download matches Some((id, dispatch)) && id == number && dispatch@ == (
                    DispatchView { request: WebRequest::ArtifactElf { id: artifact }, token })
                },
                Err(error) => {
                    &&& final(fetch_pipeline).pending@ == old(fetch_pipeline).pending@.remove(
                        number,
                    )
                    &&& final(web_state)@ == old(web_state)@.with_status(error)
                    &&& download is None
                },
            }
        },
{
    broadcast use vstd::std_specs::hash::group_hash_axioms;

    if !pre_race {
        return None;
    }
    let request_id: u64 = fetch_pipeline.next_request_id;
    fetch_pipeline.next_request_id = request_id + 1;
    fetch_pipeline.pending.insert(request_id, request.driver);
    match request.driver {
        DriverType::RemoteArtifact { id } => {
            match maybe_auth_token(web_state) {
                Ok(token) => {
                    web_state.status_message = Some(numbered("Downloading artifact #", id, "..."));
                    Some((request_id, Dispatch { request: WebRequest::ArtifactElf { id }, token }))
                },
                Err(error) => {
                    fetch_pipeline.pending.remove(&request_id);
                    web_state.status_message = Some(error);
                    assert(fetch_pipeline.pending@ =~= old(fetch_pipeline).pending@.remove(
                        request_id,
                    ));
                    None
                },
            }
        },
    }
}

/// Takes the outcome of a download. An outcome whose request is not open is
/// dropped. Otherwise the request is closed; an image that arrives before
/// the race yields the car to spawn, one that arrives later is discarded, and
/// a failure is reported.
pub fn process_artifact_fetch_result(
    fetch_pipeline: &mut ArtifactFetchPipeline,
    web_state: &mut WebPortalState,
    outcome: CompileResult,
    pre_race: bool,
) -> (spawn: Option<SpawnResolvedCarRequest>)
    ensures
        final(fetch_pipeline).next_request_id == old(fetch_pipeline).next_request_id,
        final(fetch_pipeline).pending@ == old(fetch_pipeline).pending@.remove(outcome.id),
        !old(fetch_pipeline).pending@.contains_key(outcome.id) ==> spawn is None
            && final(web_state)@ == old(web_state)@,
        old(fetch_pipeline).pending@.contains_key(outcome.id) ==> match outcome.result {
            Ok(image) => if pre_race {
                &&& final(web_state)@ == old(web_state)@.with_status(
                    "Loaded and spawned '"@ + outcome.binary@ + "'"@,
                )
                &&& spawn matches Some(car) && car.driver == old(
                    fetch_pipeline,
                ).pending@[outcome.id] && car.elf_bytes@ == image@ && car.binary_name@
                    == outcome.binary@
            } else {
                &&& final(web_state)@ == old(web_state)@.with_status(
                    "Discarded compiled '"@ + outcome.binary@ + "' result (race already started)"@,
                )
                &&& spawn is None
            },
            Err(error) => {
                &&& final(web_state)@ == old(web_state)@.with_status(
                    "Artifact load failed for '"@ + outcome.binary@ + "': "@ + error@,
                )
                &&& spawn is None
            },
        },
{
    broadcast use vstd::std_specs::hash::group_hash_axioms;

    let driver: DriverType = match fetch_pipeline.pending.remove(&outcome.id) {
        Some(driver) => driver,
        None => {
            assert(fetch_pipeline.pending@ =~= old(fetch_pipeline).pending@.remove(outcome.id));
            return None;
        },
    };
    match outcome.result {
        Ok(image) => {
            if !pre_race {
                let mut text: String = joined("Discarded compiled '", outcome.binary.as_str());
                text.append("' result (race already started)");
                web_state.status_message = Some(text);
                None
            } else {
                let mut text: String = joined("Loaded and spawned '", outcome.binary.as_str());
                text.append("'");
                web_state.status_message = Some(text);
                Some(
                    SpawnResolvedCarRequest {
                        driver,
                        elf_bytes: image,
                        binary_name: outcome.binary,
                    },
                )
            }
        },
        Err(error) => {
            let mut text: String = joined("Artifact load failed for '", outcome.binary.as_str());
            text.append("': ");
            text.append(error.as_str());
            web_state.status_message = Some(text);
            None
        },
    }
}

/// Method, address and authorization of a dispatch to the server at
/// `server_url`.
pub fn http_request(server_url: &str, dispatch: &Dispatch) -> (request: HttpRequest)
    ensures
        request.method@ == spec_method(dispatch.request),
        request.url@ == spec_web_api_url(server_url@, spec_path(dispatch.request)),
        text_of(request.authorization) == match dispatch@.token {
            Some(token) => Some("Bearer "@ + token),
            None => None,
        },
{
    let path: String = dispatch.request.path();
    let url: String = web_api_url(server_url, path.as_str());
    let token: Option<&str> = match &dispatch.token {
        Some(token) => Some(token.as_str()),
        None => None,
    };
    let mut request: HttpRequest = web_request_with_auth(url, token);
    request.method = dispatch.request.method();
    request
}

} // verus!
