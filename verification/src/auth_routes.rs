//! The sign-in flow: login, the provider's callback, and logout.
//!
//! A login attempt is a state machine. The caller feeds it what happened
//! (a request arrived, the provider answered, the store answered) and gets
//! back the state reached and the one thing to do next: call the provider,
//! run a store command, or send a response. The machine itself never waits
//! and never fails: every trouble ends the attempt with a redirect to the
//! landing page that sets no cookie.

use vstd::prelude::*;
use crate::auth_dto::{
    landing_redirect, user_of_profile, OAuthRequest, ProviderProfile, ProviderProfileView,
    Redirect, RedirectView, User, FOUND, LANDING_PATH, TEMPORARY_REDIRECT,
};
use crate::cookie::{
    cookie_text, header_text, lemma_token_cookie, opt_str_text, session_cookie, session_token,
    token_in, token_text,
};
use crate::memory_store::{
    destroy_command_of, destroy_session_command, load_command_of, load_session,
    load_session_command, loaded, store_command_of, store_session, store_session_command, stored,
    BackendReply, BackendReplyView, StoreCommand, StoreCommandView, StoreError,
};
use crate::oauth::{
    authorize_url_text, provider_auth_url, provider_profile_url, provider_scopes, random_state,
    MultiOAuthProvider, OAuthClient, OAuthClientView, ProviderType, CSRF_STATE_LENGTH,
};
use crate::session::{Session, SessionView, UserEntryView, SESSION_ID_LENGTH};
use crate::text::owned;

verus! {

/// Why a login attempt ended without a session.
#[derive(Clone, Copy, Debug, PartialEq, Eq, Structural)]
pub enum FlowFailure {
    /// The callback carried no authorization code.
    InvalidRequest,
    /// The provider refused to exchange the code, or could not be reached.
    TokenExchange,
    /// The provider's profile could not be fetched, or is another provider's.
    ProfileFetch,
    /// The session token cannot be carried by a cookie.
    CookieRejected,
    /// The session could not be stored.
    Store { error: StoreError },
    /// Something happened that the attempt was not waiting for.
    UnexpectedEvent,
}

/// Where a login attempt stands.
#[derive(Debug, PartialEq, Eq)]
pub enum FlowState {
    /// Nothing has happened yet.
    Unauthenticated,
    /// The browser was sent to the provider, with `csrf_state` as the
    /// anti-forgery token of the request.
    AuthorizationRequested { provider: ProviderType, csrf_state: String },
    /// The provider sent the browser back with a code; its exchange is awaited.
    CallbackReceived { provider: ProviderType, code: String },
    /// The code was exchanged for an access token; the profile is awaited.
    TokenExchanged { provider: ProviderType, access_token: String },
    /// The profile arrived and became a session; the store's answer is awaited.
    ProfileFetched { session: Session },
    /// The session is stored and the cookie was issued.
    SessionEstablished { token: String },
    /// The attempt ended without a session.
    Failed { failure: FlowFailure },
}

/// What a `FlowState` holds, as mathematical values.
pub enum FlowStateView {
    Unauthenticated,
    AuthorizationRequested { provider: ProviderType, csrf_state: Seq<char> },
    CallbackReceived { provider: ProviderType, code: Seq<char> },
    TokenExchanged { provider: ProviderType, access_token: Seq<char> },
    ProfileFetched { session: SessionView },
    SessionEstablished { token: Seq<char> },
    Failed { failure: FlowFailure },
}

impl View for FlowState {
    type V = FlowStateView;

    open spec fn view(&self) -> FlowStateView {
        match self {
            FlowState::Unauthenticated => FlowStateView::Unauthenticated,
            FlowState::AuthorizationRequested { provider, csrf_state } => {
                FlowStateView::AuthorizationRequested {
                    provider: *provider,
                    csrf_state: csrf_state@,
                }
            },
            FlowState::CallbackReceived { provider, code } => FlowStateView::CallbackReceived {
                provider: *provider,
                code: code@,
            },
            FlowState::TokenExchanged { provider, access_token } => {
                FlowStateView::TokenExchanged { provider: *provider, access_token: access_token@ }
            },
            FlowState::ProfileFetched { session } => FlowStateView::ProfileFetched {
                session: session@,
            },
            FlowState::SessionEstablished { token } => FlowStateView::SessionEstablished {
                token: token@,
            },
            FlowState::Failed { failure } => FlowStateView::Failed { failure: *failure },
        }
    }
}

/// What happened since the last move of a login attempt.
#[derive(Debug, PartialEq, Eq)]
pub enum FlowEvent {
    /// The client asked to sign in with `provider`.
    LoginRequested { provider: ProviderType },
    /// The provider sent the browser back to the callback endpoint.
    CallbackArrived { provider: ProviderType, request: OAuthRequest },
    /// The provider exchanged the code for this access token.
    TokenGranted { access_token: String },
    /// The exchange failed: bad or expired code, network error, timeout.
    TokenDenied,
    /// The provider's profile endpoint answered with this profile.
    ProfileReceived { profile: ProviderProfile },
    /// The profile could not be fetched or read.
    ProfileUnavailable,
    /// The store answered the command that was out.
    StoreAnswered { reply: BackendReply },
}

/// What a `FlowEvent` holds, as mathematical values.
pub enum FlowEventView {
    LoginRequested { provider: ProviderType },
    CallbackArrived { provider: ProviderType, code: Seq<char>, state: Seq<char> },
    TokenGranted { access_token: Seq<char> },
    TokenDenied,
    ProfileReceived { profile: ProviderProfileView },
    ProfileUnavailable,
    StoreAnswered { reply: BackendReplyView },
}

impl View for FlowEvent {
    type V = FlowEventView;

    open spec fn view(&self) -> FlowEventView {
        match self {
            FlowEvent::LoginRequested { provider } => FlowEventView::LoginRequested {
                provider: *provider,
            },
            FlowEvent::CallbackArrived { provider, request } => FlowEventView::CallbackArrived {
                provider: *provider,
                code: request.code@,
                state: request.state@,
            },
            FlowEvent::TokenGranted { access_token } => FlowEventView::TokenGranted {
                access_token: access_token@,
            },
            FlowEvent::TokenDenied => FlowEventView::TokenDenied,
            FlowEvent::ProfileReceived { profile } => FlowEventView::ProfileReceived {
                profile: profile@,
            },
            FlowEvent::ProfileUnavailable => FlowEventView::ProfileUnavailable,
            FlowEvent::StoreAnswered { reply } => FlowEventView::StoreAnswered { reply: reply@ },
        }
    }
}

/// The one thing to do after a move of a login attempt.
#[derive(Debug, PartialEq, Eq)]
pub enum FlowAction {
    /// Send this response; the attempt is over or waits for the browser.
    Send { response: Redirect },
    /// Exchange `code` for an access token at the client's token endpoint.
    ExchangeCode { client: OAuthClient, code: String },
    /// Fetch the profile at `url`, authenticated with the bearer token.
    FetchProfile { url: String, access_token: String },
    /// Run the store command.
    Store { command: StoreCommand },
}

/// What a `FlowAction` holds, as mathematical values.
pub enum FlowActionView {
    Send { response: RedirectView },
    ExchangeCode { client: OAuthClientView, code: Seq<char> },
    FetchProfile { url: Seq<char>, access_token: Seq<char> },
    Store { command: StoreCommandView },
}

impl View for FlowAction {
    type V = FlowActionView;

    open spec fn view(&self) -> FlowActionView {
        match self {
            FlowAction::Send { response } => FlowActionView::Send { response: response@ },
            FlowAction::ExchangeCode { client, code } => FlowActionView::ExchangeCode {
                client: client@,
                code: code@,
            },
            FlowAction::FetchProfile { url, access_token } => FlowActionView::FetchProfile {
                url: url@,
                access_token: access_token@,
            },
            FlowAction::Store { command } => FlowActionView::Store { command: command@ },
        }
    }
}

/// One move of a login attempt: the state reached and what to do next.
#[derive(Debug, PartialEq, Eq)]
pub struct FlowStep {
    pub state: FlowState,
    pub action: FlowAction,
}

/// What a `FlowStep` holds, as mathematical values.
pub struct FlowStepView {
    pub state: FlowStateView,
    pub action: FlowActionView,
}

impl View for FlowStep {
    type V = FlowStepView;

    open spec fn view(&self) -> FlowStepView {
        FlowStepView { state: self.state@, action: self.action@ }
    }
}

/// The provider that a profile came from.
pub open spec fn profile_provider(profile: ProviderProfileView) -> ProviderType {
    match profile {
        ProviderProfileView::Discord(_) => ProviderType::Discord,
        ProviderProfileView::Google(_) => ProviderType::Google,
    }
}

/// The login response: a temporary redirect to the authorization URL that
/// is built from the provider's own authorization endpoint for the
/// registered client, asks for the provider's scopes, and carries `state` as
/// the anti-forgery token. It sets no cookie.
pub open spec fn login_response(
    registry: MultiOAuthProvider,
    provider: ProviderType,
    state: Seq<char>,
) -> RedirectView {
    let client = registry.client_view(provider);
    RedirectView {
        status: TEMPORARY_REDIRECT,
        location: authorize_url_text(
            provider_auth_url(provider),
            client.client_id,
            client.redirect_url,
            provider_scopes(provider),
            state,
        ),
        set_cookie: None,
    }
}

/// The response that ends a successful sign-in: a redirect to the landing
/// page that hands the session token to the browser.
pub open spec fn established_response(token: Seq<char>) -> RedirectView {
    RedirectView { status: FOUND, location: LANDING_PATH@, set_cookie: Some(cookie_text(token)) }
}

/// The move that ends an attempt without a session.
pub open spec fn flow_failed(failure: FlowFailure) -> FlowStepView {
    FlowStepView {
        state: FlowStateView::Failed { failure },
        action: FlowActionView::Send { response: landing_redirect() },
    }
}

/// The move on a callback: an empty code is refused before anything is
/// asked of the provider; any other code goes to the provider's token
/// endpoint. The anti-forgery token of the callback is not looked at.
pub open spec fn on_callback(
    registry: MultiOAuthProvider,
    provider: ProviderType,
    code: Seq<char>,
) -> FlowStepView {
    if code.len() == 0 {
        flow_failed(FlowFailure::InvalidRequest)
    } else {
        FlowStepView {
            state: FlowStateView::CallbackReceived { provider, code },
            action: FlowActionView::ExchangeCode { client: registry.client_view(provider), code },
        }
    }
}

/// The move on a granted access token: fetch the provider's profile with it.
pub open spec fn on_token(provider: ProviderType, access_token: Seq<char>) -> FlowStepView {
    FlowStepView {
        state: FlowStateView::TokenExchanged { provider, access_token },
        action: FlowActionView::FetchProfile { url: provider_profile_url(provider), access_token },
    }
}

/// The session that a profile becomes under the token `id`.
pub open spec fn session_for(profile: ProviderProfileView, id: Seq<char>) -> SessionView {
    SessionView { id, user: UserEntryView::Present(user_of_profile(profile)) }
}

/// The move on a fetched profile: it becomes a user and a session named
/// `id`, which goes to the store. A profile of another provider ends the
/// attempt, and so does an `id` that no cookie can carry: nothing is stored
/// for a session that could not be handed to the browser.
pub open spec fn on_profile(
    provider: ProviderType,
    profile: ProviderProfileView,
    id: Seq<char>,
) -> FlowStepView {
    if profile_provider(profile) != provider {
        flow_failed(FlowFailure::ProfileFetch)
    } else if !header_text(cookie_text(id)) {
        flow_failed(FlowFailure::CookieRejected)
    } else {
        FlowStepView {
            state: FlowStateView::ProfileFetched { session: session_for(profile, id) },
            action: FlowActionView::Store { command: store_command_of(session_for(profile, id)) },
        }
    }
}

/// The move on the store's answer: a written session is handed to the
/// browser by cookie; any other answer ends the attempt.
pub open spec fn on_stored(session: SessionView, reply: BackendReplyView) -> FlowStepView {
    match stored(session.id, reply) {
        Ok(_) => if header_text(cookie_text(session.id)) {
            FlowStepView {
                state: FlowStateView::SessionEstablished { token: session.id },
                action: FlowActionView::Send { response: established_response(session.id) },
            }
        } else {
            flow_failed(FlowFailure::CookieRejected)
        },
        Err(error) => flow_failed(FlowFailure::Store { error }),
    }
}

/// The move of a login attempt in `state` on `event`.
///
/// `nonce` is the random text that the move may need: the anti-forgery
/// token of a login, the session token of a fetched profile. A callback
/// starts from scratch, so it is accepted whether or not a login went
/// before, and the anti-forgery token that the login recorded is not
/// compared with the one that comes back. The two final states answer
/// every event with a redirect to the landing page and stay as they are.
pub open spec fn flow_step(
    registry: MultiOAuthProvider,
    state: FlowStateView,
    event: FlowEventView,
    nonce: Seq<char>,
) -> FlowStepView {
    match state {
        FlowStateView::Unauthenticated => match event {
            FlowEventView::LoginRequested { provider } => FlowStepView {
                state: FlowStateView::AuthorizationRequested { provider, csrf_state: nonce },
                action: FlowActionView::Send { response: login_response(registry, provider, nonce) },
            },
            FlowEventView::CallbackArrived { provider, code, state } => on_callback(
                registry,
                provider,
                code,
            ),
            _ => flow_failed(FlowFailure::UnexpectedEvent),
        },
        FlowStateView::AuthorizationRequested { provider, csrf_state } => match event {
            FlowEventView::CallbackArrived { provider, code, state } => on_callback(
                registry,
                provider,
                code,
            ),
            _ => flow_failed(FlowFailure::UnexpectedEvent),
        },
        FlowStateView::CallbackReceived { provider, code } => match event {
            FlowEventView::TokenGranted { access_token } => on_token(provider, access_token),
            FlowEventView::TokenDenied => flow_failed(FlowFailure::TokenExchange),
            _ => flow_failed(FlowFailure::UnexpectedEvent),
        },
        FlowStateView::TokenExchanged { provider, access_token } => match event {
            FlowEventView::ProfileReceived { profile } => on_profile(provider, profile, nonce),
            FlowEventView::ProfileUnavailable => flow_failed(FlowFailure::ProfileFetch),
            _ => flow_failed(FlowFailure::UnexpectedEvent),
        },
        FlowStateView::ProfileFetched { session } => match event {
            FlowEventView::StoreAnswered { reply } => on_stored(session, reply),
            _ => flow_failed(FlowFailure::UnexpectedEvent),
        },
        FlowStateView::SessionEstablished { token } => FlowStepView {
            state,
            action: FlowActionView::Send { response: landing_redirect() },
        },
        FlowStateView::Failed { failure } => FlowStepView {
            state,
            action: FlowActionView::Send { response: landing_redirect() },
        },
    }
}

/// Whether the move in `state` on `event` draws a session token.
pub open spec fn draws_session_token(state: FlowStateView, event: FlowEventView) -> bool {
    state is TokenExchanged && event is ProfileReceived
}

/// Whether the move in `state` on `event` draws an anti-forgery token.
pub open spec fn draws_login_state(state: FlowStateView, event: FlowEventView) -> bool {
    state is Unauthenticated && event is LoginRequested
}

/// The move that ends an attempt without a session.
fn fail(failure: FlowFailure) -> (step: FlowStep)
    ensures
        step@ == flow_failed(failure),
{
    FlowStep {
        state: FlowState::Failed { failure },
        action: FlowAction::Send { response: Redirect::to_landing() },
    }
}

/// The login response for `provider` with `state` as the anti-forgery
/// token: a temporary redirect to the provider's own authorization endpoint,
/// asking for the provider's scopes.
pub fn login_with_state(registry: &MultiOAuthProvider, provider: ProviderType, state: &str) -> (r:
    Redirect)
    ensures
        r@ == login_response(*registry, provider, state@),
{
    let client = registry.client(provider);
    let scopes = provider.scopes();
    let location = client.authorize_url(&scopes, state);
    Redirect { status: TEMPORARY_REDIRECT, location, set_cookie: None }
}

/// The login response for `provider`, with a freshly drawn anti-forgery
/// token of 22 characters.
pub fn login(registry: &MultiOAuthProvider, provider: ProviderType) -> (r: Redirect)
    ensures
        exists|state: Seq<char>|
            state.len() == CSRF_STATE_LENGTH && r@ == #[trigger] login_response(
                *registry,
                provider,
                state,
            ),
{
    let state = random_state();
    login_with_state(registry, provider, state.as_str())
}

/// The login response for Discord, with a freshly drawn anti-forgery token.
pub fn discord_login(registry: &MultiOAuthProvider) -> (r: Redirect)
    ensures
        exists|state: Seq<char>|
            state.len() == CSRF_STATE_LENGTH && r@ == #[trigger] login_response(
                *registry,
                ProviderType::Discord,
                state,
            ),
{
    login(registry, ProviderType::Discord)
}

/// The login response for Google, with a freshly drawn anti-forgery token.
pub fn google_login(registry: &MultiOAuthProvider) -> (r: Redirect)
    ensures
        exists|state: Seq<char>|
            state.len() == CSRF_STATE_LENGTH && r@ == #[trigger] login_response(
                *registry,
                ProviderType::Google,
                state,
            ),
{
    login(registry, ProviderType::Google)
}

/// The move on a callback.
fn callback_received(registry: &MultiOAuthProvider, provider: ProviderType, request: OAuthRequest) -> (step:
    FlowStep)
    ensures
        step@ == on_callback(*registry, provider, request.code@),
{
    if request.code.as_str().is_empty() {
        fail(FlowFailure::InvalidRequest)
    } else {
        let client = registry.client(provider);
        let code = request.code;
        FlowStep {
            state: FlowState::CallbackReceived { provider, code: code.clone() },
            action: FlowAction::ExchangeCode { client, code },
        }
    }
}

/// The move on a fetched profile.
fn profile_fetched(provider: ProviderType, profile: ProviderProfile, id: String) -> (step: FlowStep)
    ensures
        step@ == on_profile(provider, profile@, id@),
{
    let matches_provider = match (&profile, provider) {
        (ProviderProfile::Discord(_), ProviderType::Discord) => true,
        (ProviderProfile::Google(_), ProviderType::Google) => true,
        _ => false,
    };
    if !matches_provider {
        return fail(FlowFailure::ProfileFetch);
    }
    if session_cookie(id.as_str()).is_none() {
        return fail(FlowFailure::CookieRejected);
    }
    let ghost profile_view = profile@;
    let user = User::from_profile(profile);
    let mut session = Session::with_id(id);
    session.insert_user(user);
    assert(session@ == session_for(profile_view, id@));
    FlowStep {
        state: FlowState::ProfileFetched { session: session.clone() },
        action: FlowAction::Store { command: store_session_command(session) },
    }
}

/// The move on the store's answer.
fn session_stored(session: Session, reply: BackendReply) -> (step: FlowStep)
    ensures
        step@ == on_stored(session@, reply@),
{
    match store_session(session.id.as_str(), reply) {
        Ok(_) => match session_cookie(session.id.as_str()) {
            Some(cookie) => FlowStep {
                state: FlowState::SessionEstablished { token: session.id },
                action: FlowAction::Send {
                    response: Redirect {
                        status: FOUND,
                        location: owned(LANDING_PATH),
                        set_cookie: Some(cookie),
                    },
                },
            },
            None => fail(FlowFailure::CookieRejected),
        },
        Err(error) => fail(FlowFailure::Store { error }),
    }
}

/// The move of a login attempt in `state` on `event`, with `nonce` as the
/// random text for the moves that need one.
pub fn step_with(registry: &MultiOAuthProvider, state: FlowState, event: FlowEvent, nonce: String) -> (step:
    FlowStep)
    ensures
        step@ == flow_step(*registry, state@, event@, nonce@),
{
    match state {
        FlowState::Unauthenticated => match event {
            FlowEvent::LoginRequested { provider } => {
                let response = login_with_state(registry, provider, nonce.as_str());
                FlowStep {
                    state: FlowState::AuthorizationRequested { provider, csrf_state: nonce },
                    action: FlowAction::Send { response },
                }
            },
            FlowEvent::CallbackArrived { provider, request } => callback_received(
                registry,
                provider,
                request,
            ),
            _ => fail(FlowFailure::UnexpectedEvent),
        },
        FlowState::AuthorizationRequested { provider: _, csrf_state: _ } => match event {
            FlowEvent::CallbackArrived { provider, request } => callback_received(
                registry,
                provider,
                request,
            ),
            _ => fail(FlowFailure::UnexpectedEvent),
        },
        FlowState::CallbackReceived { provider, code: _ } => match event {
            FlowEvent::TokenGranted { access_token } => FlowStep {
                state: FlowState::TokenExchanged { provider, access_token: access_token.clone() },
                action: FlowAction::FetchProfile { url: owned(provider.profile_url()), access_token },
            },
            FlowEvent::TokenDenied => fail(FlowFailure::TokenExchange),
            _ => fail(FlowFailure::UnexpectedEvent),
        },
        FlowState::TokenExchanged { provider, access_token: _ } => match event {
            FlowEvent::ProfileReceived { profile } => profile_fetched(provider, profile, nonce),
            FlowEvent::ProfileUnavailable => fail(FlowFailure::ProfileFetch),
            _ => fail(FlowFailure::UnexpectedEvent),
        },
        FlowState::ProfileFetched { session } => match event {
            FlowEvent::StoreAnswered { reply } => session_stored(session, reply),
            _ => fail(FlowFailure::UnexpectedEvent),
        },
        FlowState::SessionEstablished { token } => FlowStep {
            state: FlowState::SessionEstablished { token },
            action: FlowAction::Send { response: Redirect::to_landing() },
        },
        FlowState::Failed { failure } => FlowStep {
            state: FlowState::Failed { failure },
            action: FlowAction::Send { response: Redirect::to_landing() },
        },
    }
}

/// The move of a login attempt in `state` on `event`. The random text that
/// a login or a fetched profile needs is drawn here: an anti-forgery token
/// of 22 characters for a login, a session token of 44 base64 characters,
/// which a cookie can always carry, for a fetched profile. Every other move
/// is made with the empty text, of which it takes no notice.
pub fn step(registry: &MultiOAuthProvider, state: FlowState, event: FlowEvent) -> (step: FlowStep)
    ensures
        exists|nonce: Seq<char>|
            {
                &&& step@ == #[trigger] flow_step(*registry, state@, event@, nonce)
                &&& draws_login_state(state@, event@) ==> nonce.len() == CSRF_STATE_LENGTH
                &&& draws_session_token(state@, event@) ==> {
                    &&& nonce.len() == SESSION_ID_LENGTH
                    &&& token_text(nonce)
                    &&& header_text(cookie_text(nonce))
                }
                &&& !draws_login_state(state@, event@) && !draws_session_token(state@, event@)
                    ==> nonce.len() == 0
            },
{
    let draws_login = match (&state, &event) {
        (FlowState::Unauthenticated, FlowEvent::LoginRequested { .. }) => true,
        _ => false,
    };
    let draws_session = match (&state, &event) {
        (FlowState::TokenExchanged { .. }, FlowEvent::ProfileReceived { .. }) => true,
        _ => false,
    };
    let nonce = if draws_login {
        random_state()
    } else if draws_session {
        Session::new().id
    } else {
        String::new()
    };
    proof {
        if draws_session {
            lemma_token_cookie(nonce@);
        }
    }
    step_with(registry, state, event, nonce)
}

/// The first move on a Discord callback.
pub fn discord_authorized(registry: &MultiOAuthProvider, query: OAuthRequest) -> (step: FlowStep)
    ensures
        step@ == on_callback(*registry, ProviderType::Discord, query.code@),
{
    callback_received(registry, ProviderType::Discord, query)
}

/// The first move on a Google callback.
pub fn google_authorized(registry: &MultiOAuthProvider, query: OAuthRequest) -> (step: FlowStep)
    ensures
        step@ == on_callback(*registry, ProviderType::Google, query.code@),
{
    callback_received(registry, ProviderType::Google, query)
}

/// One move of a logout.
#[derive(Debug, PartialEq, Eq)]
pub enum LogoutStep {
    /// The logout is over; send this response.
    Finished { response: Redirect },
    /// Load the session that the cookie names, then call `logout_loaded`.
    Load { command: StoreCommand },
    /// Destroy the session, then call `logout_destroyed`.
    Destroy { command: StoreCommand },
}

/// What a `LogoutStep` holds, as mathematical values.
pub enum LogoutStepView {
    Finished { response: RedirectView },
    Load { command: StoreCommandView },
    Destroy { command: StoreCommandView },
}

impl View for LogoutStep {
    type V = LogoutStepView;

    open spec fn view(&self) -> LogoutStepView {
        match self {
            LogoutStep::Finished { response } => LogoutStepView::Finished { response: response@ },
            LogoutStep::Load { command } => LogoutStepView::Load { command: command@ },
            LogoutStep::Destroy { command } => LogoutStepView::Destroy { command: command@ },
        }
    }
}

/// The first move of a logout for a request that carries `token`: without a
/// session cookie there is nothing to do; with one, its session is loaded.
pub open spec fn logout_begin(token: Option<Seq<char>>) -> LogoutStepView {
    match token {
        None => LogoutStepView::Finished { response: landing_redirect() },
        Some(t) => LogoutStepView::Load { command: load_command_of(t) },
    }
}

/// The move of a logout on the store's answer to the load: a session that
/// is there is destroyed; absence, a broken record and an unreachable store
/// all end the logout as if no session had been there.
pub open spec fn logout_on_load(reply: BackendReplyView) -> LogoutStepView {
    match loaded(reply) {
        Ok(Some(session)) => LogoutStepView::Destroy { command: destroy_command_of(session.id) },
        _ => LogoutStepView::Finished { response: landing_redirect() },
    }
}

/// Starts a logout for a request with the given `Cookie` header.
pub fn logout(cookie_header: Option<&str>) -> (step: LogoutStep)
    ensures
        step@ == logout_begin(token_in(opt_str_text(cookie_header))),
{
    match session_token(cookie_header) {
        None => LogoutStep::Finished { response: Redirect::to_landing() },
        Some(token) => LogoutStep::Load { command: load_session_command(token.as_str()) },
    }
}

/// Continues a logout with the store's answer to the load.
pub fn logout_loaded(reply: BackendReply) -> (step: LogoutStep)
    ensures
        step@ == logout_on_load(reply@),
{
    match load_session(reply) {
        Ok(Some(session)) => LogoutStep::Destroy { command: destroy_session_command(&session) },
        _ => LogoutStep::Finished { response: Redirect::to_landing() },
    }
}

/// Ends a logout with the store's answer to the destroy: whatever it was,
/// the client is sent to the landing page.
pub fn logout_destroyed(reply: BackendReply) -> (response: Redirect)
    ensures
        response@ == landing_redirect(),
{
    Redirect::to_landing()
}

} // verus!
