use std::collections::BTreeMap;

use oauth2::url::Url;
use sabi::auth_dto::{
    DiscordAuthRedirect, DiscordUser, GoogleUser, OAuthRequest, ProviderProfile, Redirect,
    RejectionCause, User, COOKIE_NAME,
};
use sabi::auth_routes::{
    discord_authorized, discord_login, google_authorized, google_login, login, login_with_state,
    logout, logout_destroyed, logout_loaded, step, step_with, FlowAction, FlowEvent, FlowFailure,
    FlowState, FlowStep, LogoutStep,
};
use sabi::cookie::{join_cookie_headers, session_cookie, session_token};
use sabi::extractor::Extraction;
use sabi::memory_store::{BackendReply, StoreCommand, StoreError};
use sabi::oauth::{MultiOAuthConfig, MultiOAuthProvider, OAuthConfig, ProviderType};
use sabi::session::{Session, UserEntry};

fn registry() -> MultiOAuthProvider {
    MultiOAuthProvider::try_new(MultiOAuthConfig {
        google: OAuthConfig {
            client_id: "google-id".to_string(),
            client_secret: "google-secret".to_string(),
            redirect_url: "https://example.com/auth/google/authorized".to_string(),
        },
        discord: OAuthConfig {
            client_id: "discord-id".to_string(),
            client_secret: "discord-secret".to_string(),
            redirect_url: "https://example.com/auth/discord/authorized".to_string(),
        },
    })
    .unwrap()
}

fn landing() -> Redirect {
    Redirect { status: 302, location: "/".to_string(), set_cookie: None }
}

fn failed(failure: FlowFailure) -> FlowStep {
    FlowStep {
        state: FlowState::Failed { failure },
        action: FlowAction::Send { response: landing() },
    }
}

fn alice_profile() -> DiscordUser {
    DiscordUser {
        id: "1".to_string(),
        avatar: None,
        username: "alice".to_string(),
        discriminator: "0001".to_string(),
    }
}

fn request(code: &str) -> OAuthRequest {
    OAuthRequest { code: code.to_string(), state: "ignored".to_string() }
}

struct Backend {
    records: BTreeMap<String, Session>,
    writes: usize,
}

impl Backend {
    fn new() -> Backend {
        Backend { records: BTreeMap::new(), writes: 0 }
    }

    fn run(&mut self, command: StoreCommand) -> BackendReply {
        match command {
            StoreCommand::Read { key } => match self.records.get(&key) {
                Some(session) => BackendReply::Record { session: session.clone() },
                None => BackendReply::Missing,
            },
            StoreCommand::Write { key, session } => {
                self.writes += 1;
                self.records.insert(key, session);
                BackendReply::Written
            }
            StoreCommand::Delete { keys } => {
                for key in keys {
                    self.records.remove(&key);
                }
                BackendReply::Deleted
            }
            StoreCommand::Scan { .. } => BackendReply::Page { cursor: 0, keys: Vec::new() },
        }
    }

    fn logout(&mut self, cookie_header: Option<&str>) -> Redirect {
        match logout(cookie_header) {
            LogoutStep::Finished { response } => response,
            LogoutStep::Destroy { .. } => panic!("a logout starts with a load"),
            LogoutStep::Load { command } => {
                let reply = self.run(command);
                match logout_loaded(reply) {
                    LogoutStep::Finished { response } => response,
                    LogoutStep::Load { .. } => panic!("a logout loads once"),
                    LogoutStep::Destroy { command } => {
                        let reply = self.run(command);
                        logout_destroyed(reply)
                    }
                }
            }
        }
    }

    fn extract(&mut self, cookie_header: Option<&str>) -> Result<User, DiscordAuthRedirect> {
        match User::from_request_parts(cookie_header) {
            Extraction::Rejected { rejection } => Err(rejection),
            Extraction::Load { command } => {
                let reply = self.run(command);
                User::from_session_reply(reply)
            }
        }
    }
}

fn query_of(url: &Url, name: &str) -> Option<String> {
    url.query_pairs().find(|(k, _)| k == name).map(|(_, v)| v.to_string())
}

#[test]
fn discord_login_redirects_to_discord_with_the_identify_scope() {
    let response = login_with_state(&registry(), ProviderType::Discord, "nonce-1");
    assert_eq!(response.status, 307);
    assert_eq!(response.set_cookie, None);
    let url = Url::parse(&response.location).unwrap();
    assert_eq!(url.host_str(), Some("discord.com"));
    assert_eq!(url.path(), "/api/oauth2/authorize");
    assert_eq!(query_of(&url, "response_type").unwrap(), "code");
    assert_eq!(query_of(&url, "client_id").unwrap(), "discord-id");
    assert_eq!(query_of(&url, "state").unwrap(), "nonce-1");
    assert_eq!(
        query_of(&url, "redirect_uri").unwrap(),
        "https://example.com/auth/discord/authorized"
    );
    assert_eq!(query_of(&url, "scope").unwrap(), "identify");
    assert_eq!(
        response.location,
        "https://discord.com/api/oauth2/authorize?response_type=code&client_id=discord-id\
         &state=nonce-1&redirect_uri=https%3A%2F%2Fexample.com%2Fauth%2Fdiscord%2Fauthorized\
         &scope=identify"
    );
}

#[test]
fn google_login_redirects_to_google_with_both_scopes() {
    let response = login_with_state(&registry(), ProviderType::Google, "nonce-2");
    assert_eq!(response.status, 307);
    let url = Url::parse(&response.location).unwrap();
    assert_eq!(url.host_str(), Some("accounts.google.com"));
    assert_eq!(url.path(), "/o/oauth2/v2/auth");
    assert_eq!(query_of(&url, "client_id").unwrap(), "google-id");
    assert_eq!(query_of(&url, "state").unwrap(), "nonce-2");
    assert_eq!(
        query_of(&url, "scope").unwrap(),
        "https://www.googleapis.com/auth/userinfo.email \
         https://www.googleapis.com/auth/userinfo.profile"
    );
}

#[test]
fn every_provider_is_sent_to_its_own_authorization_host() {
    let registry = registry();
    for (provider, host) in
        [(ProviderType::Discord, "discord.com"), (ProviderType::Google, "accounts.google.com")]
    {
        let response = login(&registry, provider);
        assert_eq!(response.status, 307);
        let url = Url::parse(&response.location).unwrap();
        assert_eq!(url.host_str(), Some(host));
        let scope = query_of(&url, "scope").unwrap();
        for wanted in provider.scopes() {
            assert!(scope.split(' ').any(|s| s == wanted));
        }
    }
}

#[test]
fn each_login_draws_a_fresh_anti_forgery_token() {
    let registry = registry();
    let first = Url::parse(&discord_login(&registry).location).unwrap();
    let second = Url::parse(&discord_login(&registry).location).unwrap();
    let a = query_of(&first, "state").unwrap();
    let b = query_of(&second, "state").unwrap();
    assert_eq!(a.chars().count(), 22);
    assert_eq!(b.chars().count(), 22);
    assert_ne!(a, b);
    let google = Url::parse(&google_login(&registry).location).unwrap();
    assert_eq!(google.host_str(), Some("accounts.google.com"));
}

#[test]
fn login_move_requests_authorization() {
    let moved = step(
        &registry(),
        FlowState::Unauthenticated,
        FlowEvent::LoginRequested { provider: ProviderType::Discord },
    );
    let csrf_state = match moved.state {
        FlowState::AuthorizationRequested { provider: ProviderType::Discord, csrf_state } => {
            csrf_state
        }
        other => panic!("unexpected state {:?}", other),
    };
    assert_eq!(csrf_state.chars().count(), 22);
    match moved.action {
        FlowAction::Send { response } => {
            assert_eq!(response.status, 307);
            assert!(response.location.starts_with("https://discord.com/api/oauth2/authorize?"));
            let url = Url::parse(&response.location).unwrap();
            assert_eq!(query_of(&url, "state").unwrap(), csrf_state);
        }
        other => panic!("unexpected action {:?}", other),
    }
}

#[test]
fn scenario_discord_login_with_code_abc_establishes_alice() {
    let registry = registry();
    let mut backend = Backend::new();

    let moved = discord_authorized(&registry, request("abc"));
    assert_eq!(
        moved.state,
        FlowState::CallbackReceived { provider: ProviderType::Discord, code: "abc".to_string() }
    );
    match &moved.action {
        FlowAction::ExchangeCode { client, code } => {
            assert_eq!(code, "abc");
            assert_eq!(client.client_id(), "discord-id");
            assert_eq!(client.client_secret(), "discord-secret");
            assert_eq!(client.token_url(), "https://discord.com/api/oauth2/token");
            assert_eq!(client.auth_url(), "https://discord.com/api/oauth2/authorize");
            assert_eq!(client.redirect_url(), "https://example.com/auth/discord/authorized");
        }
        other => panic!("unexpected action {:?}", other),
    }

    let moved = step(
        &registry,
        moved.state,
        FlowEvent::TokenGranted { access_token: "access".to_string() },
    );
    assert_eq!(
        moved.action,
        FlowAction::FetchProfile {
            url: "https://discordapp.com/api/users/@me".to_string(),
            access_token: "access".to_string(),
        }
    );

    let moved = step(
        &registry,
        moved.state,
        FlowEvent::ProfileReceived { profile: ProviderProfile::Discord(alice_profile()) },
    );
    let session = match &moved.state {
        FlowState::ProfileFetched { session } => session.clone(),
        other => panic!("unexpected state {:?}", other),
    };
    assert_eq!(session.id.chars().count(), 44);
    let user = session.user().unwrap();
    assert_eq!(user.username, "alice");
    assert!(user.discord.is_some());
    assert!(user.google.is_none());
    assert_eq!(user.discord.unwrap(), alice_profile());

    let command = match moved.action {
        FlowAction::Store { command } => command,
        other => panic!("unexpected action {:?}", other),
    };
    assert_eq!(
        command,
        StoreCommand::Write { key: format!("session:{}", session.id), session: session.clone() }
    );
    let reply = backend.run(command);

    let moved = step(&registry, moved.state, FlowEvent::StoreAnswered { reply });
    assert_eq!(moved.state, FlowState::SessionEstablished { token: session.id.clone() });
    assert_eq!(
        moved.action,
        FlowAction::Send {
            response: Redirect {
                status: 302,
                location: "/".to_string(),
                set_cookie: Some(format!("SESSION={}; SameSite=Lax; Path=/", session.id)),
            }
        }
    );
    assert_eq!(backend.writes, 1);
    assert_eq!(backend.records.len(), 1);

    let header = format!("{}={}", COOKIE_NAME, session.id);
    let found = backend.extract(Some(&header)).unwrap();
    assert_eq!(found.username, "alice");
    assert!(found.discord.is_some());
    assert!(found.google.is_none());
}

#[test]
fn google_callback_names_the_user_by_email() {
    let registry = registry();
    let moved = google_authorized(&registry, request("code"));
    let moved = step_with(
        &registry,
        moved.state,
        FlowEvent::TokenGranted { access_token: "t".to_string() },
        String::new(),
    );
    assert_eq!(
        moved.action,
        FlowAction::FetchProfile {
            url: "https://www.googleapis.com/oauth2/v2/userinfo".to_string(),
            access_token: "t".to_string(),
        }
    );
    let profile = GoogleUser {
        id: "g1".to_string(),
        email: "dave@example.com".to_string(),
        picture: None,
    };
    let moved = step_with(
        &registry,
        moved.state,
        FlowEvent::ProfileReceived { profile: ProviderProfile::Google(profile.clone()) },
        "fixed-token".to_string(),
    );
    let expected = Session {
        id: "fixed-token".to_string(),
        user: UserEntry::Present(User {
            username: "dave@example.com".to_string(),
            discord: None,
            google: Some(profile),
        }),
    };
    assert_eq!(moved.state, FlowState::ProfileFetched { session: expected.clone() });
    assert_eq!(
        moved.action,
        FlowAction::Store {
            command: StoreCommand::Write { key: "session:fixed-token".to_string(), session: expected }
        }
    );
}

#[test]
fn refused_code_stores_nothing_and_sets_no_cookie() {
    let registry = registry();
    let backend = Backend::new();
    let moved = discord_authorized(&registry, request("expired"));
    let moved = step(&registry, moved.state, FlowEvent::TokenDenied);
    assert_eq!(moved, failed(FlowFailure::TokenExchange));
    assert_eq!(backend.writes, 0);
    assert_eq!(backend.records.len(), 0);

    let later = step(
        &registry,
        moved.state,
        FlowEvent::ProfileReceived { profile: ProviderProfile::Discord(alice_profile()) },
    );
    assert_eq!(later, failed(FlowFailure::TokenExchange));
}

#[test]
fn empty_code_is_refused_before_the_provider_is_asked() {
    let registry = registry();
    assert_eq!(discord_authorized(&registry, request("")), failed(FlowFailure::InvalidRequest));
    assert_eq!(google_authorized(&registry, request("")), failed(FlowFailure::InvalidRequest));
    let moved = step(
        &registry,
        FlowState::AuthorizationRequested {
            provider: ProviderType::Google,
            csrf_state: "sent".to_string(),
        },
        FlowEvent::CallbackArrived { provider: ProviderType::Google, request: request("") },
    );
    assert_eq!(moved, failed(FlowFailure::InvalidRequest));
}

#[test]
fn profile_failures_end_the_attempt() {
    let registry = registry();
    let exchanged = || FlowState::TokenExchanged {
        provider: ProviderType::Discord,
        access_token: "t".to_string(),
    };
    assert_eq!(
        step(&registry, exchanged(), FlowEvent::ProfileUnavailable),
        failed(FlowFailure::ProfileFetch)
    );
    let google = ProviderProfile::Google(GoogleUser {
        id: "g".to_string(),
        email: "e@example.com".to_string(),
        picture: None,
    });
    assert_eq!(
        step(&registry, exchanged(), FlowEvent::ProfileReceived { profile: google }),
        failed(FlowFailure::ProfileFetch)
    );
    assert_eq!(
        step_with(
            &registry,
            exchanged(),
            FlowEvent::ProfileReceived { profile: ProviderProfile::Discord(alice_profile()) },
            "bad\ntoken".to_string(),
        ),
        failed(FlowFailure::CookieRejected)
    );
}

#[test]
fn store_failures_end_the_attempt_without_a_cookie() {
    let registry = registry();
    let fetched = || FlowState::ProfileFetched {
        session: Session { id: "tok".to_string(), user: UserEntry::Missing },
    };
    assert_eq!(
        step(&registry, fetched(), FlowEvent::StoreAnswered { reply: BackendReply::Unavailable }),
        failed(FlowFailure::Store { error: StoreError::StoreUnavailable })
    );
    assert_eq!(
        step(&registry, fetched(), FlowEvent::StoreAnswered { reply: BackendReply::Unwritable }),
        failed(FlowFailure::Store { error: StoreError::SerializationError })
    );
    assert_eq!(
        step(&registry, fetched(), FlowEvent::TokenDenied),
        failed(FlowFailure::UnexpectedEvent)
    );
}

#[test]
fn callback_is_accepted_whatever_anti_forgery_token_comes_back() {
    let registry = registry();
    let moved = step(
        &registry,
        FlowState::AuthorizationRequested {
            provider: ProviderType::Discord,
            csrf_state: "sent".to_string(),
        },
        FlowEvent::CallbackArrived {
            provider: ProviderType::Discord,
            request: OAuthRequest { code: "abc".to_string(), state: "other".to_string() },
        },
    );
    assert_eq!(
        moved.state,
        FlowState::CallbackReceived { provider: ProviderType::Discord, code: "abc".to_string() }
    );
}

#[test]
fn events_out_of_turn_end_the_attempt() {
    let registry = registry();
    assert_eq!(
        step(&registry, FlowState::Unauthenticated, FlowEvent::TokenDenied),
        failed(FlowFailure::UnexpectedEvent)
    );
    assert_eq!(
        step(
            &registry,
            FlowState::CallbackReceived { provider: ProviderType::Discord, code: "c".to_string() },
            FlowEvent::ProfileUnavailable,
        ),
        failed(FlowFailure::UnexpectedEvent)
    );
    let established = step(
        &registry,
        FlowState::SessionEstablished { token: "tok".to_string() },
        FlowEvent::TokenDenied,
    );
    assert_eq!(established.state, FlowState::SessionEstablished { token: "tok".to_string() });
    assert_eq!(established.action, FlowAction::Send { response: landing() });
}

#[test]
fn scenario_no_cookie_redirects_to_the_discord_login() {
    let mut backend = Backend::new();
    let rejection = backend.extract(None).unwrap_err();
    assert_eq!(rejection.cause, RejectionCause::NoCookie);
    let response = rejection.into_response();
    assert_eq!(response.status, 307);
    assert_eq!(response.location, "/auth/discord");
    assert_eq!(response.set_cookie, None);

    let rejection = backend.extract(Some("lang=en-US")).unwrap_err();
    assert_eq!(rejection.into_response().location, "/auth/discord");
}

#[test]
fn scenario_cookie_without_a_record_is_the_same_as_no_cookie() {
    let mut backend = Backend::new();
    let without = backend.extract(None).unwrap_err();
    let unknown = backend.extract(Some("SESSION=nobody")).unwrap_err();
    assert_eq!(unknown.cause, RejectionCause::NoSession);
    assert_eq!(without.into_response(), unknown.into_response());
    let response = unknown.into_response();
    assert_eq!(response.status, 307);
    assert_eq!(response.location, "/auth/discord");
    assert_eq!(response.set_cookie, None);
}

#[test]
fn extraction_loads_the_session_named_by_the_cookie() {
    assert_eq!(
        User::from_request_parts(Some("lang=en-US; SESSION=abc")),
        Extraction::Load { command: StoreCommand::Read { key: "session:abc".to_string() } }
    );
    assert_eq!(
        User::from_request_parts(None),
        Extraction::Rejected { rejection: DiscordAuthRedirect { cause: RejectionCause::NoCookie } }
    );
}

fn rejected(reply: BackendReply) -> RejectionCause {
    let rejection = User::from_session_reply(reply).unwrap_err();
    assert_eq!(rejection.into_response().location, "/auth/discord");
    rejection.cause
}

#[test]
fn extraction_treats_every_trouble_as_not_signed_in() {
    assert_eq!(rejected(BackendReply::Unavailable), RejectionCause::StoreUnavailable);
    assert_eq!(rejected(BackendReply::Written), RejectionCause::StoreUnavailable);
    assert_eq!(rejected(BackendReply::Missing), RejectionCause::NoSession);
    assert_eq!(rejected(BackendReply::Corrupt), RejectionCause::BrokenSession);
    let missing = Session { id: "s".to_string(), user: UserEntry::Missing };
    assert_eq!(rejected(BackendReply::Record { session: missing }), RejectionCause::BrokenSession);
    let malformed = Session { id: "s".to_string(), user: UserEntry::Malformed };
    assert_eq!(
        rejected(BackendReply::Record { session: malformed }),
        RejectionCause::BrokenSession
    );
    assert_eq!(User::optional_from_session_reply(BackendReply::Unavailable), None);
    assert_eq!(User::optional_from_session_reply(BackendReply::Missing), None);
    assert_eq!(User::optional_from_session_reply(BackendReply::Corrupt), None);
}

#[test]
fn optional_extraction_gives_the_user_when_there_is_one() {
    let user = User::from_discord(alice_profile());
    let session = Session { id: "s".to_string(), user: UserEntry::Present(user.clone()) };
    assert_eq!(
        User::optional_from_session_reply(BackendReply::Record { session }),
        Some(user)
    );
}

#[test]
fn logout_twice_is_a_redirect_both_times() {
    let mut backend = Backend::new();
    let mut session = Session::with_id("tok".to_string());
    session.insert_user(User::from_discord(alice_profile()));
    backend.records.insert("session:tok".to_string(), session);
    let mut other = Session::with_id("other".to_string());
    other.insert_user(User::from_discord(alice_profile()));
    backend.records.insert("session:other".to_string(), other);

    assert_eq!(backend.logout(Some("SESSION=tok")), landing());
    assert_eq!(backend.records.len(), 1);
    assert!(backend.records.contains_key("session:other"));

    assert_eq!(backend.logout(Some("SESSION=tok")), landing());
    assert_eq!(backend.records.len(), 1);
}

#[test]
fn logout_without_a_cookie_does_nothing() {
    let mut backend = Backend::new();
    backend.records.insert("session:tok".to_string(), Session::with_id("tok".to_string()));
    assert_eq!(backend.logout(None), landing());
    assert_eq!(backend.logout(None), landing());
    assert_eq!(backend.logout(Some("theme=dark")), landing());
    assert_eq!(backend.records.len(), 1);
}

#[test]
fn logout_survives_a_store_that_is_down() {
    assert_eq!(
        logout_loaded(BackendReply::Unavailable),
        LogoutStep::Finished { response: landing() }
    );
    assert_eq!(logout_loaded(BackendReply::Corrupt), LogoutStep::Finished { response: landing() });
    assert_eq!(logout_destroyed(BackendReply::Unavailable), landing());
    assert_eq!(
        logout_loaded(BackendReply::Record { session: Session::with_id("tok".to_string()) }),
        LogoutStep::Destroy {
            command: StoreCommand::Delete { keys: vec!["session:tok".to_string()] }
        }
    );
}

#[test]
fn session_cookie_carries_the_token_with_its_attributes() {
    assert_eq!(
        session_cookie("abc").unwrap(),
        "SESSION=abc; SameSite=Lax; Path=/"
    );
    assert_eq!(session_cookie("").unwrap(), "SESSION=; SameSite=Lax; Path=/");
    assert_eq!(session_cookie("a\tb").unwrap(), "SESSION=a\tb; SameSite=Lax; Path=/");
    assert_eq!(session_cookie("caf\u{e9}").unwrap(), "SESSION=caf\u{e9}; SameSite=Lax; Path=/");
    assert_eq!(session_cookie("a\nb"), None);
    assert_eq!(session_cookie("a\u{7f}b"), None);
    assert_eq!(session_cookie("\u{1f}"), None);
}

#[test]
fn session_token_is_found_among_other_cookies() {
    assert_eq!(session_token(Some("SESSION=abc")), Some("abc".to_string()));
    assert_eq!(session_token(Some("lang=en-US; SESSION=abc; theme=dark")), Some("abc".to_string()));
    assert_eq!(session_token(Some("SESSION = abc ")), Some("abc".to_string()));
    assert_eq!(session_token(Some("lang=en-US")), None);
    assert_eq!(session_token(Some("")), None);
    assert_eq!(session_token(Some("session=abc")), None);
    assert_eq!(session_token(None), None);
}

#[test]
fn cookie_headers_of_one_request_are_read_as_one() {
    assert_eq!(join_cookie_headers(&Vec::new()), None);
    assert_eq!(join_cookie_headers(&vec![None]), None);
    assert_eq!(join_cookie_headers(&vec![None, None]), None);
    assert_eq!(
        join_cookie_headers(&vec![Some("SESSION=abc".to_string())]),
        Some("SESSION=abc".to_string())
    );
    assert_eq!(
        join_cookie_headers(&vec![
            Some("lang=en".to_string()),
            None,
            Some("SESSION=abc".to_string()),
            Some("theme=dark".to_string()),
        ]),
        Some("lang=en; SESSION=abc; theme=dark".to_string())
    );
    assert_eq!(
        join_cookie_headers(&vec![None, Some(String::new()), Some("a=b".to_string())]),
        Some("; a=b".to_string())
    );
    let joined = join_cookie_headers(&vec![
        Some("lang=en".to_string()),
        Some("SESSION=abc".to_string()),
    ]);
    assert_eq!(session_token(joined.as_deref()), Some("abc".to_string()));
}
