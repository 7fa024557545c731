//! The provider registry: one OAuth2 client per identity provider, built
//! once from configuration and read-only afterwards.

use vstd::prelude::*;
use crate::text::{owned, texts};

verus! {

/// The identity providers a client can sign in with.
#[derive(Clone, Copy, Debug, PartialEq, Eq, Structural)]
pub enum ProviderType {
    Google,
    Discord,
}

/// Google's authorization endpoint.
pub const GOOGLE_AUTH_URL: &'static str = "https://accounts.google.com/o/oauth2/v2/auth";

/// Google's token endpoint.
pub const GOOGLE_TOKEN_URL: &'static str = "https://oauth2.googleapis.com/token";

/// Google's profile endpoint, queried with the bearer access token.
pub const GOOGLE_PROFILE_URL: &'static str = "https://www.googleapis.com/oauth2/v2/userinfo";

/// Discord's authorization endpoint.
pub const DISCORD_AUTH_URL: &'static str = "https://discord.com/api/oauth2/authorize";

/// Discord's token endpoint.
pub const DISCORD_TOKEN_URL: &'static str = "https://discord.com/api/oauth2/token";

/// Discord's profile endpoint, queried with the bearer access token.
pub const DISCORD_PROFILE_URL: &'static str = "https://discordapp.com/api/users/@me";

/// Scope that lets the service read the Discord account's identity.
pub const DISCORD_SCOPE_IDENTIFY: &'static str = "identify";

/// Scope that lets the service read the Google account's e-mail address.
pub const GOOGLE_SCOPE_EMAIL: &'static str = "https://www.googleapis.com/auth/userinfo.email";

/// Scope that lets the service read the Google account's profile.
pub const GOOGLE_SCOPE_PROFILE: &'static str = "https://www.googleapis.com/auth/userinfo.profile";

/// Whether `url` is accepted by the URL parser of the `url` crate.
pub uninterp spec fn url_parses(url: Seq<char>) -> bool;

/// The authorization URL that the `oauth2` crate builds for a client with
/// the given endpoint, id and redirect URL, asking for `scopes` and carrying
/// `state` as the anti-forgery token.
pub uninterp spec fn authorize_url_text(
    auth_url: Seq<char>,
    client_id: Seq<char>,
    redirect_url: Seq<char>,
    scopes: Seq<Seq<char>>,
    state: Seq<char>,
) -> Seq<char>;

/// Calls `url::Url::parse` (re-exported by `oauth2`) and reports whether it
/// accepted the text. Nothing is claimed about which texts are accepted:
/// the answer is only given a name, `url_parses`.
#[verifier::external_body]
fn parses_as_url(url: &str) -> (ok: bool)
    ensures
        ok == url_parses(url@),
{
    oauth2::url::Url::parse(url).is_ok()
}

/// Builds an authorization request with `oauth2`: `AuthUrl::new`,
/// `RedirectUrl::new`, `BasicClient::new(..).set_redirect_uri(..)`,
/// `authorize_url`, `add_scopes` with the scopes in order, then `url()`.
/// The contract claims that the two URL constructors fail exactly when
/// `Url::parse` rejects the text, and that the resulting URL depends only on
/// the five arguments; its text is only given a name, `authorize_url_text`.
#[verifier::external_body]
fn build_authorize_url(
    auth_url: &str,
    client_id: &str,
    redirect_url: &str,
    scopes: &Vec<String>,
    state: &str,
) -> (url: Option<String>)
    ensures
        url.is_some() == (url_parses(auth_url@) && url_parses(redirect_url@)),
        url.is_some() ==> url.unwrap()@ == authorize_url_text(
            auth_url@,
            client_id@,
            redirect_url@,
            texts(scopes@),
            state@,
        ),
{
    let auth = oauth2::AuthUrl::new(auth_url.to_string()).ok()?;
    let back = oauth2::RedirectUrl::new(redirect_url.to_string()).ok()?;
    let id = oauth2::ClientId::new(client_id.to_string());
    let token = oauth2::CsrfToken::new(state.to_string());
    let client = oauth2::basic::BasicClient::new(id, None, auth, None).set_redirect_uri(back);
    let wanted = scopes.iter().map(|scope| oauth2::Scope::new(scope.clone()));
    let request = client.authorize_url(move || token).add_scopes(wanted);
    Some(request.url().0.to_string())
}

/// Number of characters in a freshly drawn anti-forgery token.
pub const CSRF_STATE_LENGTH: usize = 22;

/// Calls `oauth2::CsrfToken::new_random` and hands out the token's text.
/// The token is the base64 encoding, without padding, of 16 random bytes.
/// So one thing is claimed of it, which holds of every outcome: it is 22
/// characters long.
#[verifier::external_body]
pub(crate) fn random_state() -> (state: String)
    ensures
        state@.len() == CSRF_STATE_LENGTH,
{
    oauth2::CsrfToken::new_random().secret().clone()
}

/// Credentials and redirect URL of one provider, as configured.
#[derive(Debug, PartialEq, Eq)]
pub struct OAuthConfig {
    pub client_id: String,
    pub client_secret: String,
    pub redirect_url: String,
}

/// What an `OAuthConfig` holds, as mathematical values.
pub struct OAuthConfigView {
    pub client_id: Seq<char>,
    pub client_secret: Seq<char>,
    pub redirect_url: Seq<char>,
}

impl View for OAuthConfig {
    type V = OAuthConfigView;

    open spec fn view(&self) -> OAuthConfigView {
        OAuthConfigView {
            client_id: self.client_id@,
            client_secret: self.client_secret@,
            redirect_url: self.redirect_url@,
        }
    }
}

/// Configuration of every supported provider.
#[derive(Debug, PartialEq, Eq)]
pub struct MultiOAuthConfig {
    pub google: OAuthConfig,
    pub discord: OAuthConfig,
}

/// Why a provider's client could not be built.
#[derive(Clone, Copy, Debug, PartialEq, Eq, Structural)]
pub enum ConfigError {
    InvalidAuthorizationUrl,
    InvalidTokenUrl,
    InvalidRedirectUrl,
}

impl ConfigError {
    /// Human-readable reason, for the startup log.
    pub fn message(&self) -> (text: String)
        ensures
            text@ == match *self {
                ConfigError::InvalidAuthorizationUrl => "Invalid authorization endpoint URL"@,
                ConfigError::InvalidTokenUrl => "Invalid token endpoint URL"@,
                ConfigError::InvalidRedirectUrl => "Invalid redirect URL"@,
            },
    {
        match self {
            ConfigError::InvalidAuthorizationUrl => owned("Invalid authorization endpoint URL"),
            ConfigError::InvalidTokenUrl => owned("Invalid token endpoint URL"),
            ConfigError::InvalidRedirectUrl => owned("Invalid redirect URL"),
        }
    }
}

/// An OAuth2 client: the endpoints of one provider and this service's
/// credentials with it.
#[derive(Debug, PartialEq, Eq)]
pub struct OAuthClient {
    client_id: String,
    client_secret: String,
    auth_url: String,
    token_url: String,
    redirect_url: String,
}

/// What an `OAuthClient` holds, as mathematical values.
pub struct OAuthClientView {
    pub client_id: Seq<char>,
    pub client_secret: Seq<char>,
    pub auth_url: Seq<char>,
    pub token_url: Seq<char>,
    pub redirect_url: Seq<char>,
}

impl OAuthClientView {
    /// All three URLs of the client are accepted by the URL parser.
    pub open spec fn wf(self) -> bool {
        &&& url_parses(self.auth_url)
        &&& url_parses(self.token_url)
        &&& url_parses(self.redirect_url)
    }
}

/// The client for a provider with the given endpoints and configuration.
pub open spec fn client_for(
    auth_url: Seq<char>,
    token_url: Seq<char>,
    config: OAuthConfigView,
) -> OAuthClientView {
    OAuthClientView {
        client_id: config.client_id,
        client_secret: config.client_secret,
        auth_url,
        token_url,
        redirect_url: config.redirect_url,
    }
}

/// The first URL of the client that the parser rejects, if any, in the
/// order authorization endpoint, token endpoint, redirect URL.
pub open spec fn first_invalid_url(client: OAuthClientView) -> Option<ConfigError> {
    if !url_parses(client.auth_url) {
        Some(ConfigError::InvalidAuthorizationUrl)
    } else if !url_parses(client.token_url) {
        Some(ConfigError::InvalidTokenUrl)
    } else if !url_parses(client.redirect_url) {
        Some(ConfigError::InvalidRedirectUrl)
    } else {
        None
    }
}

impl View for OAuthClient {
    type V = OAuthClientView;

    closed spec fn view(&self) -> OAuthClientView {
        OAuthClientView {
            client_id: self.client_id@,
            client_secret: self.client_secret@,
            auth_url: self.auth_url@,
            token_url: self.token_url@,
            redirect_url: self.redirect_url@,
        }
    }
}

impl Clone for OAuthClient {
    fn clone(&self) -> (r: Self)
        ensures
            r@ == self@,
    {
        proof {
            use_type_invariant(self);
        }
        OAuthClient {
            client_id: self.client_id.clone(),
            client_secret: self.client_secret.clone(),
            auth_url: self.auth_url.clone(),
            token_url: self.token_url.clone(),
            redirect_url: self.redirect_url.clone(),
        }
    }
}

impl OAuthClient {
    /// Every client in existence has URLs that the parser accepted.
    #[verifier::type_invariant]
    spec fn urls_accepted(self) -> bool {
        self@.wf()
    }

    /// The first of the three URLs that the parser rejects, if any.
    pub fn check(auth_url: &str, token_url: &str, config: &OAuthConfig) -> (r: Option<ConfigError>)
        ensures
            r == first_invalid_url(client_for(auth_url@, token_url@, config@)),
            r.is_none() == client_for(auth_url@, token_url@, config@).wf(),
    {
        if !parses_as_url(auth_url) {
            Some(ConfigError::InvalidAuthorizationUrl)
        } else if !parses_as_url(token_url) {
            Some(ConfigError::InvalidTokenUrl)
        } else if !parses_as_url(config.redirect_url.as_str()) {
            Some(ConfigError::InvalidRedirectUrl)
        } else {
            None
        }
    }

    /// The client for the given endpoints and configuration.
    fn assemble(auth_url: &str, token_url: &str, config: OAuthConfig) -> (client: OAuthClient)
        requires
            client_for(auth_url@, token_url@, config@).wf(),
        ensures
            client@ == client_for(auth_url@, token_url@, config@),
    {
        OAuthClient {
            client_id: config.client_id,
            client_secret: config.client_secret,
            auth_url: owned(auth_url),
            token_url: owned(token_url),
            redirect_url: config.redirect_url,
        }
    }

    /// Checks the three URLs and builds the client; reports the first URL
    /// that the parser rejects.
    pub fn build(auth_url: &str, token_url: &str, config: OAuthConfig) -> (r: Result<
        OAuthClient,
        ConfigError,
    >)
        ensures
            match r {
                Ok(client) => {
                    &&& client@ == client_for(auth_url@, token_url@, config@)
                    &&& client@.wf()
                },
                Err(e) => first_invalid_url(client_for(auth_url@, token_url@, config@)) == Some(e),
            },
    {
        match OAuthClient::check(auth_url, token_url, &config) {
            Some(e) => Err(e),
            None => Ok(OAuthClient::assemble(auth_url, token_url, config)),
        }
    }

    /// The client identifier registered with the provider.
    pub fn client_id(&self) -> (r: &str)
        ensures
            r@ == self@.client_id,
    {
        self.client_id.as_str()
    }

    /// The client secret registered with the provider.
    pub fn client_secret(&self) -> (r: &str)
        ensures
            r@ == self@.client_secret,
    {
        self.client_secret.as_str()
    }

    /// The provider's authorization endpoint.
    pub fn auth_url(&self) -> (r: &str)
        ensures
            r@ == self@.auth_url,
    {
        self.auth_url.as_str()
    }

    /// The provider's token endpoint.
    pub fn token_url(&self) -> (r: &str)
        ensures
            r@ == self@.token_url,
    {
        self.token_url.as_str()
    }

    /// Where the provider sends the browser back to.
    pub fn redirect_url(&self) -> (r: &str)
        ensures
            r@ == self@.redirect_url,
    {
        self.redirect_url.as_str()
    }

    /// The URL to send the browser to for an authorization request that asks
    /// for `scopes` and carries `state` as the anti-forgery token.
    pub fn authorize_url(&self, scopes: &Vec<String>, state: &str) -> (url: String)
        ensures
            url@ == authorize_url_text(
                self@.auth_url,
                self@.client_id,
                self@.redirect_url,
                texts(scopes@),
                state@,
            ),
    {
        proof {
            use_type_invariant(self);
        }
        let built = build_authorize_url(
            self.auth_url.as_str(),
            self.client_id.as_str(),
            self.redirect_url.as_str(),
            scopes,
            state,
        );
        match built {
            Some(url) => url,
            None => vstd::pervasive::unreached(),
        }
    }
}

/// The scopes requested from a provider at login, in request order.
pub open spec fn provider_scopes(provider: ProviderType) -> Seq<Seq<char>> {
    match provider {
        ProviderType::Discord => seq![DISCORD_SCOPE_IDENTIFY@],
        ProviderType::Google => seq![GOOGLE_SCOPE_EMAIL@, GOOGLE_SCOPE_PROFILE@],
    }
}

/// The endpoint that returns the signed-in account's profile.
pub open spec fn provider_profile_url(provider: ProviderType) -> Seq<char> {
    match provider {
        ProviderType::Discord => DISCORD_PROFILE_URL@,
        ProviderType::Google => GOOGLE_PROFILE_URL@,
    }
}

/// The provider's authorization endpoint.
pub open spec fn provider_auth_url(provider: ProviderType) -> Seq<char> {
    match provider {
        ProviderType::Discord => DISCORD_AUTH_URL@,
        ProviderType::Google => GOOGLE_AUTH_URL@,
    }
}

/// The provider's token endpoint.
pub open spec fn provider_token_url(provider: ProviderType) -> Seq<char> {
    match provider {
        ProviderType::Discord => DISCORD_TOKEN_URL@,
        ProviderType::Google => GOOGLE_TOKEN_URL@,
    }
}

/// The client that a provider gets from its configuration.
pub open spec fn provider_client(provider: ProviderType, config: OAuthConfigView) -> OAuthClientView {
    client_for(provider_auth_url(provider), provider_token_url(provider), config)
}

impl ProviderType {
    /// The scopes requested from this provider at login, in request order.
    pub fn scopes(&self) -> (list: Vec<String>)
        ensures
            texts(list@) == provider_scopes(*self),
    {
        let mut list: Vec<String> = Vec::new();
        match self {
            ProviderType::Discord => {
                list.push(owned(DISCORD_SCOPE_IDENTIFY));
            },
            ProviderType::Google => {
                list.push(owned(GOOGLE_SCOPE_EMAIL));
                list.push(owned(GOOGLE_SCOPE_PROFILE));
            },
        }
        assert(texts(list@) =~= provider_scopes(*self));
        list
    }

    /// The endpoint that returns the signed-in account's profile.
    pub fn profile_url(&self) -> (url: &'static str)
        ensures
            url@ == provider_profile_url(*self),
    {
        match self {
            ProviderType::Discord => DISCORD_PROFILE_URL,
            ProviderType::Google => GOOGLE_PROFILE_URL,
        }
    }

    /// This provider's authorization endpoint.
    pub fn auth_url(&self) -> (url: &'static str)
        ensures
            url@ == provider_auth_url(*self),
    {
        match self {
            ProviderType::Discord => DISCORD_AUTH_URL,
            ProviderType::Google => GOOGLE_AUTH_URL,
        }
    }

    /// This provider's token endpoint.
    pub fn token_url(&self) -> (url: &'static str)
        ensures
            url@ == provider_token_url(*self),
    {
        match self {
            ProviderType::Discord => DISCORD_TOKEN_URL,
            ProviderType::Google => GOOGLE_TOKEN_URL,
        }
    }
}

/// Something that can hand out the OAuth2 client of one provider.
pub trait OAuthProvider {
    /// The client this provider was built with.
    spec fn client_view(&self) -> OAuthClientView;

    /// A copy of the provider's client.
    fn client(&self) -> (c: OAuthClient)
        ensures
            c@ == self.client_view(),
            c@.wf(),
    ;
}

/// The Google provider.
#[derive(Debug, PartialEq, Eq)]
pub struct GoogleOAuthProvider {
    client: OAuthClient,
}

impl GoogleOAuthProvider {
    /// The client always points at Google's endpoints.
    #[verifier::type_invariant]
    spec fn endpoints_fixed(self) -> bool {
        &&& self.client@.auth_url == GOOGLE_AUTH_URL@
        &&& self.client@.token_url == GOOGLE_TOKEN_URL@
    }

    /// The configurations from which a Google client can be built.
    pub open spec fn accepts(config: OAuthConfigView) -> bool {
        provider_client(ProviderType::Google, config).wf()
    }

    /// The Google client for `config`.
    pub fn new(config: OAuthConfig) -> (provider: Self)
        requires
            Self::accepts(config@),
        ensures
            provider.client_view() == provider_client(ProviderType::Google, config@),
    {
        GoogleOAuthProvider {
            client: OAuthClient::assemble(GOOGLE_AUTH_URL, GOOGLE_TOKEN_URL, config),
        }
    }

    /// The Google client for `config`, or the first URL that does not parse.
    pub fn try_new(config: OAuthConfig) -> (r: Result<Self, ConfigError>)
        ensures
            match r {
                Ok(provider) => {
                    &&& Self::accepts(config@)
                    &&& provider.client_view() == provider_client(ProviderType::Google, config@)
                },
                Err(e) => first_invalid_url(provider_client(ProviderType::Google, config@))
                    == Some(e),
            },
    {
        match OAuthClient::check(GOOGLE_AUTH_URL, GOOGLE_TOKEN_URL, &config) {
            Some(e) => Err(e),
            None => Ok(GoogleOAuthProvider::new(config)),
        }
    }
}

impl OAuthProvider for GoogleOAuthProvider {
    closed spec fn client_view(&self) -> OAuthClientView {
        self.client@
    }

    fn client(&self) -> (c: OAuthClient) {
        let c = self.client.clone();
        proof {
            use_type_invariant(&c);
        }
        c
    }
}

/// The Discord provider.
#[derive(Debug, PartialEq, Eq)]
pub struct DiscordOAuthProvider {
    client: OAuthClient,
}

impl DiscordOAuthProvider {
    /// The client always points at Discord's endpoints.
    #[verifier::type_invariant]
    spec fn endpoints_fixed(self) -> bool {
        &&& self.client@.auth_url == DISCORD_AUTH_URL@
        &&& self.client@.token_url == DISCORD_TOKEN_URL@
    }

    /// The configurations from which a Discord client can be built.
    pub open spec fn accepts(config: OAuthConfigView) -> bool {
        provider_client(ProviderType::Discord, config).wf()
    }

    /// The Discord client for `config`.
    pub fn new(config: OAuthConfig) -> (provider: Self)
        requires
            Self::accepts(config@),
        ensures
            provider.client_view() == provider_client(ProviderType::Discord, config@),
    {
        DiscordOAuthProvider {
            client: OAuthClient::assemble(DISCORD_AUTH_URL, DISCORD_TOKEN_URL, config),
        }
    }

    /// The Discord client for `config`, or the first URL that does not parse.
    pub fn try_new(config: OAuthConfig) -> (r: Result<Self, ConfigError>)
        ensures
            match r {
                Ok(provider) => {
                    &&& Self::accepts(config@)
                    &&& provider.client_view() == provider_client(ProviderType::Discord, config@)
                },
                Err(e) => first_invalid_url(provider_client(ProviderType::Discord, config@))
                    == Some(e),
            },
    {
        match OAuthClient::check(DISCORD_AUTH_URL, DISCORD_TOKEN_URL, &config) {
            Some(e) => Err(e),
            None => Ok(DiscordOAuthProvider::new(config)),
        }
    }
}

impl OAuthProvider for DiscordOAuthProvider {
    closed spec fn client_view(&self) -> OAuthClientView {
        self.client@
    }

    fn client(&self) -> (c: OAuthClient) {
        let c = self.client.clone();
        proof {
            use_type_invariant(&c);
        }
        c
    }
}

/// A provider whose client could not be built, and why.
#[derive(Clone, Copy, Debug, PartialEq, Eq, Structural)]
pub struct RegistryError {
    pub provider: ProviderType,
    pub reason: ConfigError,
}

/// The registry of all providers.
#[derive(Debug, PartialEq, Eq)]
pub struct MultiOAuthProvider {
    google: GoogleOAuthProvider,
    discord: DiscordOAuthProvider,
}

/// What a `MultiOAuthConfig` holds, as mathematical values.
pub struct MultiOAuthConfigView {
    pub google: OAuthConfigView,
    pub discord: OAuthConfigView,
}

impl View for MultiOAuthConfig {
    type V = MultiOAuthConfigView;

    open spec fn view(&self) -> MultiOAuthConfigView {
        MultiOAuthConfigView { google: self.google@, discord: self.discord@ }
    }
}

/// The configuration of one provider within the whole.
pub open spec fn config_of(config: MultiOAuthConfigView, provider: ProviderType) -> OAuthConfigView {
    match provider {
        ProviderType::Google => config.google,
        ProviderType::Discord => config.discord,
    }
}

/// The first provider, Google before Discord, whose client cannot be built.
pub open spec fn first_rejected(config: MultiOAuthConfigView) -> Option<RegistryError> {
    match first_invalid_url(provider_client(ProviderType::Google, config.google)) {
        Some(reason) => Some(RegistryError { provider: ProviderType::Google, reason }),
        None => match first_invalid_url(provider_client(ProviderType::Discord, config.discord)) {
            Some(reason) => Some(RegistryError { provider: ProviderType::Discord, reason }),
            None => None,
        },
    }
}

impl MultiOAuthProvider {
    /// The client registered for `provider`.
    pub closed spec fn client_view(&self, provider: ProviderType) -> OAuthClientView {
        match provider {
            ProviderType::Google => self.google.client_view(),
            ProviderType::Discord => self.discord.client_view(),
        }
    }

    /// The configurations from which the registry can be built.
    pub open spec fn accepts(config: MultiOAuthConfigView) -> bool {
        GoogleOAuthProvider::accepts(config.google) && DiscordOAuthProvider::accepts(config.discord)
    }

    /// The registry for `config`.
    pub fn new(config: MultiOAuthConfig) -> (registry: Self)
        requires
            Self::accepts(config@),
        ensures
            forall|p: ProviderType| #[trigger]
                registry.client_view(p) == provider_client(p, config_of(config@, p)),
    {
        MultiOAuthProvider {
            google: GoogleOAuthProvider::new(config.google),
            discord: DiscordOAuthProvider::new(config.discord),
        }
    }

    /// The registry for `config`, or the first provider whose client cannot
    /// be built, with the URL that does not parse.
    pub fn try_new(config: MultiOAuthConfig) -> (r: Result<Self, RegistryError>)
        ensures
            match r {
                Ok(registry) => {
                    &&& Self::accepts(config@)
                    &&& first_rejected(config@).is_none()
                    &&& forall|p: ProviderType| #[trigger]
                        registry.client_view(p) == provider_client(p, config_of(config@, p))
                },
                Err(e) => first_rejected(config@) == Some(e),
            },
    {
        match OAuthClient::check(GOOGLE_AUTH_URL, GOOGLE_TOKEN_URL, &config.google) {
            Some(reason) => {
                return Err(RegistryError { provider: ProviderType::Google, reason });
            },
            None => {},
        }
        match OAuthClient::check(DISCORD_AUTH_URL, DISCORD_TOKEN_URL, &config.discord) {
            Some(reason) => {
                return Err(RegistryError { provider: ProviderType::Discord, reason });
            },
            None => {},
        }
        Ok(MultiOAuthProvider::new(config))
    }

    /// A copy of the client registered for `provider_type`.
    pub fn client(&self, provider_type: ProviderType) -> (c: OAuthClient)
        ensures
            c@ == self.client_view(provider_type),
            c@.wf(),
            c@.auth_url == provider_auth_url(provider_type),
            c@.token_url == provider_token_url(provider_type),
    {
        proof {
            use_type_invariant(&self.google);
            use_type_invariant(&self.discord);
        }
        match provider_type {
            ProviderType::Google => self.google.client(),
            ProviderType::Discord => self.discord.client(),
        }
    }
}

} // verus!
