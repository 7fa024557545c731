//! Identities and the values exchanged with the browser during sign-in.

use vstd::prelude::*;
use crate::text::{copy_opt, owned};

verus! {

/// Name of the cookie that carries the session token.
pub const COOKIE_NAME: &'static str = "SESSION";

/// Path of the landing page, where sign-in and sign-out end.
pub const LANDING_PATH: &'static str = "/";

/// Path that starts a sign-in with the default provider.
pub const DEFAULT_LOGIN_PATH: &'static str = "/auth/discord";

/// Mathematical content of an optional string.
pub open spec fn opt_text(s: Option<String>) -> Option<Seq<char>> {
    match s {
        Some(v) => Some(v@),
        None => None,
    }
}

/// Profile record returned by Discord for the signed-in account.
#[derive(Debug, PartialEq, Eq)]
pub struct DiscordUser {
    pub id: String,
    pub avatar: Option<String>,
    pub username: String,
    pub discriminator: String,
}

/// What a `DiscordUser` holds, as mathematical values.
pub struct DiscordUserView {
    pub id: Seq<char>,
    pub avatar: Option<Seq<char>>,
    pub username: Seq<char>,
    pub discriminator: Seq<char>,
}

impl View for DiscordUser {
    type V = DiscordUserView;

    open spec fn view(&self) -> DiscordUserView {
        DiscordUserView {
            id: self.id@,
            avatar: opt_text(self.avatar),
            username: self.username@,
            discriminator: self.discriminator@,
        }
    }
}

impl Clone for DiscordUser {
    fn clone(&self) -> (r: Self)
        ensures
            r@ == self@,
    {
        DiscordUser {
            id: self.id.clone(),
            avatar: copy_opt(&self.avatar),
            username: self.username.clone(),
            discriminator: self.discriminator.clone(),
        }
    }
}

/// Profile record returned by Google for the signed-in account.
#[derive(Debug, PartialEq, Eq)]
pub struct GoogleUser {
    pub id: String,
    pub email: String,
    pub picture: Option<String>,
}

/// What a `GoogleUser` holds, as mathematical values.
pub struct GoogleUserView {
    pub id: Seq<char>,
    pub email: Seq<char>,
    pub picture: Option<Seq<char>>,
}

impl View for GoogleUser {
    type V = GoogleUserView;

    open spec fn view(&self) -> GoogleUserView {
        GoogleUserView { id: self.id@, email: self.email@, picture: opt_text(self.picture) }
    }
}

impl Clone for GoogleUser {
    fn clone(&self) -> (r: Self)
        ensures
            r@ == self@,
    {
        GoogleUser {
            id: self.id.clone(),
            email: self.email.clone(),
            picture: copy_opt(&self.picture),
        }
    }
}

/// What a provider's profile endpoint answered, tagged by provider.
#[derive(Debug, PartialEq, Eq)]
pub enum ProviderProfile {
    Discord(DiscordUser),
    Google(GoogleUser),
}

/// What a `ProviderProfile` holds, as mathematical values.
pub enum ProviderProfileView {
    Discord(DiscordUserView),
    Google(GoogleUserView),
}

impl View for ProviderProfile {
    type V = ProviderProfileView;

    open spec fn view(&self) -> ProviderProfileView {
        match self {
            ProviderProfile::Discord(d) => ProviderProfileView::Discord(d@),
            ProviderProfile::Google(g) => ProviderProfileView::Google(g@),
        }
    }
}

/// The canonical identity kept in a session.
///
/// A user produced by a sign-in has exactly one provider profile, and its
/// `username` is the display name taken from that profile.
#[derive(Debug, PartialEq, Eq)]
pub struct User {
    pub username: String,
    pub discord: Option<DiscordUser>,
    pub google: Option<GoogleUser>,
}

/// What a `User` holds, as mathematical values.
pub struct UserView {
    pub username: Seq<char>,
    pub discord: Option<DiscordUserView>,
    pub google: Option<GoogleUserView>,
}

impl UserView {
    /// Exactly one provider profile is present.
    pub open spec fn single_provider(self) -> bool {
        self.discord.is_some() != self.google.is_some()
    }
}

/// The user that a provider profile stands for.
pub open spec fn user_of_profile(profile: ProviderProfileView) -> UserView {
    match profile {
        ProviderProfileView::Discord(d) => UserView {
            username: d.username,
            discord: Some(d),
            google: None,
        },
        ProviderProfileView::Google(g) => UserView {
            username: g.email,
            discord: None,
            google: Some(g),
        },
    }
}

impl View for User {
    type V = UserView;

    open spec fn view(&self) -> UserView {
        UserView {
            username: self.username@,
            discord: match self.discord {
                Some(d) => Some(d@),
                None => None,
            },
            google: match self.google {
                Some(g) => Some(g@),
                None => None,
            },
        }
    }
}

impl Clone for User {
    fn clone(&self) -> (r: Self)
        ensures
            r@ == self@,
    {
        User {
            username: self.username.clone(),
            discord: match &self.discord {
                Some(d) => Some(d.clone()),
                None => None,
            },
            google: match &self.google {
                Some(g) => Some(g.clone()),
                None => None,
            },
        }
    }
}

impl User {
    /// Canonical user for a Discord profile: named after the Discord username.
    pub fn from_discord(profile: DiscordUser) -> (user: User)
        ensures
            user@ == user_of_profile(ProviderProfileView::Discord(profile@)),
    {
        User { username: profile.username.clone(), discord: Some(profile), google: None }
    }

    /// Canonical user for a Google profile: named after the e-mail address.
    pub fn from_google(profile: GoogleUser) -> (user: User)
        ensures
            user@ == user_of_profile(ProviderProfileView::Google(profile@)),
    {
        User { username: profile.email.clone(), discord: None, google: Some(profile) }
    }

    /// Canonical user for whichever provider answered.
    pub fn from_profile(profile: ProviderProfile) -> (user: User)
        ensures
            user@ == user_of_profile(profile@),
            user@.single_provider(),
    {
        match profile {
            ProviderProfile::Discord(d) => User::from_discord(d),
            ProviderProfile::Google(g) => User::from_google(g),
        }
    }

    /// Whether exactly one provider profile is present.
    pub fn has_single_provider(&self) -> (ok: bool)
        ensures
            ok == self@.single_provider(),
    {
        self.discord.is_some() != self.google.is_some()
    }
}

/// Query parameters that a provider sends back to the callback endpoint.
#[derive(Debug, PartialEq, Eq)]
pub struct OAuthRequest {
    pub code: String,
    pub state: String,
}

/// The callback payload under the name it had when Discord was the only provider.
pub type DiscordAuthRequest = OAuthRequest;

/// An HTTP redirect, optionally setting a cookie.
#[derive(Debug, PartialEq, Eq)]
pub struct Redirect {
    pub status: u16,
    pub location: String,
    pub set_cookie: Option<String>,
}

/// What a `Redirect` holds, as mathematical values.
pub struct RedirectView {
    pub status: u16,
    pub location: Seq<char>,
    pub set_cookie: Option<Seq<char>>,
}

impl View for Redirect {
    type V = RedirectView;

    open spec fn view(&self) -> RedirectView {
        RedirectView {
            status: self.status,
            location: self.location@,
            set_cookie: opt_text(self.set_cookie),
        }
    }
}

/// Status of a redirect that keeps the request method (a login redirect).
pub const TEMPORARY_REDIRECT: u16 = 307;

/// Status of a plain redirect (after a callback or a logout).
pub const FOUND: u16 = 302;

/// The redirect to the landing page that sets no cookie.
pub open spec fn landing_redirect() -> RedirectView {
    RedirectView { status: FOUND, location: LANDING_PATH@, set_cookie: None }
}

/// The redirect that sends an unauthenticated client to the default login.
pub open spec fn login_redirect() -> RedirectView {
    RedirectView { status: TEMPORARY_REDIRECT, location: DEFAULT_LOGIN_PATH@, set_cookie: None }
}

impl Redirect {
    /// Redirect to the landing page without touching cookies.
    pub fn to_landing() -> (r: Redirect)
        ensures
            r@ == landing_redirect(),
    {
        Redirect { status: FOUND, location: owned(LANDING_PATH), set_cookie: None }
    }
}

/// Why a request was found to carry no identity. The client is told none
/// of this; it is for the service's own log.
#[derive(Clone, Copy, Debug, PartialEq, Eq, Structural)]
pub enum RejectionCause {
    /// The request has no session cookie.
    NoCookie,
    /// The cookie names no stored session.
    NoSession,
    /// The stored session cannot be read, or holds no proper user.
    BrokenSession,
    /// The session store could not be reached.
    StoreUnavailable,
}

/// Rejection of a request that needs a signed-in user and has none.
#[derive(Clone, Copy, Debug, PartialEq, Eq, Structural)]
pub struct DiscordAuthRedirect {
    pub cause: RejectionCause,
}

impl DiscordAuthRedirect {
    /// The response for this rejection: a temporary redirect to the default login.
    pub fn into_response(self) -> (r: Redirect)
        ensures
            r@ == login_redirect(),
    {
        Redirect {
            status: TEMPORARY_REDIRECT,
            location: owned(DEFAULT_LOGIN_PATH),
            set_cookie: None,
        }
    }
}

} // verus!
