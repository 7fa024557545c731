//! Turning a request's session cookie into the signed-in user.

use vstd::prelude::*;
use crate::auth_dto::{DiscordAuthRedirect, RejectionCause, User, UserView};
use crate::cookie::{opt_str_text, session_token, token_in};
use crate::memory_store::{
    load_command_of, load_session, load_session_command, loaded, BackendReply, BackendReplyView,
    StoreCommand, StoreCommandView, StoreError,
};

verus! {

/// The first move of an identity extraction.
#[derive(Debug, PartialEq, Eq)]
pub enum Extraction {
    /// The request carries no session cookie: nobody is signed in.
    Rejected { rejection: DiscordAuthRedirect },
    /// Load the session that the cookie names, then read the reply.
    Load { command: StoreCommand },
}

/// What an `Extraction` holds, as mathematical values.
pub enum ExtractionView {
    Rejected { cause: RejectionCause },
    Load { command: StoreCommandView },
}

impl View for Extraction {
    type V = ExtractionView;

    open spec fn view(&self) -> ExtractionView {
        match self {
            Extraction::Rejected { rejection } => ExtractionView::Rejected {
                cause: rejection.cause,
            },
            Extraction::Load { command } => ExtractionView::Load { command: command@ },
        }
    }
}

/// The first move for a request that carries `token`. Without a token the
/// request is rejected for want of a cookie.
pub open spec fn extraction_for(token: Option<Seq<char>>) -> ExtractionView {
    match token {
        None => ExtractionView::Rejected { cause: RejectionCause::NoCookie },
        Some(t) => ExtractionView::Load { command: load_command_of(t) },
    }
}

/// The user that the store's reply identifies, or why it identifies
/// nobody: there is no record, the record cannot be read or holds no proper
/// user, or the store could not be reached.
pub open spec fn identity_or_cause(reply: BackendReplyView) -> Result<UserView, RejectionCause> {
    match loaded(reply) {
        Ok(Some(session)) => match session.identity() {
            Some(user) => Ok(user),
            None => Err(RejectionCause::BrokenSession),
        },
        Ok(None) => Err(RejectionCause::NoSession),
        Err(StoreError::SerializationError) => Err(RejectionCause::BrokenSession),
        Err(StoreError::StoreUnavailable) => Err(RejectionCause::StoreUnavailable),
    }
}

/// The user that the store's reply identifies, if it identifies one.
pub open spec fn identity_in(reply: BackendReplyView) -> Option<UserView> {
    match identity_or_cause(reply) {
        Ok(user) => Some(user),
        Err(_) => None,
    }
}

impl User {
    /// Starts the extraction for a request with the given `Cookie` header.
    pub fn from_request_parts(cookie_header: Option<&str>) -> (r: Extraction)
        ensures
            r@ == extraction_for(token_in(opt_str_text(cookie_header))),
    {
        match session_token(cookie_header) {
            None => Extraction::Rejected {
                rejection: DiscordAuthRedirect { cause: RejectionCause::NoCookie },
            },
            Some(token) => Extraction::Load { command: load_session_command(token.as_str()) },
        }
    }

    /// Ends the extraction for a handler that needs a user: the user that
    /// the reply identifies, or the redirect to the login, which keeps the
    /// cause for the log.
    pub fn from_session_reply(reply: BackendReply) -> (r: Result<User, DiscordAuthRedirect>)
        ensures
            match r {
                Ok(user) => identity_or_cause(reply@) == Ok::<UserView, RejectionCause>(user@),
                Err(rejection) => identity_or_cause(reply@) == Err::<UserView, RejectionCause>(
                    rejection.cause,
                ),
            },
    {
        match load_session(reply) {
            Ok(Some(session)) => match session.identity() {
                Some(user) => Ok(user),
                None => Err(DiscordAuthRedirect { cause: RejectionCause::BrokenSession }),
            },
            Ok(None) => Err(DiscordAuthRedirect { cause: RejectionCause::NoSession }),
            Err(StoreError::SerializationError) => Err(
                DiscordAuthRedirect { cause: RejectionCause::BrokenSession },
            ),
            Err(StoreError::StoreUnavailable) => Err(
                DiscordAuthRedirect { cause: RejectionCause::StoreUnavailable },
            ),
        }
    }

    /// Ends the extraction for a handler that also serves anonymous
    /// clients: the user that the reply identifies, if it identifies one.
    pub fn optional_from_session_reply(reply: BackendReply) -> (r: Option<User>)
        ensures
            match r {
                Some(user) => identity_in(reply@) == Some(user@),
                None => identity_in(reply@).is_none(),
            },
    {
        match User::from_session_reply(reply) {
            Ok(user) => Some(user),
            Err(_) => None,
        }
    }
}

} // verus!
