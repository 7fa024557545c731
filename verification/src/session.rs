//! The server-side session record.

use vstd::prelude::*;
use crate::auth_dto::{User, UserView};
use crate::cookie::token_text;

verus! {

/// What a session's payload holds under its `user` key.
#[derive(Debug, PartialEq, Eq)]
pub enum UserEntry {
    /// The payload has no such key.
    Missing,
    /// The key is bound to something that is not a user.
    Malformed,
    /// The key is bound to this user.
    Present(User),
}

/// What a `UserEntry` holds, as mathematical values.
pub enum UserEntryView {
    Missing,
    Malformed,
    Present(UserView),
}

impl View for UserEntry {
    type V = UserEntryView;

    open spec fn view(&self) -> UserEntryView {
        match self {
            UserEntry::Missing => UserEntryView::Missing,
            UserEntry::Malformed => UserEntryView::Malformed,
            UserEntry::Present(u) => UserEntryView::Present(u@),
        }
    }
}

impl Clone for UserEntry {
    fn clone(&self) -> (r: Self)
        ensures
            r@ == self@,
    {
        match self {
            UserEntry::Missing => UserEntry::Missing,
            UserEntry::Malformed => UserEntry::Malformed,
            UserEntry::Present(u) => UserEntry::Present(u.clone()),
        }
    }
}

/// A session record: the token that names it and the identity it holds.
#[derive(Debug, PartialEq, Eq)]
pub struct Session {
    pub id: String,
    pub user: UserEntry,
}

/// What a `Session` holds, as mathematical values.
pub struct SessionView {
    pub id: Seq<char>,
    pub user: UserEntryView,
}

impl SessionView {
    /// The user that this session identifies: the entry under `user`, when
    /// it is present and names exactly one provider.
    pub open spec fn identity(self) -> Option<UserView> {
        match self.user {
            UserEntryView::Present(u) => if u.single_provider() {
                Some(u)
            } else {
                None
            },
            _ => None,
        }
    }
}

impl View for Session {
    type V = SessionView;

    open spec fn view(&self) -> SessionView {
        SessionView { id: self.id@, user: self.user@ }
    }
}

impl Clone for Session {
    fn clone(&self) -> (r: Self)
        ensures
            r@ == self@,
    {
        Session { id: self.id.clone(), user: self.user.clone() }
    }
}

/// Number of characters in a freshly drawn session identifier.
pub const SESSION_ID_LENGTH: usize = 44;

/// Calls `async_session::Session::new` and hands out the new session's id.
/// The id is the base64 encoding, in the standard alphabet and with padding,
/// of a 32-byte hash of random bytes. So two things are claimed of it, which
/// hold of every outcome: it is base64 text, and it is 44 characters long.
#[verifier::external_body]
fn fresh_session_id() -> (id: String)
    ensures
        token_text(id@),
        id@.len() == SESSION_ID_LENGTH,
{
    async_session::Session::new().id().to_string()
}

impl Session {
    /// An empty session under a freshly drawn identifier: 44 characters of
    /// base64 text.
    pub fn new() -> (session: Session)
        ensures
            session@.user == UserEntryView::Missing,
            token_text(session@.id),
            session@.id.len() == SESSION_ID_LENGTH,
    {
        Session::with_id(fresh_session_id())
    }

    /// An empty session under the given identifier.
    pub fn with_id(id: String) -> (session: Session)
        ensures
            session@ == (SessionView { id: id@, user: UserEntryView::Missing }),
    {
        Session { id, user: UserEntry::Missing }
    }

    /// The token that names this session.
    pub fn id(&self) -> (id: &str)
        ensures
            id@ == self@.id,
    {
        self.id.as_str()
    }

    /// Binds the `user` key to `user`, replacing what was there.
    pub fn insert_user(&mut self, user: User)
        ensures
            final(self)@ == (SessionView {
                id: old(self)@.id,
                user: UserEntryView::Present(user@),
            }),
    {
        self.user = UserEntry::Present(user);
    }

    /// The user bound to the `user` key, if there is one.
    pub fn user(&self) -> (user: Option<User>)
        ensures
            match user {
                Some(u) => self@.user == UserEntryView::Present(u@),
                None => !(self@.user is Present),
            },
    {
        match &self.user {
            UserEntry::Present(u) => Some(u.clone()),
            _ => None,
        }
    }

    /// The user that this session identifies: the one bound to the `user`
    /// key, provided it names exactly one provider.
    pub fn identity(&self) -> (user: Option<User>)
        ensures
            match user {
                Some(u) => self@.identity() == Some(u@),
                None => self@.identity().is_none(),
            },
    {
        match &self.user {
            UserEntry::Present(u) => if u.has_single_provider() {
                Some(u.clone())
            } else {
                None
            },
            _ => None,
        }
    }
}

} // verus!
