//! The session store, as a protocol over a remote key-value backend.
//!
//! Nothing here talks to the backend. Each operation is a pair: a function
//! that names the command to run, and a function that reads the backend's
//! reply. Bulk deletion is a small state machine that the caller drives one
//! reply at a time. A mathematical model of the backend states what the
//! commands do to the stored records.

use vstd::prelude::*;
use crate::session::{Session, SessionView};
use crate::text::{join2, owned, texts};

verus! {

/// Prefix of every backend key that names a session record.
pub const SESSION_KEY_PREFIX: &'static str = "session:";

/// Pattern that matches every session key during a scan.
pub const SESSION_KEY_PATTERN: &'static str = "session:*";

/// The backend key of the session named by `token`.
pub open spec fn session_key_of(token: Seq<char>) -> Seq<char> {
    SESSION_KEY_PREFIX@ + token
}

/// Whether `key` names a session record: it starts with the session prefix.
pub open spec fn is_session_key(key: Seq<char>) -> bool {
    &&& key.len() >= SESSION_KEY_PREFIX@.len()
    &&& key.subrange(0, SESSION_KEY_PREFIX@.len() as int) == SESSION_KEY_PREFIX@
}

/// Why a store operation failed.
#[derive(Clone, Copy, Debug, PartialEq, Eq, Structural)]
pub enum StoreError {
    /// The backend could not be reached, or answered out of turn.
    StoreUnavailable,
    /// A record could not be written out or read back.
    SerializationError,
}

/// A command for the backend.
#[derive(Debug, PartialEq, Eq)]
pub enum StoreCommand {
    /// Read the record under `key`.
    Read { key: String },
    /// Write `session` under `key`, replacing what was there.
    Write { key: String, session: Session },
    /// Delete the records under `keys`; keys without a record are skipped.
    Delete { keys: Vec<String> },
    /// Return one page of the keys that match `pattern`, continuing the
    /// iteration at `cursor`; cursor 0 starts a new one.
    Scan { cursor: u64, pattern: String },
}

/// What a `StoreCommand` holds, as mathematical values.
pub enum StoreCommandView {
    Read { key: Seq<char> },
    Write { key: Seq<char>, session: SessionView },
    Delete { keys: Seq<Seq<char>> },
    Scan { cursor: u64, pattern: Seq<char> },
}

impl View for StoreCommand {
    type V = StoreCommandView;

    open spec fn view(&self) -> StoreCommandView {
        match self {
            StoreCommand::Read { key } => StoreCommandView::Read { key: key@ },
            StoreCommand::Write { key, session } => StoreCommandView::Write {
                key: key@,
                session: session@,
            },
            StoreCommand::Delete { keys } => StoreCommandView::Delete { keys: texts(keys@) },
            StoreCommand::Scan { cursor, pattern } => StoreCommandView::Scan {
                cursor: *cursor,
                pattern: pattern@,
            },
        }
    }
}

/// What the backend answered to a command.
#[derive(Debug, PartialEq, Eq)]
pub enum BackendReply {
    /// The backend could not be reached in time.
    Unavailable,
    /// `Read`: there is no record under the key.
    Missing,
    /// `Read`: there is a record under the key, and it cannot be read as a session.
    Corrupt,
    /// `Read`: the record under the key.
    Record { session: Session },
    /// `Write`: the record was written.
    Written,
    /// `Write`: the session could not be written out, and nothing was stored.
    Unwritable,
    /// `Delete`: the records are gone.
    Deleted,
    /// `Scan`: one page of matching keys, and the cursor that continues the
    /// iteration; cursor 0 says that this was the last page.
    Page { cursor: u64, keys: Vec<String> },
}

/// What a `BackendReply` holds, as mathematical values.
pub enum BackendReplyView {
    Unavailable,
    Missing,
    Corrupt,
    Record { session: SessionView },
    Written,
    Unwritable,
    Deleted,
    Page { cursor: u64, keys: Seq<Seq<char>> },
}

impl View for BackendReply {
    type V = BackendReplyView;

    open spec fn view(&self) -> BackendReplyView {
        match self {
            BackendReply::Unavailable => BackendReplyView::Unavailable,
            BackendReply::Missing => BackendReplyView::Missing,
            BackendReply::Corrupt => BackendReplyView::Corrupt,
            BackendReply::Record { session } => BackendReplyView::Record { session: session@ },
            BackendReply::Written => BackendReplyView::Written,
            BackendReply::Unwritable => BackendReplyView::Unwritable,
            BackendReply::Deleted => BackendReplyView::Deleted,
            BackendReply::Page { cursor, keys } => BackendReplyView::Page {
                cursor: *cursor,
                keys: texts(keys@),
            },
        }
    }
}

/// The command that loads the session named by `token`.
pub open spec fn load_command_of(token: Seq<char>) -> StoreCommandView {
    StoreCommandView::Read { key: session_key_of(token) }
}

/// The command that stores `session` under its own token.
pub open spec fn store_command_of(session: SessionView) -> StoreCommandView {
    StoreCommandView::Write { key: session_key_of(session.id), session }
}

/// The command that destroys the session named by `token`.
pub open spec fn destroy_command_of(token: Seq<char>) -> StoreCommandView {
    StoreCommandView::Delete { keys: seq![session_key_of(token)] }
}

/// The command that scans for session keys, continuing at `cursor`.
pub open spec fn scan_command_of(cursor: u64) -> StoreCommandView {
    StoreCommandView::Scan { cursor, pattern: SESSION_KEY_PATTERN@ }
}

/// What a load makes of the backend's reply: the record, its absence, or
/// the reason for failure. Absence is no failure.
pub open spec fn loaded(reply: BackendReplyView) -> Result<Option<SessionView>, StoreError> {
    match reply {
        BackendReplyView::Record { session } => Ok(Some(session)),
        BackendReplyView::Missing => Ok(None),
        BackendReplyView::Corrupt => Err(StoreError::SerializationError),
        _ => Err(StoreError::StoreUnavailable),
    }
}

/// What a store makes of the backend's reply: the token for the cookie, or
/// the reason for failure.
pub open spec fn stored(token: Seq<char>, reply: BackendReplyView) -> Result<
    Option<Seq<char>>,
    StoreError,
> {
    match reply {
        BackendReplyView::Written => Ok(Some(token)),
        BackendReplyView::Unwritable => Err(StoreError::SerializationError),
        _ => Err(StoreError::StoreUnavailable),
    }
}

/// What a destroy makes of the backend's reply.
pub open spec fn destroyed(reply: BackendReplyView) -> Result<(), StoreError> {
    match reply {
        BackendReplyView::Deleted => Ok(()),
        _ => Err(StoreError::StoreUnavailable),
    }
}

/// The backend key of the session named by `token`.
pub fn session_key(token: &str) -> (key: String)
    ensures
        key@ == session_key_of(token@),
{
    join2(SESSION_KEY_PREFIX, token)
}

/// The command that loads the session that a cookie value names.
pub fn load_session_command(cookie_value: &str) -> (command: StoreCommand)
    ensures
        command@ == load_command_of(cookie_value@),
{
    StoreCommand::Read { key: session_key(cookie_value) }
}

/// Reads the reply to a load: the session, `None` when no record matches,
/// `SerializationError` for a record that is no session, and
/// `StoreUnavailable` for every other reply.
pub fn load_session(reply: BackendReply) -> (r: Result<Option<Session>, StoreError>)
    ensures
        match r {
            Ok(Some(session)) => loaded(reply@) == Ok::<Option<SessionView>, StoreError>(
                Some(session@),
            ),
            Ok(None) => loaded(reply@) == Ok::<Option<SessionView>, StoreError>(None),
            Err(e) => loaded(reply@) == Err::<Option<SessionView>, StoreError>(e),
        },
{
    match reply {
        BackendReply::Record { session } => Ok(Some(session)),
        BackendReply::Missing => Ok(None),
        BackendReply::Corrupt => Err(StoreError::SerializationError),
        _ => Err(StoreError::StoreUnavailable),
    }
}

/// The command that stores `session` under its own token.
pub fn store_session_command(session: Session) -> (command: StoreCommand)
    ensures
        command@ == store_command_of(session@),
{
    let key = session_key(session.id.as_str());
    StoreCommand::Write { key, session }
}

/// Reads the reply to a store of the session named by `token`: the token,
/// to be placed in the cookie, when the record was written;
/// `SerializationError` when the session could not be written out, and
/// `StoreUnavailable` for every other reply.
pub fn store_session(token: &str, reply: BackendReply) -> (r: Result<Option<String>, StoreError>)
    ensures
        match r {
            Ok(Some(t)) => stored(token@, reply@) == Ok::<Option<Seq<char>>, StoreError>(
                Some(t@),
            ),
            Ok(None) => false,
            Err(e) => stored(token@, reply@) == Err::<Option<Seq<char>>, StoreError>(e),
        },
{
    match reply {
        BackendReply::Written => Ok(Some(owned(token))),
        BackendReply::Unwritable => Err(StoreError::SerializationError),
        _ => Err(StoreError::StoreUnavailable),
    }
}

/// The command that destroys `session`.
pub fn destroy_session_command(session: &Session) -> (command: StoreCommand)
    ensures
        command@ == destroy_command_of(session@.id),
{
    let mut keys: Vec<String> = Vec::new();
    keys.push(session_key(session.id.as_str()));
    assert(texts(keys@) =~= seq![session_key_of(session@.id)]);
    StoreCommand::Delete { keys }
}

/// Reads the reply to a destroy: done when the backend deleted, whether or
/// not a record was there; `StoreUnavailable` for every other reply.
pub fn destroy_session(reply: BackendReply) -> (r: Result<(), StoreError>)
    ensures
        r == destroyed(reply@),
{
    match reply {
        BackendReply::Deleted => Ok(()),
        _ => Err(StoreError::StoreUnavailable),
    }
}

/// Where a bulk deletion stands.
#[derive(Clone, Copy, Debug, PartialEq, Eq, Structural)]
pub enum ClearState {
    /// A scan is out; its page is awaited.
    Scanning,
    /// The keys of a page are being deleted; `next_cursor` is the cursor
    /// that came with the page.
    Deleting { next_cursor: u64 },
    /// The backend reported the end of the iteration.
    Finished,
    /// The backend failed; the deletion was abandoned.
    Failed,
}

/// What the caller does next in a bulk deletion.
#[derive(Debug, PartialEq, Eq)]
pub enum ClearAction {
    /// Run the command and come back with the backend's reply.
    Run { command: StoreCommand },
    /// Stop: the bulk deletion ended with this result.
    Done { result: Result<(), StoreError> },
}

/// What a `ClearAction` holds, as mathematical values.
pub enum ClearActionView {
    Run { command: StoreCommandView },
    Done { result: Result<(), StoreError> },
}

impl View for ClearAction {
    type V = ClearActionView;

    open spec fn view(&self) -> ClearActionView {
        match self {
            ClearAction::Run { command } => ClearActionView::Run { command: command@ },
            ClearAction::Done { result } => ClearActionView::Done { result: *result },
        }
    }
}

/// One move of a bulk deletion: the state reached and what to do next.
#[derive(Debug, PartialEq, Eq)]
pub struct ClearStep {
    pub state: ClearState,
    pub action: ClearAction,
}

/// What a `ClearStep` holds, as mathematical values.
pub struct ClearStepView {
    pub state: ClearState,
    pub action: ClearActionView,
}

impl View for ClearStep {
    type V = ClearStepView;

    open spec fn view(&self) -> ClearStepView {
        ClearStepView { state: self.state, action: self.action@ }
    }
}

/// The first move of a bulk deletion: scan from the initial cursor.
pub open spec fn clear_start() -> ClearStepView {
    ClearStepView {
        state: ClearState::Scanning,
        action: ClearActionView::Run { command: scan_command_of(0) },
    }
}

/// The move after a page has been dealt with: stop when the page's cursor
/// is back at 0, scan on from that cursor otherwise.
pub open spec fn clear_after_page(cursor: u64) -> ClearStepView {
    if cursor == 0 {
        ClearStepView {
            state: ClearState::Finished,
            action: ClearActionView::Done { result: Ok(()) },
        }
    } else {
        ClearStepView {
            state: ClearState::Scanning,
            action: ClearActionView::Run { command: scan_command_of(cursor) },
        }
    }
}

/// The move that abandons a bulk deletion.
pub open spec fn clear_failed() -> ClearStepView {
    ClearStepView {
        state: ClearState::Failed,
        action: ClearActionView::Done { result: Err(StoreError::StoreUnavailable) },
    }
}

/// The move of a bulk deletion in `state` on the backend's `reply`.
///
/// A page with keys has them deleted before the scan goes on; an empty page
/// is passed over. Only a reply that answers the command that is out is
/// accepted; anything else abandons the deletion. The two final states
/// answer every reply with their result.
pub open spec fn clear_step(state: ClearState, reply: BackendReplyView) -> ClearStepView {
    match state {
        ClearState::Scanning => match reply {
            BackendReplyView::Page { cursor, keys } => if keys.len() > 0 {
                ClearStepView {
                    state: ClearState::Deleting { next_cursor: cursor },
                    action: ClearActionView::Run { command: StoreCommandView::Delete { keys } },
                }
            } else {
                clear_after_page(cursor)
            },
            _ => clear_failed(),
        },
        ClearState::Deleting { next_cursor } => match reply {
            BackendReplyView::Deleted => clear_after_page(next_cursor),
            _ => clear_failed(),
        },
        ClearState::Finished => ClearStepView {
            state: ClearState::Finished,
            action: ClearActionView::Done { result: Ok(()) },
        },
        ClearState::Failed => clear_failed(),
    }
}

/// The scan command that continues at `cursor`.
fn scan_command(cursor: u64) -> (command: StoreCommand)
    ensures
        command@ == scan_command_of(cursor),
{
    StoreCommand::Scan { cursor, pattern: owned(SESSION_KEY_PATTERN) }
}

/// The move after a page has been dealt with.
fn after_page(cursor: u64) -> (step: ClearStep)
    ensures
        step@ == clear_after_page(cursor),
{
    if cursor == 0 {
        ClearStep { state: ClearState::Finished, action: ClearAction::Done { result: Ok(()) } }
    } else {
        ClearStep {
            state: ClearState::Scanning,
            action: ClearAction::Run { command: scan_command(cursor) },
        }
    }
}

/// The move that abandons a bulk deletion.
fn abandon() -> (step: ClearStep)
    ensures
        step@ == clear_failed(),
{
    ClearStep {
        state: ClearState::Failed,
        action: ClearAction::Done { result: Err(StoreError::StoreUnavailable) },
    }
}

/// Starts the deletion of every session record: the first scan.
pub fn clear_store() -> (step: ClearStep)
    ensures
        step@ == clear_start(),
{
    ClearStep { state: ClearState::Scanning, action: ClearAction::Run { command: scan_command(0) } }
}

/// Continues the deletion of every session record with the backend's reply
/// to the command that the previous move asked for.
pub fn clear_store_step(state: ClearState, reply: BackendReply) -> (step: ClearStep)
    ensures
        step@ == clear_step(state, reply@),
{
    match state {
        ClearState::Scanning => match reply {
            BackendReply::Page { cursor, keys } => if keys.len() > 0 {
                ClearStep {
                    state: ClearState::Deleting { next_cursor: cursor },
                    action: ClearAction::Run { command: StoreCommand::Delete { keys } },
                }
            } else {
                after_page(cursor)
            },
            _ => abandon(),
        },
        ClearState::Deleting { next_cursor } => match reply {
            BackendReply::Deleted => after_page(next_cursor),
            _ => abandon(),
        },
        ClearState::Finished => ClearStep {
            state: ClearState::Finished,
            action: ClearAction::Done { result: Ok(()) },
        },
        ClearState::Failed => abandon(),
    }
}

} // verus!
