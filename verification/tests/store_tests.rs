use std::collections::BTreeMap;

use sabi::auth_dto::{DiscordUser, GoogleUser, ProviderProfile, User};
use sabi::memory_store::{
    clear_store, clear_store_step, destroy_session, destroy_session_command, load_session,
    load_session_command, session_key, store_session, store_session_command, BackendReply,
    ClearAction, ClearState, StoreCommand, StoreError,
};
use sabi::session::{Session, UserEntry};

/// A backend in memory. A scan works on a snapshot of the matching keys
/// taken when the iteration starts, as a real backend guarantees that every
/// key present throughout the iteration is returned.
struct Backend {
    records: BTreeMap<String, Session>,
    other: BTreeMap<String, String>,
    page_size: usize,
    empty_page_every: usize,
    snapshot: Vec<String>,
    scans: usize,
}

impl Backend {
    fn new(page_size: usize) -> Backend {
        Backend {
            records: BTreeMap::new(),
            other: BTreeMap::new(),
            page_size,
            empty_page_every: 0,
            snapshot: Vec::new(),
            scans: 0,
        }
    }

    fn run(&mut self, command: StoreCommand) -> BackendReply {
        match command {
            StoreCommand::Read { key } => match self.records.get(&key) {
                Some(session) => BackendReply::Record { session: session.clone() },
                None => BackendReply::Missing,
            },
            StoreCommand::Write { key, session } => {
                self.records.insert(key, session);
                BackendReply::Written
            }
            StoreCommand::Delete { keys } => {
                for key in keys {
                    self.records.remove(&key);
                    self.other.remove(&key);
                }
                BackendReply::Deleted
            }
            StoreCommand::Scan { cursor, pattern } => {
                assert_eq!(pattern, "session:*");
                self.scans += 1;
                if cursor == 0 {
                    self.snapshot = self
                        .records
                        .keys()
                        .filter(|k| k.starts_with("session:"))
                        .cloned()
                        .collect();
                }
                let encoded = cursor as usize;
                let offset = encoded / 2;
                if self.empty_page_every > 0 && encoded % 2 == 0 && offset > 0
                    && (offset / self.page_size) % self.empty_page_every == 0
                    && offset < self.snapshot.len()
                {
                    return BackendReply::Page { cursor: (encoded + 1) as u64, keys: Vec::new() };
                }
                let end = std::cmp::min(offset + self.page_size, self.snapshot.len());
                let keys: Vec<String> = self.snapshot[offset..end].to_vec();
                let next = if end >= self.snapshot.len() { 0 } else { (end * 2) as u64 };
                BackendReply::Page { cursor: next, keys }
            }
        }
    }

    fn clear(&mut self) -> Result<(), StoreError> {
        let mut step = clear_store();
        loop {
            match step.action {
                ClearAction::Done { result } => return result,
                ClearAction::Run { command } => {
                    let reply = self.run(command);
                    step = clear_store_step(step.state, reply);
                }
            }
        }
    }
}

fn alice() -> User {
    User::from_discord(DiscordUser {
        id: "1".to_string(),
        avatar: None,
        username: "alice".to_string(),
        discriminator: "0001".to_string(),
    })
}

fn session_of(id: &str, user: User) -> Session {
    let mut session = Session::with_id(id.to_string());
    session.insert_user(user);
    session
}

fn fill(backend: &mut Backend, count: usize) {
    for i in 0..count {
        let session = session_of(&format!("token-{}", i), alice());
        let reply = backend.run(store_session_command(session));
        assert_eq!(reply, BackendReply::Written);
    }
}

#[test]
fn session_key_has_the_session_prefix() {
    assert_eq!(session_key("abc"), "session:abc");
    assert_eq!(session_key(""), "session:");
}

#[test]
fn load_command_reads_the_key_of_the_cookie_value() {
    assert_eq!(
        load_session_command("abc"),
        StoreCommand::Read { key: "session:abc".to_string() }
    );
}

#[test]
fn store_command_writes_under_the_sessions_own_key() {
    let session = session_of("tok", alice());
    assert_eq!(
        store_session_command(session.clone()),
        StoreCommand::Write { key: "session:tok".to_string(), session }
    );
}

#[test]
fn destroy_command_deletes_the_sessions_key() {
    let session = session_of("tok", alice());
    assert_eq!(
        destroy_session_command(&session),
        StoreCommand::Delete { keys: vec!["session:tok".to_string()] }
    );
}

#[test]
fn load_reads_each_reply() {
    let session = session_of("tok", alice());
    assert_eq!(load_session(BackendReply::Record { session: session.clone() }), Ok(Some(session)));
    assert_eq!(load_session(BackendReply::Missing), Ok(None));
    assert_eq!(load_session(BackendReply::Corrupt), Err(StoreError::SerializationError));
    assert_eq!(load_session(BackendReply::Unavailable), Err(StoreError::StoreUnavailable));
    assert_eq!(load_session(BackendReply::Written), Err(StoreError::StoreUnavailable));
    assert_eq!(load_session(BackendReply::Deleted), Err(StoreError::StoreUnavailable));
}

#[test]
fn store_reads_each_reply() {
    assert_eq!(store_session("tok", BackendReply::Written), Ok(Some("tok".to_string())));
    assert_eq!(
        store_session("tok", BackendReply::Unwritable),
        Err(StoreError::SerializationError)
    );
    assert_eq!(store_session("tok", BackendReply::Unavailable), Err(StoreError::StoreUnavailable));
    assert_eq!(store_session("tok", BackendReply::Missing), Err(StoreError::StoreUnavailable));
}

#[test]
fn destroy_reads_each_reply() {
    assert_eq!(destroy_session(BackendReply::Deleted), Ok(()));
    assert_eq!(destroy_session(BackendReply::Unavailable), Err(StoreError::StoreUnavailable));
    assert_eq!(destroy_session(BackendReply::Written), Err(StoreError::StoreUnavailable));
}

#[test]
fn stored_user_is_loaded_back_equal_in_all_fields() {
    let mut backend = Backend::new(10);
    let user = User::from_google(GoogleUser {
        id: "42".to_string(),
        email: "bob@example.com".to_string(),
        picture: Some("https://example.com/bob.png".to_string()),
    });
    let session = session_of("round-trip", user.clone());
    let reply = backend.run(store_session_command(session));
    let token = store_session("round-trip", reply).unwrap().unwrap();
    assert_eq!(token, "round-trip");

    let reply = backend.run(load_session_command(&token));
    let loaded = load_session(reply).unwrap().unwrap();
    assert_eq!(loaded.id, "round-trip");
    let loaded_user = loaded.user().unwrap();
    assert_eq!(loaded_user, user);
    assert_eq!(loaded_user.username, "bob@example.com");
    assert_eq!(loaded_user.google.unwrap().picture.unwrap(), "https://example.com/bob.png");
    assert!(loaded_user.discord.is_none());
}

#[test]
fn store_creates_exactly_one_record() {
    let mut backend = Backend::new(10);
    fill(&mut backend, 3);
    assert_eq!(backend.records.len(), 3);
    backend.run(store_session_command(session_of("fresh", alice())));
    assert_eq!(backend.records.len(), 4);
    assert!(backend.records.contains_key("session:fresh"));
}

#[test]
fn absent_record_loads_as_none() {
    let mut backend = Backend::new(10);
    fill(&mut backend, 3);
    let reply = backend.run(load_session_command("nobody"));
    assert_eq!(load_session(reply), Ok(None));
}

#[test]
fn destroy_is_idempotent() {
    let mut backend = Backend::new(10);
    fill(&mut backend, 2);
    let session = session_of("token-0", alice());
    let reply = backend.run(destroy_session_command(&session));
    assert_eq!(destroy_session(reply), Ok(()));
    assert_eq!(backend.records.len(), 1);
    let reply = backend.run(destroy_session_command(&session));
    assert_eq!(destroy_session(reply), Ok(()));
    assert_eq!(backend.records.len(), 1);
    let reply = backend.run(load_session_command("token-0"));
    assert_eq!(load_session(reply), Ok(None));
}

#[test]
fn clear_store_starts_with_a_scan_from_cursor_zero() {
    let step = clear_store();
    assert_eq!(step.state, ClearState::Scanning);
    assert_eq!(
        step.action,
        ClearAction::Run {
            command: StoreCommand::Scan { cursor: 0, pattern: "session:*".to_string() }
        }
    );
}

#[test]
fn clear_store_deletes_a_page_then_scans_on() {
    let keys = vec!["session:a".to_string(), "session:b".to_string()];
    let step =
        clear_store_step(ClearState::Scanning, BackendReply::Page { cursor: 17, keys: keys.clone() });
    assert_eq!(step.state, ClearState::Deleting { next_cursor: 17 });
    assert_eq!(step.action, ClearAction::Run { command: StoreCommand::Delete { keys } });

    let step = clear_store_step(step.state, BackendReply::Deleted);
    assert_eq!(step.state, ClearState::Scanning);
    assert_eq!(
        step.action,
        ClearAction::Run {
            command: StoreCommand::Scan { cursor: 17, pattern: "session:*".to_string() }
        }
    );
}

#[test]
fn clear_store_passes_over_an_empty_page() {
    let step =
        clear_store_step(ClearState::Scanning, BackendReply::Page { cursor: 5, keys: Vec::new() });
    assert_eq!(step.state, ClearState::Scanning);
    assert_eq!(
        step.action,
        ClearAction::Run {
            command: StoreCommand::Scan { cursor: 5, pattern: "session:*".to_string() }
        }
    );
}

#[test]
fn clear_store_ends_when_the_cursor_is_back_at_zero() {
    let step =
        clear_store_step(ClearState::Scanning, BackendReply::Page { cursor: 0, keys: Vec::new() });
    assert_eq!(step.state, ClearState::Finished);
    assert_eq!(step.action, ClearAction::Done { result: Ok(()) });

    let step = clear_store_step(
        ClearState::Scanning,
        BackendReply::Page { cursor: 0, keys: vec!["session:z".to_string()] },
    );
    assert_eq!(step.state, ClearState::Deleting { next_cursor: 0 });
    let step = clear_store_step(step.state, BackendReply::Deleted);
    assert_eq!(step.state, ClearState::Finished);
    assert_eq!(step.action, ClearAction::Done { result: Ok(()) });
}

#[test]
fn clear_store_gives_up_when_the_backend_fails() {
    let step = clear_store_step(ClearState::Scanning, BackendReply::Unavailable);
    assert_eq!(step.state, ClearState::Failed);
    assert_eq!(step.action, ClearAction::Done { result: Err(StoreError::StoreUnavailable) });

    let step = clear_store_step(ClearState::Deleting { next_cursor: 3 }, BackendReply::Unavailable);
    assert_eq!(step.state, ClearState::Failed);

    let step = clear_store_step(ClearState::Scanning, BackendReply::Deleted);
    assert_eq!(step.state, ClearState::Failed);

    let step = clear_store_step(ClearState::Failed, BackendReply::Deleted);
    assert_eq!(step.state, ClearState::Failed);
    let step = clear_store_step(ClearState::Finished, BackendReply::Unavailable);
    assert_eq!(step.state, ClearState::Finished);
    assert_eq!(step.action, ClearAction::Done { result: Ok(()) });
}

#[test]
fn clear_store_removes_250_sessions_whatever_the_page_size() {
    for page_size in [1usize, 2, 7, 10, 100, 249, 250, 251, 1000] {
        let mut backend = Backend::new(page_size);
        fill(&mut backend, 250);
        backend.other.insert("test_key".to_string(), "test_value".to_string());
        assert_eq!(backend.records.len(), 250);

        assert_eq!(backend.clear(), Ok(()));

        assert_eq!(backend.records.len(), 0, "page size {}", page_size);
        assert_eq!(backend.other.len(), 1);
        let pages = (250 + page_size - 1) / page_size;
        assert_eq!(backend.scans, pages, "page size {}", page_size);
    }
}

#[test]
fn clear_store_tolerates_empty_pages_in_the_iteration() {
    let mut backend = Backend::new(10);
    backend.empty_page_every = 3;
    fill(&mut backend, 250);
    assert_eq!(backend.clear(), Ok(()));
    assert_eq!(backend.records.len(), 0);
    assert!(backend.scans > 25);
}

#[test]
fn clear_store_on_an_empty_backend_is_one_scan() {
    let mut backend = Backend::new(10);
    assert_eq!(backend.clear(), Ok(()));
    assert_eq!(backend.scans, 1);
}

#[test]
fn session_user_entry_decides_the_identity() {
    let mut session = Session::with_id("s".to_string());
    assert_eq!(session.user, UserEntry::Missing);
    assert_eq!(session.user(), None);
    assert_eq!(session.identity(), None);

    session.user = UserEntry::Malformed;
    assert_eq!(session.identity(), None);

    session.insert_user(alice());
    assert_eq!(session.id(), "s");
    assert_eq!(session.identity(), Some(alice()));

    let mut both = alice();
    both.google = Some(GoogleUser {
        id: "9".to_string(),
        email: "a@example.com".to_string(),
        picture: None,
    });
    session.insert_user(both.clone());
    assert_eq!(session.user(), Some(both));
    assert_eq!(session.identity(), None);

    let neither = User { username: "ghost".to_string(), discord: None, google: None };
    session.insert_user(neither);
    assert_eq!(session.identity(), None);
}

#[test]
fn new_sessions_get_distinct_base64_tokens() {
    let a = Session::new();
    let b = Session::new();
    assert_ne!(a.id, b.id);
    assert_eq!(a.id.chars().count(), 44);
    assert_eq!(b.id.chars().count(), 44);
    assert!(a.id.chars().all(|c| c.is_ascii_alphanumeric() || c == '+' || c == '/' || c == '='));
    assert_eq!(a.user, UserEntry::Missing);
}

#[test]
fn profile_becomes_the_canonical_user() {
    let user = User::from_profile(ProviderProfile::Google(GoogleUser {
        id: "7".to_string(),
        email: "carol@example.com".to_string(),
        picture: None,
    }));
    assert_eq!(user.username, "carol@example.com");
    assert!(user.google.is_some());
    assert!(user.discord.is_none());
    assert!(user.has_single_provider());
}
