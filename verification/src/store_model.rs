//! A mathematical model of the key-value backend, and what the session
//! store's commands are proved to do to it.

use vstd::prelude::*;
use crate::memory_store::{
    clear_start, clear_step, destroy_command_of, is_session_key, load_command_of, loaded,
    session_key_of, store_command_of, stored, BackendReplyView, ClearActionView, ClearState,
    StoreCommandView, StoreError,
};
use crate::session::SessionView;

verus! {

/// The records that a backend holds, by key.
pub type Records = Map<Seq<char>, SessionView>;

/// The records after the backend has run `command`.
pub open spec fn records_after(records: Records, command: StoreCommandView) -> Records {
    match command {
        StoreCommandView::Read { key } => records,
        StoreCommandView::Write { key, session } => records.insert(key, session),
        StoreCommandView::Delete { keys } => records.remove_keys(keys.to_set()),
        StoreCommandView::Scan { cursor, pattern } => records,
    }
}

/// What a reachable backend answers to a read of `key`.
pub open spec fn read_reply(records: Records, key: Seq<char>) -> BackendReplyView {
    if records.dom().contains(key) {
        BackendReplyView::Record { session: records[key] }
    } else {
        BackendReplyView::Missing
    }
}

/// Every record is filed under the key of its own token.
pub open spec fn filed_by_token(records: Records) -> bool {
    forall|key: Seq<char>| #[trigger]
        records.dom().contains(key) ==> key == session_key_of(records[key].id)
}

/// Loading the session named by `token` from a reachable backend.
pub open spec fn load_on(records: Records, token: Seq<char>) -> Result<
    Option<SessionView>,
    StoreError,
> {
    match load_command_of(token) {
        StoreCommandView::Read { key } => loaded(read_reply(records, key)),
        _ => Err(StoreError::StoreUnavailable),
    }
}

/// The records after `session` was stored.
pub open spec fn store_on(records: Records, session: SessionView) -> Records {
    records_after(records, store_command_of(session))
}

/// The records after the session named by `token` was destroyed.
pub open spec fn destroy_on(records: Records, token: Seq<char>) -> Records {
    records_after(records, destroy_command_of(token))
}

/// A session key is a session key.
pub proof fn lemma_session_key(token: Seq<char>)
    ensures
        is_session_key(session_key_of(token)),
{
    let key = session_key_of(token);
    assert(key.subrange(0, crate::memory_store::SESSION_KEY_PREFIX@.len() as int)
        =~= crate::memory_store::SESSION_KEY_PREFIX@);
}

/// Two tokens never share a key.
pub proof fn lemma_session_key_injective(a: Seq<char>, b: Seq<char>)
    requires
        session_key_of(a) == session_key_of(b),
    ensures
        a == b,
{
    let prefix = crate::memory_store::SESSION_KEY_PREFIX@;
    let n = prefix.len() as int;
    assert(session_key_of(a).len() == n + a.len());
    assert(session_key_of(b).len() == n + b.len());
    assert forall|i: int| 0 <= i < a.len() implies a[i] == b[i] by {
        assert(session_key_of(a)[n + i] == a[i]);
        assert(session_key_of(b)[n + i] == b[i]);
    }
    assert(a =~= b);
}

/// Round trip: a session that was stored is loaded back, whole, by the
/// token that the store returned for the cookie, whatever the backend held
/// before. The user in it is the user that was put in, field by field.
pub proof fn law_store_then_load(records: Records, session: SessionView)
    ensures
        stored(session.id, BackendReplyView::Written) == Ok::<Option<Seq<char>>, StoreError>(
            Some(session.id),
        ),
        load_on(store_on(records, session), session.id) == Ok::<Option<SessionView>, StoreError>(
            Some(session),
        ),
        load_on(store_on(records, session), session.id) matches Ok(Some(found)) && found.user
            == session.user,
{
}

/// A store touches one record: the one under the session's own key. Every
/// other key keeps what it had, and a store on a token that had no record
/// makes the backend exactly one record larger.
pub proof fn law_store_writes_one_record(records: Records, session: SessionView)
    ensures
        store_on(records, session).dom() == records.dom().insert(session_key_of(session.id)),
        forall|key: Seq<char>|
            key != session_key_of(session.id) && records.dom().contains(key) ==> #[trigger] store_on(
                records,
                session,
            )[key] == records[key],
        records.dom().finite() && !records.dom().contains(session_key_of(session.id))
            ==> store_on(records, session).dom().len() == records.dom().len() + 1,
        filed_by_token(records) ==> filed_by_token(store_on(records, session)),
{
}

/// A token without a record loads as absent, which is no error.
pub proof fn law_load_absent(records: Records, token: Seq<char>)
    requires
        !records.dom().contains(session_key_of(token)),
    ensures
        load_on(records, token) == Ok::<Option<SessionView>, StoreError>(None),
{
}

/// Destroying removes the token's record and nothing else; destroying again,
/// or destroying what was never there, changes nothing.
pub proof fn law_destroy_idempotent(records: Records, token: Seq<char>)
    ensures
        destroy_on(records, token) == records.remove(session_key_of(token)),
        destroy_on(destroy_on(records, token), token) == destroy_on(records, token),
        !records.dom().contains(session_key_of(token)) ==> destroy_on(records, token) == records,
        load_on(destroy_on(records, token), token) == Ok::<Option<SessionView>, StoreError>(None),
        filed_by_token(records) ==> filed_by_token(destroy_on(records, token)),
{
    let key = session_key_of(token);
    let keys = seq![key];
    assert(keys.to_set() =~= set![key]) by {
        assert(keys[0] == key);
    }
    assert(records.remove_keys(set![key]) =~= records.remove(key));
    assert(records.remove(key).remove(key) =~= records.remove(key));
    if !records.dom().contains(key) {
        assert(records.remove(key) =~= records);
    }
}

/// One page of a scan, as the backend returned it.
pub struct ScanPage {
    pub cursor: u64,
    pub keys: Seq<Seq<char>>,
}

/// The pages of one complete iteration: the last page, and only the last,
/// comes with cursor 0.
pub open spec fn complete_iteration(pages: Seq<ScanPage>) -> bool {
    &&& pages.len() > 0
    &&& pages.last().cursor == 0
    &&& forall|i: int| 0 <= i < pages.len() - 1 ==> (#[trigger] pages[i]).cursor != 0
}

/// Every key that some page holds.
pub open spec fn page_keys(pages: Seq<ScanPage>) -> Set<Seq<char>>
    decreases pages.len(),
{
    if pages.len() == 0 {
        Set::empty()
    } else {
        pages[0].keys.to_set().union(page_keys(pages.drop_first()))
    }
}

/// How a bulk deletion ends: its state and what the backend is left with.
pub struct ClearOutcome {
    pub state: ClearState,
    pub records: Records,
}

/// Runs a bulk deletion from `state` against a backend that holds `records`
/// and answers the scans with `pages`, one by one, and every delete with
/// `Deleted`.
pub open spec fn clear_run(state: ClearState, records: Records, pages: Seq<ScanPage>) -> ClearOutcome
    decreases pages.len(),
{
    if pages.len() == 0 {
        ClearOutcome { state, records }
    } else {
        let page = pages[0];
        let scanned = clear_step(
            state,
            BackendReplyView::Page { cursor: page.cursor, keys: page.keys },
        );
        match scanned.action {
            ClearActionView::Run { command } => match command {
                StoreCommandView::Delete { keys } => clear_run(
                    clear_step(scanned.state, BackendReplyView::Deleted).state,
                    records_after(records, command),
                    pages.drop_first(),
                ),
                _ => clear_run(scanned.state, records, pages.drop_first()),
            },
            ClearActionView::Done { result } => clear_run(
                scanned.state,
                records,
                pages.drop_first(),
            ),
        }
    }
}

/// A key that some page holds is among the page keys.
pub proof fn lemma_page_keys_contains(pages: Seq<ScanPage>, i: int, j: int)
    requires
        0 <= i < pages.len(),
        0 <= j < pages[i].keys.len(),
    ensures
        page_keys(pages).contains(pages[i].keys[j]),
    decreases pages.len(),
{
    if i == 0 {
        assert(pages[0].keys.contains(pages[0].keys[j]));
    } else {
        let rest = pages.drop_first();
        assert(rest[i - 1] == pages[i]);
        lemma_page_keys_contains(rest, i - 1, j);
    }
}

/// Bulk deletion, whatever the page size: over one complete iteration the
/// deletion ends `Finished` and has removed exactly the keys that the scan
/// returned, on however many pages, empty pages included.
pub proof fn law_clear_removes_scanned_keys(records: Records, pages: Seq<ScanPage>)
    requires
        complete_iteration(pages),
    ensures
        clear_run(clear_start().state, records, pages).state == ClearState::Finished,
        clear_run(clear_start().state, records, pages).records == records.remove_keys(
            page_keys(pages),
        ),
    decreases pages.len(),
{
    let page = pages[0];
    let rest = pages.drop_first();
    let after = if page.keys.len() > 0 {
        records.remove_keys(page.keys.to_set())
    } else {
        records
    };
    if page.keys.len() == 0 {
        assert(page.keys.to_set() =~= Set::<Seq<char>>::empty());
    }
    assert(after =~= records.remove_keys(page.keys.to_set()));
    if pages.len() == 1 {
        assert(rest.len() == 0);
        assert(page == pages.last());
        assert(page_keys(rest) =~= Set::<Seq<char>>::empty());
        assert(page_keys(pages) =~= page.keys.to_set());
        assert(clear_run(ClearState::Finished, after, rest).records == after);
    } else {
        assert(page.cursor != 0);
        assert(rest.last() == pages.last());
        assert forall|i: int| 0 <= i < rest.len() - 1 implies (#[trigger] rest[i]).cursor != 0 by {
            assert(rest[i] == pages[i + 1]);
        }
        law_clear_removes_scanned_keys(after, rest);
        assert(after.remove_keys(page_keys(rest)) =~= records.remove_keys(page_keys(pages)));
    }
}

/// Whether some page holds `key`.
pub open spec fn on_some_page(pages: Seq<ScanPage>, key: Seq<char>) -> bool {
    exists|i: int, j: int|
        0 <= i < pages.len() && 0 <= j < pages[i].keys.len() && #[trigger] pages[i].keys[j] == key
}

/// Bulk deletion leaves no session behind: when the scan returned every
/// session key that the backend held, on whichever page, no session record
/// remains and no token loads a session any more; a record whose key was
/// on no page is still there.
pub proof fn law_clear_leaves_no_session(records: Records, pages: Seq<ScanPage>)
    requires
        complete_iteration(pages),
        forall|key: Seq<char>|
            records.dom().contains(key) && is_session_key(key) ==> #[trigger] on_some_page(
                pages,
                key,
            ),
    ensures
        forall|key: Seq<char>| #[trigger]
            clear_run(clear_start().state, records, pages).records.dom().contains(key)
                ==> !is_session_key(key),
        forall|token: Seq<char>| #[trigger]
            load_on(clear_run(clear_start().state, records, pages).records, token) == Ok::<
                Option<SessionView>,
                StoreError,
            >(None),
        forall|key: Seq<char>|
            records.dom().contains(key) && !page_keys(pages).contains(key) ==> #[trigger] clear_run(
                clear_start().state,
                records,
                pages,
            ).records.dom().contains(key),
{
    law_clear_removes_scanned_keys(records, pages);
    let left = clear_run(clear_start().state, records, pages).records;
    assert forall|key: Seq<char>| #[trigger] left.dom().contains(key) implies !is_session_key(
        key,
    ) by {
        if is_session_key(key) {
            assert(on_some_page(pages, key));
            let (i, j) = choose|i: int, j: int|
                0 <= i < pages.len() && 0 <= j < pages[i].keys.len() && #[trigger] pages[i].keys[j]
                    == key;
            lemma_page_keys_contains(pages, i, j);
        }
    }
    assert forall|token: Seq<char>| #[trigger]
        load_on(left, token) == Ok::<Option<SessionView>, StoreError>(None) by {
        lemma_session_key(token);
    }
}

} // verus!
