//! What is proved of the sign-in flow as a whole, over the model of the
//! backend.

use vstd::prelude::*;
use crate::auth_dto::{landing_redirect, user_of_profile, ProviderProfileView, RedirectView};
use crate::auth_routes::{
    established_response, flow_failed, flow_step, logout_begin, logout_on_load, profile_provider,
    session_for, FlowActionView, FlowEventView, FlowFailure, FlowStateView, LogoutStepView,
};
use crate::cookie::{cookie_text, header_text};
use crate::memory_store::{
    session_key_of, store_command_of, BackendReplyView, StoreCommandView, StoreError,
};
use crate::oauth::{provider_profile_url, MultiOAuthProvider, ProviderType};
use crate::session::SessionView;
use crate::store_model::{
    filed_by_token, law_destroy_idempotent, load_on, read_reply, records_after, store_on, Records,
};

verus! {

/// A callback whose code is exchanged and whose profile is fetched
/// establishes a session: of the four moves exactly one, the third, runs a
/// store command, and that command writes one record, the session of the
/// profile's user under the key of the token; the last move sets the cookie
/// that carries the token and redirects to the landing page. Where the
/// token named no record before, the backend holds exactly one record more;
/// where it did, that record is replaced. The session can afterwards be
/// loaded by the token and identifies that user.
///
/// `id` is the session token; the flow draws one that a cookie can carry.
pub proof fn law_callback_establishes_session(
    registry: MultiOAuthProvider,
    records: Records,
    provider: ProviderType,
    code: Seq<char>,
    state: Seq<char>,
    access_token: Seq<char>,
    profile: ProviderProfileView,
    id: Seq<char>,
)
    requires
        code.len() > 0,
        profile_provider(profile) == provider,
        header_text(cookie_text(id)),
    ensures
        ({
            let e1 = FlowEventView::CallbackArrived { provider, code, state };
            let m1 = flow_step(registry, FlowStateView::Unauthenticated, e1, Seq::empty());
            let m2 = flow_step(
                registry,
                m1.state,
                FlowEventView::TokenGranted { access_token },
                Seq::empty(),
            );
            let m3 = flow_step(registry, m2.state, FlowEventView::ProfileReceived { profile }, id);
            let m4 = flow_step(
                registry,
                m3.state,
                FlowEventView::StoreAnswered { reply: BackendReplyView::Written },
                Seq::empty(),
            );
            let session = session_for(profile, id);
            &&& m1.action == (FlowActionView::ExchangeCode {
                client: registry.client_view(provider),
                code,
            })
            &&& m2.action == (FlowActionView::FetchProfile {
                url: provider_profile_url(provider),
                access_token,
            })
            &&& m3.action == (FlowActionView::Store { command: store_command_of(session) })
            &&& m4.action == (FlowActionView::Send { response: established_response(id) })
            &&& m4.state == (FlowStateView::SessionEstablished { token: id })
            &&& established_response(id).set_cookie == Some(cookie_text(id))
            &&& store_on(records, session).dom() == records.dom().insert(session_key_of(id))
            &&& records.dom().finite() && !records.dom().contains(session_key_of(id))
                ==> store_on(records, session).dom().len() == records.dom().len() + 1
            &&& load_on(store_on(records, session), id) == Ok::<Option<SessionView>, StoreError>(
                Some(session),
            )
            &&& session.identity() == Some(user_of_profile(profile))
        }),
{
}

/// A store command is issued by one move only: the one that receives the
/// profile after a token exchange. A cookie is set by one move only: the one
/// that receives the store's confirmation for a fetched profile.
pub proof fn law_store_and_cookie_need_a_profile(
    registry: MultiOAuthProvider,
    state: FlowStateView,
    event: FlowEventView,
    nonce: Seq<char>,
)
    ensures
        flow_step(registry, state, event, nonce).action is Store ==> state is TokenExchanged
            && event is ProfileReceived,
        flow_step(registry, state, event, nonce).action matches FlowActionView::Send { response }
            && response.set_cookie.is_some() ==> state is ProfileFetched && event
            == (FlowEventView::StoreAnswered { reply: BackendReplyView::Written }),
{
}

/// A code that the provider refuses establishes nothing: the attempt fails
/// on the refusal, with a redirect to the landing page that sets no cookie;
/// neither that move nor the one before it runs a store command; and a
/// failed attempt stays failed, answering anything that still arrives with
/// the same redirect. A callback without a code fails at once, in the same
/// way, before the provider is asked.
pub proof fn law_refused_code_establishes_nothing(
    registry: MultiOAuthProvider,
    provider: ProviderType,
    code: Seq<char>,
    state: Seq<char>,
    later: FlowEventView,
    nonce: Seq<char>,
)
    ensures
        ({
            let e1 = FlowEventView::CallbackArrived { provider, code, state };
            let m1 = flow_step(registry, FlowStateView::Unauthenticated, e1, nonce);
            let m2 = flow_step(registry, m1.state, FlowEventView::TokenDenied, nonce);
            let m3 = flow_step(registry, m2.state, later, nonce);
            &&& !(m1.action is Store)
            &&& code.len() == 0 ==> m1 == flow_failed(FlowFailure::InvalidRequest)
            &&& code.len() > 0 ==> m2 == flow_failed(FlowFailure::TokenExchange)
            &&& m2.state is Failed
            &&& m2.action == (FlowActionView::Send { response: landing_redirect() })
            &&& landing_redirect().set_cookie.is_none()
            &&& m3.state == m2.state
            &&& m3.action == (FlowActionView::Send { response: landing_redirect() })
        }),
{
}

/// A profile that cannot be fetched establishes nothing either.
pub proof fn law_missing_profile_establishes_nothing(
    registry: MultiOAuthProvider,
    provider: ProviderType,
    access_token: Seq<char>,
    nonce: Seq<char>,
)
    ensures
        flow_step(
            registry,
            FlowStateView::TokenExchanged { provider, access_token },
            FlowEventView::ProfileUnavailable,
            nonce,
        ) == flow_failed(FlowFailure::ProfileFetch),
{
}

/// How a logout ends: what the backend is left with, and the response.
pub struct LogoutOutcome {
    pub records: Records,
    pub response: RedirectView,
}

/// Runs a logout for a request that carries `token` against a reachable
/// backend that holds `records`.
pub open spec fn logout_run(records: Records, token: Option<Seq<char>>) -> LogoutOutcome {
    match logout_begin(token) {
        LogoutStepView::Load { command } => match command {
            StoreCommandView::Read { key } => match logout_on_load(read_reply(records, key)) {
                LogoutStepView::Destroy { command } => LogoutOutcome {
                    records: records_after(records, command),
                    response: landing_redirect(),
                },
                LogoutStepView::Finished { response } => LogoutOutcome { records, response },
                LogoutStepView::Load { command } => LogoutOutcome {
                    records,
                    response: landing_redirect(),
                },
            },
            _ => LogoutOutcome { records, response: landing_redirect() },
        },
        LogoutStepView::Finished { response } => LogoutOutcome { records, response },
        LogoutStepView::Destroy { command } => LogoutOutcome {
            records,
            response: landing_redirect(),
        },
    }
}

/// Logging out twice is as good as once: both calls answer with the
/// redirect to the landing page, the first leaves no record under the
/// cookie's token, and the second changes nothing. Without a cookie neither
/// call changes anything.
pub proof fn law_logout_twice(records: Records, token: Option<Seq<char>>)
    requires
        filed_by_token(records),
    ensures
        ({
            let first = logout_run(records, token);
            let second = logout_run(first.records, token);
            &&& first.response == landing_redirect()
            &&& second.response == landing_redirect()
            &&& second.records == first.records
            &&& token.is_none() ==> first.records == records
            &&& token matches Some(t) ==> !first.records.dom().contains(session_key_of(t))
            &&& filed_by_token(first.records)
        }),
{
    match token {
        None => {},
        Some(t) => {
            law_destroy_idempotent(records, t);
            let key = session_key_of(t);
            if records.dom().contains(key) {
                assert(records[key].id == t) by {
                    crate::store_model::lemma_session_key_injective(records[key].id, t);
                }
            }
        },
    }
}

/// A logout never errors, whatever the store answers: a move that ends the
/// logout ends it with the redirect to the landing page.
pub proof fn law_logout_always_lands(token: Option<Seq<char>>, reply: BackendReplyView)
    ensures
        logout_begin(token) matches LogoutStepView::Finished { response } ==> response
            == landing_redirect(),
        logout_on_load(reply) matches LogoutStepView::Finished { response } ==> response
            == landing_redirect(),
        !(reply is Record) ==> logout_on_load(reply) == (LogoutStepView::Finished {
            response: landing_redirect(),
        }),
{
}

} // verus!
