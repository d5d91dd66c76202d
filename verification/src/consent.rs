//! The owner-consent handshake: an authorization request is validated, the owner is
//! asked or has answered, and on agreement a code is issued.

use vstd::prelude::*;
use oxide_auth::primitives::scope::Scope;
use crate::authorizer::{expiry, store_result, AuthorizationCodeStore, AuthorizationCodeView};
use crate::generator::{can_tag, is_tag, LATEST_TIME};
use crate::error::Error;
use crate::grant::{Grant, GrantView};
use crate::pages::{consent_page_html, is_consent_page};
use crate::pkce::{bind_result, PkceValidator};
use crate::registry::{all_parse, validate_result, ClientRegistry, ClientView, PreGrantView};
use crate::table::holds_none;
use crate::scope::{is_scope_text, scope_from_text, scope_tokens, tokens_of};
use crate::text::{as_text, clone_text, has_param, opt_string, query_has_param, str_eq};

verus! {

/// The parameters of an authorization request, as the HTTP layer parsed them.
pub struct AuthorizationRequest {
    pub response_type: Option<String>,
    pub client_id: Option<String>,
    pub redirect_uri: Option<String>,
    pub scope: Option<String>,
    pub state: Option<String>,
    pub code_challenge: Option<String>,
    pub code_challenge_method: Option<String>,
}

/// A validated authorization request that awaits the owner's decision. Nothing of it
/// is kept by the server: the consent page hands the values back with the decision.
pub struct ConsentRequest {
    /// The client that asks.
    pub client_id: String,
    /// The client's registered redirect URI.
    pub redirect_uri: String,
    /// The scope that would be granted.
    pub scope: Scope,
    /// The client's `state`, to be echoed.
    pub state: Option<String>,
    /// The challenge of the request.
    pub code_challenge: Option<String>,
    /// The challenge method of the request.
    pub code_challenge_method: Option<String>,
}

/// What the owner, or whoever stands for the owner, decided.
pub enum OwnerConsent {
    /// The owner refused.
    Denied,
    /// The owner has yet to decide: the page that asks.
    InProgress(String),
    /// The owner, named by the string, agreed.
    Authorized(String),
}

/// The ways a decision on consent is reached.
pub enum Solicitor {
    /// Always agree, in the name of the given owner.
    Allow(String),
    /// Always refuse.
    Deny,
    /// Ask: show the consent page, whose form posts to the given route.
    Page(String),
    /// Read the decision off the query string of the request that submitted the
    /// consent form: agreement, in the name of `owner`, where the query holds the
    /// parameter `allow=true`, refusal otherwise.
    FromQuery { query: String, owner: String },
}

/// A solicitor as plain values.
pub ghost enum SolicitorView {
    Allow(Seq<char>),
    Deny,
    Page(Seq<char>),
    FromQuery { query: Seq<char>, owner: Seq<char> },
}

impl View for Solicitor {
    type V = SolicitorView;

    open spec fn view(&self) -> SolicitorView {
        match self {
            Solicitor::Allow(owner) => SolicitorView::Allow(owner@),
            Solicitor::Deny => SolicitorView::Deny,
            Solicitor::Page(route) => SolicitorView::Page(route@),
            Solicitor::FromQuery { query, owner } => SolicitorView::FromQuery {
                query: query@,
                owner: owner@,
            },
        }
    }
}

/// A decision on consent, without the page.
pub ghost enum Decision {
    Denied,
    InProgress,
    Authorized(Seq<char>),
}

/// The decision that a solicitor reaches.
pub open spec fn decision_of(solicitor: SolicitorView) -> Decision {
    match solicitor {
        SolicitorView::Allow(owner) => Decision::Authorized(owner),
        SolicitorView::Deny => Decision::Denied,
        SolicitorView::Page(_) => Decision::InProgress,
        SolicitorView::FromQuery { query, owner } => if has_param(query, "allow=true"@) {
            Decision::Authorized(owner)
        } else {
            Decision::Denied
        },
    }
}

/// The consent page that `solicitor` shows for `consent`: the page of the request,
/// with the scope written as its tokens in some order.
pub open spec fn is_page_for(page: Seq<char>, solicitor: SolicitorView, consent: ConsentRequest)
    -> bool {
    solicitor is Page && is_consent_page(page, consent, solicitor->Page_0)
}

impl Solicitor {
    /// Decides on consent for a validated request.
    pub fn check_consent(&self, consent: &ConsentRequest) -> (decided: OwnerConsent)
        ensures
            match decided {
                OwnerConsent::Denied => decision_of(self@) == Decision::Denied,
                OwnerConsent::InProgress(page) => decision_of(self@) == Decision::InProgress
                    && is_page_for(page@, self@, *consent),
                OwnerConsent::Authorized(owner) => decision_of(self@) == Decision::Authorized(owner@),
            },
    {
        match self {
            Solicitor::Allow(owner) => OwnerConsent::Authorized(owner.clone()),
            Solicitor::Deny => OwnerConsent::Denied,
            Solicitor::Page(route) => {
                let page = consent_page_html(consent, route.as_str());
                assert(self@->Page_0 == route@);
                OwnerConsent::InProgress(page)
            },
            Solicitor::FromQuery { query, owner } => {
                if query_has_param(query.as_str(), "allow=true") {
                    OwnerConsent::Authorized(owner.clone())
                } else {
                    OwnerConsent::Denied
                }
            },
        }
    }
}

/// Where an authorization request leads.
pub enum Authorization {
    /// The request is refused with a protocol error. The redirect URI is there
    /// where the client and its URI were accepted before the error arose.
    Failed { error: Error, redirect: Option<String>, state: Option<String> },
    /// The owner refused: the client is sent back with `access_denied`.
    Denied { redirect_uri: String, state: Option<String> },
    /// The request is valid and the owner is asked: the request and the page.
    Pending { consent: ConsentRequest, page: String },
    /// The owner agreed and a code was issued: the client is sent back with it.
    Authorized { redirect_uri: String, code: String, state: Option<String> },
}

/// What is to be done with an authorization request.
pub ghost enum Plan {
    /// Refuse with the error, at the registered redirect URI once it is known.
    Fail { error: Error, redirect: Option<Seq<char>> },
    /// Send the client back with `access_denied`.
    Deny { redirect_uri: Seq<char> },
    /// Show the consent page for these parameters.
    Prompt { pre_grant: PreGrantView },
    /// Issue a code for this grant.
    Issue { grant: GrantView },
}

/// The scope that a request asks for, where its text is a scope.
pub open spec fn requested_scope(request: AuthorizationRequest) -> Option<Set<Seq<char>>> {
    match request.scope {
        Some(text) => Some(tokens_of(text@)),
        None => None,
    }
}

/// What is to be done with `request`, given the registered clients, whether PKCE is
/// required and the decision on consent. The request is validated first, in this
/// order: that a client is named, the client and the redirect URI against the
/// registration, the response type, the scope text, the scope against the
/// registration, then the challenge. From the moment the client and its redirect URI
/// are accepted an error goes back to that URI. Only a valid request is decided on.
pub open spec fn plan(
    clients: Map<Seq<char>, ClientView>,
    pkce_required: bool,
    request: AuthorizationRequest,
    decision: Decision,
    now: u64,
) -> Plan {
    if request.client_id is None {
        Plan::Fail { error: Error::InvalidRequest, redirect: None }
    } else {
        match validate_result(clients, request.client_id->0@, opt_string(request.redirect_uri), None) {
            Err(error) => Plan::Fail { error, redirect: None },
            Ok(bound) => plan_bound(clients, pkce_required, request, decision, now, bound.redirect_uri),
        }
    }
}

/// What is to be done with a request whose client and redirect URI are accepted;
/// `back` is the registered URI.
pub open spec fn plan_bound(
    clients: Map<Seq<char>, ClientView>,
    pkce_required: bool,
    request: AuthorizationRequest,
    decision: Decision,
    now: u64,
    back: Seq<char>,
) -> Plan {
    if opt_string(request.response_type) != Some("code"@) {
        Plan::Fail { error: Error::InvalidRequest, redirect: Some(back) }
    } else if request.scope is Some && !is_scope_text(request.scope->0@) {
        Plan::Fail { error: Error::InvalidRequest, redirect: Some(back) }
    } else {
        match validate_result(
            clients,
            request.client_id->0@,
            opt_string(request.redirect_uri),
            requested_scope(request),
        ) {
            Err(error) => Plan::Fail { error, redirect: Some(back) },
            Ok(pre_grant) => match bind_result(
                pkce_required,
                opt_string(request.code_challenge),
                opt_string(request.code_challenge_method),
            ) {
                Err(error) => Plan::Fail { error, redirect: Some(back) },
                Ok(binding) => match decision {
                    Decision::Denied => Plan::Deny { redirect_uri: pre_grant.redirect_uri },
                    Decision::InProgress => Plan::Prompt { pre_grant },
                    Decision::Authorized(owner) => Plan::Issue {
                        grant: GrantView {
                            client_id: pre_grant.client_id,
                            redirect_uri: pre_grant.redirect_uri,
                            scope: pre_grant.scope,
                            owner_id: owner,
                            pkce_challenge: binding,
                            issued_at: now,
                        },
                    },
                },
            },
        }
    }
}

/// Whether `consent` holds the accepted parameters and echoes the request.
pub open spec fn consent_echoes(
    consent: ConsentRequest,
    pre_grant: PreGrantView,
    request: AuthorizationRequest,
) -> bool {
    &&& consent.client_id@ == pre_grant.client_id
    &&& consent.redirect_uri@ == pre_grant.redirect_uri
    &&& scope_tokens(consent.scope) == pre_grant.scope
    &&& opt_string(consent.state) == opt_string(request.state)
    &&& opt_string(consent.code_challenge) == opt_string(request.code_challenge)
    &&& opt_string(consent.code_challenge_method) == opt_string(request.code_challenge_method)
}

/// What holds of an authorization request's outcome, over the codes before and
/// after it. The plan fixes the outcome but for two things: the value of an issued
/// code, which was never issued before, and the order of the scope's tokens on a
/// consent page. Where a code is to be issued it is issued, unless none can be drawn
/// for the grant or the value drawn is in use; then the request fails with
/// `ServerError`. That cannot be while no code is stored, the registered URI parses
/// and the expiry is not beyond the latest time. No code is issued unless the outcome
/// is `Authorized`.
pub open spec fn authorize_post(
    clients: Map<Seq<char>, ClientView>,
    pkce_required: bool,
    request: AuthorizationRequest,
    solicitor: SolicitorView,
    now: u64,
    lifetime: u64,
    before: Map<Seq<char>, AuthorizationCodeView>,
    after: Map<Seq<char>, AuthorizationCodeView>,
    outcome: Authorization,
) -> bool {
    let planned = plan(clients, pkce_required, request, decision_of(solicitor), now);
    match outcome {
        Authorization::Failed { error, redirect, state } => {
            &&& after == before
            &&& opt_string(state) == opt_string(request.state)
            &&& match planned {
                Plan::Fail { error: e, redirect: r } => error == e && opt_string(redirect) == r,
                Plan::Issue { grant } => {
                    &&& error == Error::ServerError
                    &&& opt_string(redirect) == Some(grant.redirect_uri)
                    &&& !(can_tag(grant.redirect_uri, expiry(now, lifetime)) && holds_none(before))
                },
                _ => false,
            }
        },
        Authorization::Denied { redirect_uri, state } => {
            &&& after == before
            &&& opt_string(state) == opt_string(request.state)
            &&& planned == (Plan::Deny { redirect_uri: redirect_uri@ })
        },
        Authorization::Pending { consent, page } => {
            &&& after == before
            &&& planned is Prompt
            &&& consent_echoes(consent, planned->pre_grant, request)
            &&& is_page_for(page@, solicitor, consent)
        },
        Authorization::Authorized { redirect_uri, code, state } => {
            &&& opt_string(state) == opt_string(request.state)
            &&& planned is Issue
            &&& redirect_uri@ == planned->grant.redirect_uri
            &&& can_tag(planned->grant.redirect_uri, expiry(now, lifetime))
            &&& store_result(before, code@, planned->grant, now, lifetime) == Ok::<_, Error>(after)
        },
    }
}

/// Handles one authorization request: validates it, asks the solicitor, and on
/// agreement issues a code for the grant.
pub fn authorize(
    registry: &ClientRegistry,
    pkce: &PkceValidator,
    codes: &mut AuthorizationCodeStore,
    request: &AuthorizationRequest,
    solicitor: &Solicitor,
    now: u64,
) -> (outcome: Authorization)
    requires
        registry.wf(),
        old(codes).wf(),
    ensures
        final(codes).wf(),
        final(codes).lifetime() == old(codes).lifetime(),
        final(codes).token_bytes() == old(codes).token_bytes(),
        authorize_post(
            registry@,
            pkce.required,
            *request,
            solicitor@,
            now,
            old(codes).lifetime(),
            old(codes)@,
            final(codes)@,
            outcome,
        ),
        outcome matches Authorization::Authorized { code, .. } ==> is_tag(
            code@,
            old(codes).token_bytes(),
        ),
{
    let state = clone_text(&request.state);
    let client_id = match &request.client_id {
        Some(id) => id.as_str(),
        None => {
            return Authorization::Failed { error: Error::InvalidRequest, redirect: None, state };
        },
    };
    let supplied = as_text(&request.redirect_uri);
    let bound = match registry.validate(client_id, supplied, None) {
        Ok(bound) => bound,
        Err(error) => {
            return Authorization::Failed { error, redirect: None, state };
        },
    };
    let code_type = match &request.response_type {
        Some(t) => str_eq(t.as_str(), "code"),
        None => false,
    };
    if !code_type {
        return Authorization::Failed {
            error: Error::InvalidRequest,
            redirect: Some(bound.redirect_uri),
            state,
        };
    }
    let pre_grant = match &request.scope {
        Some(text) => {
            let wanted = match scope_from_text(text.as_str()) {
                Ok(wanted) => wanted,
                Err(error) => {
                    return Authorization::Failed { error, redirect: Some(bound.redirect_uri), state };
                },
            };
            match registry.validate(client_id, supplied, Some(&wanted)) {
                Ok(pre_grant) => pre_grant,
                Err(error) => {
                    return Authorization::Failed { error, redirect: Some(bound.redirect_uri), state };
                },
            }
        },
        None => bound,
    };
    let challenge = as_text(&request.code_challenge);
    let binding = match pkce.bind(challenge, as_text(&request.code_challenge_method)) {
        Ok(binding) => binding,
        Err(error) => {
            return Authorization::Failed { error, redirect: Some(pre_grant.redirect_uri), state };
        },
    };
    let consent = ConsentRequest {
        client_id: pre_grant.client_id,
        redirect_uri: pre_grant.redirect_uri,
        scope: pre_grant.scope,
        state,
        code_challenge: clone_text(&request.code_challenge),
        code_challenge_method: clone_text(&request.code_challenge_method),
    };
    match solicitor.check_consent(&consent) {
        OwnerConsent::Denied => Authorization::Denied {
            redirect_uri: consent.redirect_uri,
            state: consent.state,
        },
        OwnerConsent::InProgress(page) => Authorization::Pending { consent, page },
        OwnerConsent::Authorized(owner_id) => {
            let redirect_uri = consent.redirect_uri.clone();
            let grant = Grant {
                client_id: consent.client_id,
                redirect_uri: consent.redirect_uri,
                scope: consent.scope,
                owner_id,
                pkce_challenge: binding,
                issued_at: now,
            };
            match codes.issue(grant, now) {
                Ok(code) => Authorization::Authorized { redirect_uri, code, state: consent.state },
                Err(_) => Authorization::Failed {
                    error: Error::ServerError,
                    redirect: Some(redirect_uri),
                    state: consent.state,
                },
            }
        },
    }
}

/// Without the owner's agreement no code is issued: a request that is denied or
/// still awaits the decision never leads to issuing one, whatever its parameters.
pub proof fn lemma_no_code_without_consent(
    clients: Map<Seq<char>, ClientView>,
    pkce_required: bool,
    request: AuthorizationRequest,
    decision: Decision,
    now: u64,
)
    requires
        !(decision is Authorized),
    ensures
        !(plan(clients, pkce_required, request, decision, now) is Issue),
{
}

/// A consent form posted without the parameter `allow=true` is a refusal, and the
/// consent page itself never agrees.
pub proof fn lemma_consent_needs_allow(query: Seq<char>, owner: Seq<char>, route: Seq<char>)
    ensures
        !has_param(query, "allow=true"@) ==> decision_of(SolicitorView::FromQuery { query, owner })
            == Decision::Denied,
        decision_of(SolicitorView::Page(route)) == Decision::InProgress,
{
}

/// An authorization request leaves the codes as they were unless the solicitor
/// agreed: the page that asks for consent issues nothing, nor does a consent form
/// posted without `allow=true`.
pub proof fn lemma_only_consent_issues(
    clients: Map<Seq<char>, ClientView>,
    pkce_required: bool,
    request: AuthorizationRequest,
    solicitor: SolicitorView,
    now: u64,
    lifetime: u64,
    before: Map<Seq<char>, AuthorizationCodeView>,
    after: Map<Seq<char>, AuthorizationCodeView>,
    outcome: Authorization,
)
    requires
        authorize_post(
            clients,
            pkce_required,
            request,
            solicitor,
            now,
            lifetime,
            before,
            after,
            outcome,
        ),
        !(decision_of(solicitor) is Authorized),
    ensures
        after == before,
        !(outcome is Authorized),
{
}

/// A redirect URI that differs in any way from the registered one is refused before
/// anything else of the request is looked at and before the owner is asked: the
/// request fails with `RedirectMismatch`, whatever else it holds and whatever the
/// decision would have been.
pub proof fn lemma_redirect_exact(
    clients: Map<Seq<char>, ClientView>,
    pkce_required: bool,
    request: AuthorizationRequest,
    decision: Decision,
    now: u64,
)
    requires
        request.client_id is Some,
        clients.contains_key(request.client_id->0@),
        request.redirect_uri is Some,
        request.redirect_uri->0@ != clients[request.client_id->0@].redirect_uri,
    ensures
        plan(clients, pkce_required, request, decision, now) == (Plan::Fail {
            error: Error::RedirectMismatch,
            redirect: None,
        }),
{
}

/// A request of a client that is not registered fails with `UnknownClient`, whatever
/// else it holds.
pub proof fn lemma_unknown_client(
    clients: Map<Seq<char>, ClientView>,
    pkce_required: bool,
    request: AuthorizationRequest,
    decision: Decision,
    now: u64,
)
    requires
        request.client_id is Some,
        !clients.contains_key(request.client_id->0@),
    ensures
        plan(clients, pkce_required, request, decision, now) == (Plan::Fail {
            error: Error::UnknownClient,
            redirect: None,
        }),
{
}

/// A code is owed: where a valid request is agreed to, every registered redirect URI
/// parses, no code is stored yet and the code's expiry is not beyond the latest time,
/// the outcome is `Authorized`, with a code that now stands for the grant.
pub proof fn lemma_code_owed(
    clients: Map<Seq<char>, ClientView>,
    pkce_required: bool,
    request: AuthorizationRequest,
    solicitor: SolicitorView,
    now: u64,
    lifetime: u64,
    before: Map<Seq<char>, AuthorizationCodeView>,
    after: Map<Seq<char>, AuthorizationCodeView>,
    outcome: Authorization,
)
    requires
        authorize_post(
            clients,
            pkce_required,
            request,
            solicitor,
            now,
            lifetime,
            before,
            after,
            outcome,
        ),
        plan(clients, pkce_required, request, decision_of(solicitor), now) is Issue,
        all_parse(clients),
        holds_none(before),
        expiry(now, lifetime) <= LATEST_TIME,
    ensures
        outcome is Authorized,
        after.contains_key(outcome->code@),
        after[outcome->code@].grant == plan(
            clients,
            pkce_required,
            request,
            decision_of(solicitor),
            now,
        )->grant,
        !after[outcome->code@].consumed,
{
}

} // verus!
