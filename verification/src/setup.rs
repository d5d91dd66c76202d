//! The dispatcher: it owns the registry and the two stores, and serves one
//! operation at a time on them.

use vstd::prelude::*;
use oxide_auth::primitives::generator::RandomGenerator;
use oxide_auth::primitives::scope::Scope;
use crate::authorizer::{
    after_consume, consume_result, expiry, fresh_code, AuthorizationCodeStore,
    AuthorizationCodeView, DEFAULT_CODE_LIFETIME,
};
use crate::generator::{can_tag, is_tag, LATEST_TIME};
use crate::pkce::transform;
use crate::table::holds_none;
use crate::consent::{
    authorize, authorize_post, decision_of, plan, Authorization, AuthorizationRequest, Decision,
    Solicitor, SolicitorView,
};
use crate::error::Error;
use crate::grant::{Grant, GrantView};
use crate::issuer::{
    exchange_post, refresh_post, token_result, IssuedToken, TokenStore, TokensView, TokenView,
    DEFAULT_ACCESS_LIFETIME, DEFAULT_REFRESH_LIFETIME,
};
use crate::pkce::PkceValidator;
use crate::registry::{all_parse, register_result, Client, ClientRegistry, ClientView};
use crate::scope::{
    clone_scope, is_scope_text, scope_covers, scope_from_text, scope_tokens, tokens_of,
};
use crate::text::{as_text, has_param, opt_string, str_eq};

verus! {

/// What a request carries beside its parameters: which step of the consent
/// handshake it is, if any.
pub enum Extras {
    /// The request that asks for authorization: the owner is shown the consent page.
    AuthGet,
    /// The request that submits the consent form, with its query string.
    AuthPost(String),
    /// Any other request.
    Nothing,
}

/// The parameters of a token request.
pub struct TokenRequest {
    pub grant_type: Option<String>,
    pub code: Option<String>,
    pub client_id: Option<String>,
    pub code_verifier: Option<String>,
}

/// The parameters of a refresh request.
pub struct RefreshRequest {
    pub grant_type: Option<String>,
    pub refresh_token: Option<String>,
}

/// A request for the protected resource, with the bearer token it came with.
pub struct ResourceRequest {
    pub token: Option<String>,
}

/// An operation for the engine, with the request it was asked by.
pub enum Operation {
    Authorize(AuthorizationRequest),
    Token(TokenRequest),
    Refresh(RefreshRequest),
    Resource(ResourceRequest),
}

/// What an operation gave, in the terms of the component that did it.
pub enum Outcome {
    /// Of an authorization request.
    Authorization(Authorization),
    /// Of a token or refresh request.
    Token(Result<IssuedToken, Error>),
    /// Of a request for the resource.
    Resource(Result<Grant, Error>),
}

/// What is sent back, in one shape for all operations.
pub enum Response {
    /// The consent page, to be shown to the owner.
    Page(String),
    /// A redirect to the client with a code and its state.
    Redirect { redirect_uri: String, code: String, state: Option<String> },
    /// A redirect to the client with an error and its state.
    ErrorRedirect { redirect_uri: String, error: Error, state: Option<String> },
    /// A bearer token: the access token, the seconds it has left and the refresh token.
    Token { access_token: String, expires_in: u64, refresh_token: String },
    /// The resource may be served: the grant of the token presented.
    Resource(Grant),
    /// A refusal that goes to the caller directly.
    Refused(Error),
}

/// The seconds left until `expires_at`.
pub open spec fn remaining(expires_at: u64, now: u64) -> u64 {
    if expires_at >= now {
        (expires_at - now) as u64
    } else {
        0
    }
}

/// The response that stands for an outcome.
pub open spec fn response_of(outcome: Outcome, now: u64) -> Response {
    match outcome {
        Outcome::Authorization(Authorization::Failed { error, redirect, state }) => match redirect {
            Some(redirect_uri) => Response::ErrorRedirect { redirect_uri, error, state },
            None => Response::Refused(error),
        },
        Outcome::Authorization(Authorization::Denied { redirect_uri, state }) => {
            Response::ErrorRedirect { redirect_uri, error: Error::AccessDenied, state }
        },
        Outcome::Authorization(Authorization::Pending { consent, page }) => Response::Page(page),
        Outcome::Authorization(
            Authorization::Authorized { redirect_uri, code, state },
        ) => Response::Redirect { redirect_uri, code, state },
        Outcome::Token(Ok(issued)) => Response::Token {
            access_token: issued.access_token,
            expires_in: remaining(issued.expires_at, now),
            refresh_token: issued.refresh_token,
        },
        Outcome::Token(Err(error)) => Response::Refused(error),
        Outcome::Resource(Ok(grant)) => Response::Resource(grant),
        Outcome::Resource(Err(error)) => Response::Refused(error),
    }
}

/// Puts an outcome into the shape in which it is sent back.
pub fn respond(outcome: Outcome, now: u64) -> (response: Response)
    ensures
        response == response_of(outcome, now),
{
    match outcome {
        Outcome::Authorization(Authorization::Failed { error, redirect, state }) => match redirect {
            Some(redirect_uri) => Response::ErrorRedirect { redirect_uri, error, state },
            None => Response::Refused(error),
        },
        Outcome::Authorization(Authorization::Denied { redirect_uri, state }) => {
            Response::ErrorRedirect { redirect_uri, error: Error::AccessDenied, state }
        },
        Outcome::Authorization(Authorization::Pending { consent, page }) => Response::Page(page),
        Outcome::Authorization(
            Authorization::Authorized { redirect_uri, code, state },
        ) => Response::Redirect { redirect_uri, code, state },
        Outcome::Token(Ok(issued)) => Response::Token {
            access_token: issued.access_token,
            expires_in: if issued.expires_at >= now {
                issued.expires_at - now
            } else {
                0
            },
            refresh_token: issued.refresh_token,
        },
        Outcome::Token(Err(error)) => Response::Refused(error),
        Outcome::Resource(Ok(grant)) => Response::Resource(grant),
        Outcome::Resource(Err(error)) => Response::Refused(error),
    }
}

/// What does not change while requests are served.
pub ghost struct Settings {
    /// The registered clients.
    pub clients: Map<Seq<char>, ClientView>,
    /// Whether an authorization must carry a PKCE challenge.
    pub pkce_required: bool,
    /// The scopes of which a token must cover one to reach the resource.
    pub scopes: Seq<Set<Seq<char>>>,
    /// The lifetimes of codes, access tokens and refresh tokens, in seconds.
    pub code_lifetime: u64,
    pub access_lifetime: u64,
    pub refresh_lifetime: u64,
    /// The numbers of random bytes that a code and a token encode.
    pub code_bytes: usize,
    pub token_bytes: usize,
}

/// The codes and tokens issued so far.
pub ghost struct Issued {
    pub codes: Map<Seq<char>, AuthorizationCodeView>,
    pub tokens: TokensView,
}

/// The token sets of a list of scopes.
pub open spec fn scope_sets(scopes: Seq<Scope>) -> Seq<Set<Seq<char>>> {
    Seq::new(scopes.len(), |i: int| scope_tokens(scopes[i]))
}

/// Whether a token request has what an exchange needs.
pub open spec fn is_exchange(request: TokenRequest) -> bool {
    &&& opt_string(request.grant_type) == Some("authorization_code"@)
    &&& request.code is Some
    &&& request.client_id is Some
}

/// Whether a refresh request has what a refresh needs.
pub open spec fn is_refresh(request: RefreshRequest) -> bool {
    &&& opt_string(request.grant_type) == Some("refresh_token"@)
    &&& request.refresh_token is Some
}

/// Whether a grant of scope `granted` covers one of the resource's scopes.
pub open spec fn reaches_resource(scopes: Seq<Set<Seq<char>>>, granted: Set<Seq<char>>) -> bool {
    exists|i: int| 0 <= i < scopes.len() && (#[trigger] scopes[i]).subset_of(granted)
}

/// What a request for the resource gives: the grant of a valid token whose scope
/// covers one of the resource's scopes, or the refusal.
pub open spec fn resource_result(
    access: Map<Seq<char>, TokenView>,
    scopes: Seq<Set<Seq<char>>>,
    token: Option<Seq<char>>,
    now: u64,
) -> Result<GrantView, Error> {
    match token {
        None => Err(Error::InvalidRequest),
        Some(token) => match token_result(access, token, now) {
            Err(e) => Err(e),
            Ok(grant) => if reaches_resource(scopes, grant.scope) {
                Ok(grant)
            } else {
                Err(Error::ScopeExceeded)
            },
        },
    }
}

/// What holds of an operation's outcome, over what was issued before and after it.
/// Each kind of operation is held to the contract of the component that does it; a
/// request that lacks a parameter, or names another grant type, is an invalid request
/// and changes nothing.
pub open spec fn run_post(
    settings: Settings,
    solicitor: SolicitorView,
    op: Operation,
    now: u64,
    before: Issued,
    after: Issued,
    outcome: Outcome,
) -> bool {
    match op {
        Operation::Authorize(request) => {
            &&& outcome is Authorization
            &&& after.tokens == before.tokens
            &&& authorize_post(
                settings.clients,
                settings.pkce_required,
                request,
                solicitor,
                now,
                settings.code_lifetime,
                before.codes,
                after.codes,
                outcome->Authorization_0,
            )
            &&& outcome->Authorization_0 matches Authorization::Authorized { code, .. } ==> is_tag(
                code@,
                settings.code_bytes,
            )
        },
        Operation::Token(request) => {
            &&& outcome is Token
            &&& if is_exchange(request) {
                &&& after.codes == after_consume(before.codes, request.code->0@, now)
                &&& exchange_post(
                    before.codes,
                    request.code->0@,
                    opt_string(request.code_verifier),
                    request.client_id->0@,
                    now,
                    settings.access_lifetime,
                    settings.refresh_lifetime,
                    before.tokens,
                    after.tokens,
                    outcome->Token_0,
                )
                &&& outcome->Token_0 matches Ok(issued) ==> is_tag(
                    issued.access_token@,
                    settings.token_bytes,
                ) && is_tag(issued.refresh_token@, settings.token_bytes)
            } else {
                &&& after == before
                &&& outcome->Token_0 is Err
                &&& outcome->Token_0->Err_0 == Error::InvalidRequest
            }
        },
        Operation::Refresh(request) => {
            &&& outcome is Token
            &&& after.codes == before.codes
            &&& if is_refresh(request) {
                &&& refresh_post(
                    request.refresh_token->0@,
                    now,
                    settings.access_lifetime,
                    before.tokens,
                    after.tokens,
                    outcome->Token_0,
                )
                &&& outcome->Token_0 matches Ok(issued) ==> is_tag(
                    issued.access_token@,
                    settings.token_bytes,
                )
            } else {
                &&& after.tokens == before.tokens
                &&& outcome->Token_0 is Err
                &&& outcome->Token_0->Err_0 == Error::InvalidRequest
            }
        },
        Operation::Resource(request) => {
            &&& outcome is Resource
            &&& after == before
            &&& match outcome->Resource_0 {
                Ok(grant) => resource_result(
                    before.tokens.access,
                    settings.scopes,
                    opt_string(request.token),
                    now,
                ) == Ok::<_, Error>(grant@),
                Err(e) => resource_result(
                    before.tokens.access,
                    settings.scopes,
                    opt_string(request.token),
                    now,
                ) == Err::<GrantView, _>(e),
            }
        },
    }
}

/// The stores of a setup together with a solicitor: what one operation runs on.
pub struct Endpoint<'a> {
    pub registrar: &'a ClientRegistry,
    pub authorizer: &'a mut AuthorizationCodeStore,
    pub issuer: &'a mut TokenStore,
    pub scopes: &'a Vec<Scope>,
    pub solicitor: Solicitor,
    pub pkce: PkceValidator,
}

/// The settings of a registry, a validator and two stores.
pub open spec fn settings_of(
    registrar: ClientRegistry,
    pkce: PkceValidator,
    scopes: Seq<Scope>,
    authorizer: AuthorizationCodeStore,
    issuer: TokenStore,
) -> Settings {
    Settings {
        clients: registrar@,
        pkce_required: pkce.required,
        scopes: scope_sets(scopes),
        code_lifetime: authorizer.lifetime(),
        access_lifetime: issuer.access_lifetime(),
        refresh_lifetime: issuer.refresh_lifetime(),
        code_bytes: authorizer.token_bytes(),
        token_bytes: issuer.token_bytes(),
    }
}

/// Whether some scope of `scopes` is covered by `granted`.
fn covers_one(scopes: &Vec<Scope>, granted: &Scope) -> (covered: bool)
    ensures
        covered == reaches_resource(scope_sets(scopes@), scope_tokens(*granted)),
{
    let mut i: usize = 0;
    while i < scopes.len()
        invariant
            i <= scopes.len(),
            forall|j: int|
                0 <= j < i ==> !(#[trigger] scope_sets(scopes@)[j]).subset_of(scope_tokens(*granted)),
        decreases scopes.len() - i,
    {
        assert(scope_sets(scopes@)[i as int] == scope_tokens(scopes@[i as int]));
        if scope_covers(granted, &scopes[i]) {
            return true;
        }
        i = i + 1;
    }
    false
}

impl<'a> Endpoint<'a> {
    /// Runs one operation on the stores.
    pub fn run(self, op: Operation, now: u64) -> (outcome: Outcome)
        requires
            self.registrar.wf(),
            old(self.authorizer).wf(),
            old(self.issuer).wf(),
        ensures
            final(self.authorizer).wf(),
            final(self.issuer).wf(),
            settings_of(
                *self.registrar,
                self.pkce,
                self.scopes@,
                *final(self.authorizer),
                *final(self.issuer),
            ) == settings_of(
                *self.registrar,
                self.pkce,
                self.scopes@,
                *old(self.authorizer),
                *old(self.issuer),
            ),
            run_post(
                settings_of(
                    *self.registrar,
                    self.pkce,
                    self.scopes@,
                    *old(self.authorizer),
                    *old(self.issuer),
                ),
                self.solicitor@,
                op,
                now,
                Issued { codes: old(self.authorizer)@, tokens: old(self.issuer)@ },
                Issued { codes: final(self.authorizer)@, tokens: final(self.issuer)@ },
                outcome,
            ),
    {
        match &op {
            Operation::Authorize(request) => Outcome::Authorization(
                authorize(self.registrar, &self.pkce, self.authorizer, request, &self.solicitor, now),
            ),
            Operation::Token(request) => {
                let by_code = match &request.grant_type {
                    Some(t) => str_eq(t.as_str(), "authorization_code"),
                    None => false,
                };
                match (by_code, &request.code, &request.client_id) {
                    (true, Some(code), Some(client_id)) => Outcome::Token(
                        self.issuer.exchange(
                            self.authorizer,
                            code.as_str(),
                            as_text(&request.code_verifier),
                            client_id.as_str(),
                            now,
                        ),
                    ),
                    _ => Outcome::Token(Err(Error::InvalidRequest)),
                }
            },
            Operation::Refresh(request) => {
                let by_token = match &request.grant_type {
                    Some(t) => str_eq(t.as_str(), "refresh_token"),
                    None => false,
                };
                match (by_token, &request.refresh_token) {
                    (true, Some(token)) => Outcome::Token(self.issuer.refresh(token.as_str(), now)),
                    _ => Outcome::Token(Err(Error::InvalidRequest)),
                }
            },
            Operation::Resource(request) => {
                let token = match &request.token {
                    Some(token) => token,
                    None => {
                        return Outcome::Resource(Err(Error::InvalidRequest));
                    },
                };
                match self.issuer.check(token.as_str(), now) {
                    Ok(grant) => {
                        if covers_one(self.scopes, &grant.scope) {
                            Outcome::Resource(Ok(grant))
                        } else {
                            Outcome::Resource(Err(Error::ScopeExceeded))
                        }
                    },
                    Err(e) => Outcome::Resource(Err(e)),
                }
            },
        }
    }
}

/// An endpoint whose outcomes are put into the one shape in which they are sent back.
pub struct ErrorInto<'a> {
    pub endpoint: Endpoint<'a>,
}

impl<'a> ErrorInto<'a> {
    /// Wraps the supplied endpoint.
    pub fn new(endpoint: Endpoint<'a>) -> (wrapped: Self)
        ensures
            wrapped.endpoint == endpoint,
    {
        ErrorInto { endpoint }
    }

    /// Runs one operation on the endpoint and gives the response to send back.
    pub fn run(self, op: Operation, now: u64) -> (response: Response)
        requires
            self.endpoint.registrar.wf(),
            old(self.endpoint.authorizer).wf(),
            old(self.endpoint.issuer).wf(),
        ensures
            final(self.endpoint.authorizer).wf(),
            final(self.endpoint.issuer).wf(),
            settings_of(
                *self.endpoint.registrar,
                self.endpoint.pkce,
                self.endpoint.scopes@,
                *final(self.endpoint.authorizer),
                *final(self.endpoint.issuer),
            ) == settings_of(
                *self.endpoint.registrar,
                self.endpoint.pkce,
                self.endpoint.scopes@,
                *old(self.endpoint.authorizer),
                *old(self.endpoint.issuer),
            ),
            exists|outcome: Outcome|
                {
                    &&& response == response_of(outcome, now)
                    &&& #[trigger] run_post(
                        settings_of(
                            *self.endpoint.registrar,
                            self.endpoint.pkce,
                            self.endpoint.scopes@,
                            *old(self.endpoint.authorizer),
                            *old(self.endpoint.issuer),
                        ),
                        self.endpoint.solicitor@,
                        op,
                        now,
                        Issued {
                            codes: old(self.endpoint.authorizer)@,
                            tokens: old(self.endpoint.issuer)@,
                        },
                        Issued {
                            codes: final(self.endpoint.authorizer)@,
                            tokens: final(self.endpoint.issuer)@,
                        },
                        outcome,
                    )
                },
    {
        let outcome = self.endpoint.run(op, now);
        respond(outcome, now)
    }
}

/// The engine: the registry, the code store and the token store, owned together so
/// that each operation sees them whole and alone.
pub struct PkceSetup {
    registrar: ClientRegistry,
    authorizer: AuthorizationCodeStore,
    issuer: TokenStore,
    scopes: Vec<Scope>,
}

/// The client that a new setup is seeded with.
pub open spec fn seed_client() -> ClientView {
    ClientView {
        id: "LocalClient"@,
        redirect_uri: "http://localhost:8081/"@,
        scope: tokens_of("default-scope"@),
        confidential: false,
    }
}

/// The solicitor that decides for a request with the given extras: the consent page
/// for the request that asks, the submitted form's query for the request that
/// answers. Any other request asks no consent; an authorization that comes as one
/// has not been agreed to and is denied.
pub open spec fn solicitor_for(extras: Extras) -> SolicitorView {
    match extras {
        Extras::AuthGet => SolicitorView::Page("/oauth/authorize"@),
        Extras::AuthPost(query) => SolicitorView::FromQuery { query: query@, owner: "dummy user"@ },
        Extras::Nothing => SolicitorView::Deny,
    }
}

impl PkceSetup {
    /// The registry.
    pub closed spec fn registrar(&self) -> ClientRegistry {
        self.registrar
    }

    /// The code store.
    pub closed spec fn authorizer(&self) -> AuthorizationCodeStore {
        self.authorizer
    }

    /// The token store.
    pub closed spec fn issuer(&self) -> TokenStore {
        self.issuer
    }

    /// The scopes of the protected resource.
    pub closed spec fn scopes(&self) -> Seq<Scope> {
        self.scopes@
    }

    /// The three stores are well formed, and the setup is as it was made: codes live
    /// ten minutes, access tokens an hour and refresh tokens thirty days, and each
    /// code and token encodes sixteen random bytes.
    pub open spec fn wf(&self) -> bool {
        &&& self.registrar().wf()
        &&& self.authorizer().wf()
        &&& self.issuer().wf()
        &&& self.settings().code_lifetime == DEFAULT_CODE_LIFETIME
        &&& self.settings().access_lifetime == DEFAULT_ACCESS_LIFETIME
        &&& self.settings().refresh_lifetime == DEFAULT_REFRESH_LIFETIME
        &&& self.settings().code_bytes == 16
        &&& self.settings().token_bytes == 16
    }

    /// What stays as it is while requests are served. A setup requires PKCE.
    pub open spec fn settings(&self) -> Settings {
        settings_of(
            self.registrar(),
            PkceValidator { required: true },
            self.scopes(),
            self.authorizer(),
            self.issuer(),
        )
    }

    /// The codes and tokens issued so far.
    pub open spec fn issued(&self) -> Issued {
        Issued { codes: self.authorizer()@, tokens: self.issuer()@ }
    }

    /// The registry, to read.
    pub fn clients(&self) -> (registry: &ClientRegistry)
        ensures
            *registry == self.registrar(),
    {
        &self.registrar
    }

    /// The code store, to read.
    pub fn codes(&self) -> (store: &AuthorizationCodeStore)
        ensures
            *store == self.authorizer(),
    {
        &self.authorizer
    }

    /// The token store, to read.
    pub fn tokens(&self) -> (store: &TokenStore)
        ensures
            *store == self.issuer(),
    {
        &self.issuer
    }

    /// A setup with the one client `LocalClient`, registered with the redirect URI
    /// `http://localhost:8081/` and the scope `default-scope`, which is also the
    /// scope of the protected resource. Nothing is issued yet, and codes and tokens
    /// come from generators of sixteen random bytes.
    pub fn new() -> (setup: PkceSetup)
        ensures
            setup.wf(),
            setup.issued().codes == Map::<Seq<char>, AuthorizationCodeView>::empty(),
            setup.issued().tokens.access == Map::<Seq<char>, TokenView>::empty(),
            setup.issued().tokens.refresh == Map::<Seq<char>, TokenView>::empty(),
            setup.settings().scopes == seq![tokens_of("default-scope"@)],
            setup.settings().code_lifetime == DEFAULT_CODE_LIFETIME,
            setup.settings().access_lifetime == DEFAULT_ACCESS_LIFETIME,
            setup.settings().refresh_lifetime == DEFAULT_REFRESH_LIFETIME,
            setup.settings().code_bytes == 16,
            setup.settings().token_bytes == 16,
            match register_result(Map::empty(), seed_client()) {
                Ok(clients) => setup.settings().clients == clients,
                Err(_) => setup.settings().clients == Map::<Seq<char>, ClientView>::empty(),
            },
    {
        proof {
            lemma_default_scope();
        }
        let scope = scope_from_text("default-scope").unwrap();
        let client = Client::public("LocalClient", "http://localhost:8081/", clone_scope(&scope));
        let mut registrar = ClientRegistry::new();
        let _ = registrar.register(client);
        let mut scopes: Vec<Scope> = Vec::new();
        scopes.push(scope);
        assert(scope_sets(scopes@) =~= seq![tokens_of("default-scope"@)]);
        PkceSetup {
            registrar,
            authorizer: AuthorizationCodeStore::new(RandomGenerator::new(16)),
            issuer: TokenStore::new(RandomGenerator::new(16)),
            scopes,
        }
    }

    /// Lends the stores out as an endpoint that requires PKCE and decides on consent
    /// with `solicitor`. What the endpoint does to the stores is done to the setup.
    pub fn allowing_endpoint<'a>(&'a mut self, solicitor: Solicitor) -> (endpoint: Endpoint<'a>)
        ensures
            *endpoint.registrar == old(self).registrar(),
            *endpoint.authorizer == old(self).authorizer(),
            *endpoint.issuer == old(self).issuer(),
            endpoint.scopes@ == old(self).scopes(),
            endpoint.solicitor == solicitor,
            endpoint.pkce.required,
            final(self).registrar() == old(self).registrar(),
            final(self).scopes() == old(self).scopes(),
            final(self).authorizer() == *final(endpoint.authorizer),
            final(self).issuer() == *final(endpoint.issuer),
    {
        Endpoint {
            registrar: &self.registrar,
            authorizer: &mut self.authorizer,
            issuer: &mut self.issuer,
            scopes: &self.scopes,
            solicitor,
            pkce: PkceValidator::required(),
        }
    }

    /// The endpoint of [`PkceSetup::allowing_endpoint`], wrapped so that it answers
    /// in the shape that is sent back.
    pub fn with_solicitor<'a>(&'a mut self, solicitor: Solicitor) -> (wrapped: ErrorInto<'a>)
        ensures
            *wrapped.endpoint.registrar == old(self).registrar(),
            *wrapped.endpoint.authorizer == old(self).authorizer(),
            *wrapped.endpoint.issuer == old(self).issuer(),
            wrapped.endpoint.scopes@ == old(self).scopes(),
            wrapped.endpoint.solicitor == solicitor,
            wrapped.endpoint.pkce.required,
            final(self).registrar() == old(self).registrar(),
            final(self).scopes() == old(self).scopes(),
            final(self).authorizer() == *final(wrapped.endpoint.authorizer),
            final(self).issuer() == *final(wrapped.endpoint.issuer),
    {
        ErrorInto::new(self.allowing_endpoint(solicitor))
    }

    /// Every registered redirect URI parses as a URL.
    pub proof fn lemma_settings_parse(&self)
        requires
            self.wf(),
        ensures
            all_parse(self.settings().clients),
    {
        self.registrar().lemma_uris_parse();
    }

    /// Runs one operation with the given solicitor and answers in the shape that is
    /// sent back.
    fn serve(&mut self, solicitor: Solicitor, op: Operation, now: u64) -> (response: Response)
        requires
            old(self).wf(),
        ensures
            final(self).wf(),
            final(self).settings() == old(self).settings(),
            exists|outcome: Outcome|
                {
                    &&& response == response_of(outcome, now)
                    &&& #[trigger] run_post(
                        old(self).settings(),
                        solicitor@,
                        op,
                        now,
                        old(self).issued(),
                        final(self).issued(),
                        outcome,
                    )
                },
    {
        let ghost before = *self;
        let wrapped = self.with_solicitor(solicitor);
        assert(wrapped.endpoint.pkce == PkceValidator { required: true });
        assert(Issued { codes: wrapped.endpoint.authorizer@, tokens: wrapped.endpoint.issuer@ }
            == before.issued());
        let response = wrapped.run(op, now);
        assert(self.issued() == Issued { codes: self.authorizer()@, tokens: self.issuer()@ });
        response
    }

    /// Serves one request: picks the solicitor that the extras call for and runs the
    /// operation on the stores.
    pub fn handle(&mut self, op: Operation, extras: Extras, now: u64) -> (response: Response)
        requires
            old(self).wf(),
        ensures
            final(self).wf(),
            final(self).settings() == old(self).settings(),
            exists|outcome: Outcome|
                {
                    &&& response == response_of(outcome, now)
                    &&& #[trigger] run_post(
                        old(self).settings(),
                        solicitor_for(extras),
                        op,
                        now,
                        old(self).issued(),
                        final(self).issued(),
                        outcome,
                    )
                },
    {
        let ghost before = *self;
        match extras {
            Extras::AuthGet => {
                // The owner is shown the consent page; the form on it posts back to
                // the same route and so reaches the other branch.
                let solicitor = Solicitor::Page(String::from_str("/oauth/authorize"));
                assert(solicitor@ == solicitor_for(extras));
                self.serve(solicitor, op, now)
            },
            Extras::AuthPost(query) => {
                let solicitor = Solicitor::FromQuery { query, owner: String::from_str("dummy user") };
                assert(solicitor@ == solicitor_for(extras));
                self.serve(solicitor, op, now)
            },
            Extras::Nothing => {
                let endpoint = self.allowing_endpoint(Solicitor::Deny);
                assert(endpoint.solicitor@ == solicitor_for(extras));
                assert(endpoint.pkce == PkceValidator { required: true });
                let outcome = endpoint.run(op, now);
                assert(run_post(
                    before.settings(),
                    solicitor_for(extras),
                    op,
                    now,
                    before.issued(),
                    self.issued(),
                    outcome,
                ));
                respond(outcome, now)
            },
        }
    }
}

/// A valid consent is answered with a code: where the request of an authorization
/// is valid and agreed to, every registered redirect URI parses, no code is stored
/// yet and the code's expiry is not beyond the latest time, the response is the
/// redirect to the registered URI with a code that now stands for the grant.
pub proof fn lemma_consent_answered(
    settings: Settings,
    solicitor: SolicitorView,
    request: AuthorizationRequest,
    now: u64,
    before: Issued,
    after: Issued,
    outcome: Outcome,
)
    requires
        run_post(settings, solicitor, Operation::Authorize(request), now, before, after, outcome),
        plan(settings.clients, settings.pkce_required, request, decision_of(solicitor), now) is Issue,
        all_parse(settings.clients),
        holds_none(before.codes),
        expiry(now, settings.code_lifetime) <= LATEST_TIME,
    ensures
        ({
            let grant = plan(
                settings.clients,
                settings.pkce_required,
                request,
                decision_of(solicitor),
                now,
            )->grant;
            let response = response_of(outcome, now);
            &&& response is Redirect
            &&& response->Redirect_redirect_uri@ == grant.redirect_uri
            &&& after.codes.contains_key(response->code@)
            &&& after.codes[response->code@] == fresh_code(
                response->code@,
                grant,
                now,
                settings.code_lifetime,
            )
            &&& is_tag(response->code@, settings.code_bytes)
        }),
{
}

/// A code buys tokens once: after an exchange that was let through to the code,
/// every later exchange of the same code, whoever asks and with whatever verifier, is
/// an invalid grant and stores no token. Two exchanges of one code, served one after
/// the other in either order, thus never both succeed.
pub proof fn lemma_exchange_once(
    settings: Settings,
    solicitor: SolicitorView,
    first: TokenRequest,
    now: u64,
    before: Issued,
    between: Issued,
    first_outcome: Outcome,
    second: TokenRequest,
    later: u64,
    after: Issued,
    second_outcome: Outcome,
)
    requires
        run_post(settings, solicitor, Operation::Token(first), now, before, between, first_outcome),
        run_post(settings, solicitor, Operation::Token(second), later, between, after, second_outcome),
        is_exchange(first),
        is_exchange(second),
        first.code->0@ == second.code->0@,
        consume_result(before.codes, first.code->0@, now) is Ok,
    ensures
        second_outcome is Token,
        second_outcome->Token_0 is Err,
        second_outcome->Token_0->Err_0 == Error::InvalidGrant,
        after.tokens == between.tokens,
        !(first_outcome->Token_0 is Ok && second_outcome->Token_0 is Ok),
{
}

/// A token is never empty on a setup that draws sixteen bytes: each code and each
/// access or refresh token handed out by an authorization or an exchange is twenty-
/// four characters of base64 text.
pub proof fn lemma_tags_not_empty(text: Seq<char>)
    requires
        is_tag(text, 16),
    ensures
        text.len() == 24,
{
}

/// An exchange goes by the verifier. For a code that is good and was issued to the
/// client that presents it, with a challenge: tokens are handed out only for a
/// verifier that transforms to the challenge; any other verifier, or none, is an
/// invalid grant and no token is stored; and for a verifier that does transform to
/// it the tokens are owed wherever values can be drawn and no token is stored yet.
/// Either way the code is consumed.
pub proof fn lemma_exchange_by_verifier(
    settings: Settings,
    solicitor: SolicitorView,
    request: TokenRequest,
    now: u64,
    before: Issued,
    after: Issued,
    outcome: Outcome,
)
    requires
        run_post(settings, solicitor, Operation::Token(request), now, before, after, outcome),
        is_exchange(request),
        consume_result(before.codes, request.code->0@, now) is Ok,
        before.codes[request.code->0@].grant.client_id == request.client_id->0@,
        before.codes[request.code->0@].grant.pkce_challenge is Some,
    ensures
        ({
            let grant = before.codes[request.code->0@].grant;
            let (challenge, method) = grant.pkce_challenge->0;
            let answered = request.code_verifier is Some && transform(
                method,
                request.code_verifier->0@,
            ) == challenge;
            &&& outcome is Token
            &&& after.codes.contains_key(request.code->0@)
            &&& after.codes[request.code->0@].consumed
            &&& outcome->Token_0 is Ok ==> answered
            &&& !answered ==> outcome->Token_0 is Err && outcome->Token_0->Err_0
                == Error::InvalidGrant && after.tokens == before.tokens
            &&& answered && can_tag(grant.redirect_uri, expiry(now, settings.access_lifetime))
                && holds_none(before.tokens.access) && holds_none(before.tokens.refresh)
                ==> outcome->Token_0 is Ok
        }),
{
}

/// Only consent issues codes, whatever the operation: a request for the consent
/// page, a consent form posted without `allow=true` and every operation that is no
/// authorization leave the set of issued code values as it was.
pub proof fn lemma_run_only_consent_issues(
    settings: Settings,
    solicitor: SolicitorView,
    op: Operation,
    now: u64,
    before: Issued,
    after: Issued,
    outcome: Outcome,
)
    requires
        run_post(settings, solicitor, op, now, before, after, outcome),
        !(op is Authorize) || !(decision_of(solicitor) is Authorized),
    ensures
        after.codes.dom() == before.codes.dom(),
        op is Authorize ==> after == before,
{
    match op {
        Operation::Token(request) => {
            if is_exchange(request) {
                assert(after.codes.dom() =~= before.codes.dom());
            }
        },
        _ => {},
    }
}

/// The request that asks for authorization only shows the page, the request that
/// answers agrees only with the parameter `allow=true` in its query, and a request
/// that is neither never agrees.
pub proof fn lemma_extras_consent(query: String)
    ensures
        decision_of(solicitor_for(Extras::AuthGet)) == Decision::InProgress,
        decision_of(solicitor_for(Extras::Nothing)) == Decision::Denied,
        !has_param(query@, "allow=true"@) ==> decision_of(solicitor_for(Extras::AuthPost(query)))
            == Decision::Denied,
{
}

/// `default-scope` is scope text.
proof fn lemma_default_scope()
    ensures
        is_scope_text("default-scope"@),
{
    reveal_strlit("default-scope");
}

} // verus!
