use oauth_pkce::{
    Authorization, AuthorizationRequest, Error, ErrorInto, Extras, Operation, Outcome, PkceSetup,
    RefreshRequest, ResourceRequest, Response, Solicitor, TokenRequest,
};

const CHALLENGE: &str = "E9Melhoa2OwvFrEMTJguCHaoeK1t8URWbuGJSstw-cM";
const VERIFIER: &str = "dBjftJeZ4CVP-mB92K27uhbUJU1p1r_wW1gFWFOEjXk";

fn some(text: &str) -> Option<String> {
    Some(text.to_string())
}

fn authorize_request() -> AuthorizationRequest {
    AuthorizationRequest {
        response_type: some("code"),
        client_id: some("LocalClient"),
        redirect_uri: some("http://localhost:8081/"),
        scope: some("default-scope"),
        state: some("xyz"),
        code_challenge: some(CHALLENGE),
        code_challenge_method: some("S256"),
    }
}

fn token_request(code: &str, verifier: &str) -> TokenRequest {
    TokenRequest {
        grant_type: some("authorization_code"),
        code: some(code),
        client_id: some("LocalClient"),
        code_verifier: some(verifier),
    }
}

fn issue_code(setup: &mut PkceSetup, now: u64) -> String {
    let posted = setup.handle(
        Operation::Authorize(authorize_request()),
        Extras::AuthPost("response_type=code&client_id=LocalClient&allow=true".to_string()),
        now,
    );
    match posted {
        Response::Redirect { code, .. } => code,
        _ => panic!("no code was issued"),
    }
}

#[test]
fn code_flow_with_s256_challenge() {
    let mut setup = PkceSetup::new();
    assert!(setup.clients().lookup("LocalClient").is_ok());

    let shown = setup.handle(Operation::Authorize(authorize_request()), Extras::AuthGet, 1000);
    match shown {
        Response::Page(html) => {
            assert!(html.contains(CHALLENGE));
            assert!(html.contains("code_challenge_method=S256"));
            assert!(html.contains("'LocalClient' (at http://localhost:8081/)"));
            assert!(html.contains("permission for 'default-scope'"));
        }
        _ => panic!("the consent page was not rendered"),
    }
    assert_eq!(setup.codes().len(), 0);

    let posted = setup.handle(
        Operation::Authorize(authorize_request()),
        Extras::AuthPost("response_type=code&client_id=LocalClient&allow=true".to_string()),
        1001,
    );
    let code = match posted {
        Response::Redirect { redirect_uri, code, state } => {
            assert_eq!(redirect_uri, "http://localhost:8081/");
            assert_eq!(state, some("xyz"));
            assert!(!code.is_empty());
            code
        }
        _ => panic!("no code was issued"),
    };
    assert_eq!(setup.codes().len(), 1);
    let record = setup.codes().get(&code).unwrap();
    assert!(!record.consumed);
    assert_eq!(record.expires_at, 1601);
    assert_eq!(record.grant.owner_id, "dummy user");
    assert_eq!(record.grant.client_id, "LocalClient");
    assert_eq!(record.grant.issued_at, 1001);

    let exchanged = setup.handle(Operation::Token(token_request(&code, VERIFIER)), Extras::Nothing, 1002);
    let (access_token, refresh_token) = match exchanged {
        Response::Token { access_token, expires_in, refresh_token } => {
            assert_eq!(expires_in, 3600);
            assert!(!access_token.is_empty());
            assert!(!refresh_token.is_empty());
            assert_ne!(access_token, refresh_token);
            (access_token, refresh_token)
        }
        _ => panic!("the exchange was refused"),
    };
    assert!(setup.codes().get(&code).unwrap().consumed);

    let again = setup.handle(Operation::Token(token_request(&code, VERIFIER)), Extras::Nothing, 1003);
    assert!(matches!(again, Response::Refused(Error::InvalidGrant)));

    let resource = setup.handle(
        Operation::Resource(ResourceRequest { token: Some(access_token) }),
        Extras::Nothing,
        1004,
    );
    match resource {
        Response::Resource(grant) => assert_eq!(grant.owner_id, "dummy user"),
        _ => panic!("the token was refused"),
    }

    let refreshed = setup.handle(
        Operation::Refresh(RefreshRequest {
            grant_type: some("refresh_token"),
            refresh_token: Some(refresh_token.clone()),
        }),
        Extras::Nothing,
        1005,
    );
    match refreshed {
        Response::Token { access_token, expires_in, refresh_token: same } => {
            assert_eq!(expires_in, 3600);
            assert_eq!(same, refresh_token);
            assert!(setup.tokens().check(&access_token, 1006).is_ok());
        }
        _ => panic!("the refresh was refused"),
    }
}

#[test]
fn wrong_verifier_consumes_the_code() {
    let mut setup = PkceSetup::new();
    let code = issue_code(&mut setup, 1000);

    let wrong = setup.handle(Operation::Token(token_request(&code, "wrong")), Extras::Nothing, 1001);
    assert!(matches!(wrong, Response::Refused(Error::InvalidGrant)));
    assert!(setup.codes().get(&code).unwrap().consumed);

    let retried = setup.handle(Operation::Token(token_request(&code, VERIFIER)), Extras::Nothing, 1002);
    assert!(matches!(retried, Response::Refused(Error::InvalidGrant)));
}

#[test]
fn denied_consent_issues_no_code() {
    let mut setup = PkceSetup::new();
    let posted = setup.handle(
        Operation::Authorize(authorize_request()),
        Extras::AuthPost("response_type=code&client_id=LocalClient&deny=true".to_string()),
        1000,
    );
    match posted {
        Response::ErrorRedirect { redirect_uri, error, state } => {
            assert_eq!(redirect_uri, "http://localhost:8081/");
            assert_eq!(error, Error::AccessDenied);
            assert_eq!(error.code(), "access_denied");
            assert_eq!(state, some("xyz"));
        }
        _ => panic!("the denial was not sent back to the client"),
    }
    assert_eq!(setup.codes().len(), 0);
}

#[test]
fn handle_get_never_issues_a_code() {
    let mut setup = PkceSetup::new();
    for now in 0..5u64 {
        let shown = setup.handle(Operation::Authorize(authorize_request()), Extras::AuthGet, now);
        assert!(matches!(shown, Response::Page(_)));
    }
    assert_eq!(setup.codes().len(), 0);
}

#[test]
fn handle_post_needs_the_allow_flag_as_a_parameter() {
    let mut setup = PkceSetup::new();
    for query in ["", "allow", "allow=false", "xallow=true", "allow=truely", "note=allow=true"] {
        let posted = setup.handle(
            Operation::Authorize(authorize_request()),
            Extras::AuthPost(query.to_string()),
            7,
        );
        assert!(matches!(posted, Response::ErrorRedirect { error: Error::AccessDenied, .. }));
    }
    assert_eq!(setup.codes().len(), 0);
    let posted = setup.handle(
        Operation::Authorize(authorize_request()),
        Extras::AuthPost("deny=true&allow=true".to_string()),
        7,
    );
    assert!(matches!(posted, Response::Redirect { .. }));
    assert_eq!(setup.codes().len(), 1);
}

#[test]
fn handle_rejects_requests_that_lack_parameters() {
    let mut setup = PkceSetup::new();
    let code = issue_code(&mut setup, 10);

    let mut no_type = token_request(&code, VERIFIER);
    no_type.grant_type = None;
    assert!(matches!(
        setup.handle(Operation::Token(no_type), Extras::Nothing, 11),
        Response::Refused(Error::InvalidRequest)
    ));
    let mut other_type = token_request(&code, VERIFIER);
    other_type.grant_type = some("password");
    assert!(matches!(
        setup.handle(Operation::Token(other_type), Extras::Nothing, 11),
        Response::Refused(Error::InvalidRequest)
    ));
    let mut no_client = token_request(&code, VERIFIER);
    no_client.client_id = None;
    assert!(matches!(
        setup.handle(Operation::Token(no_client), Extras::Nothing, 11),
        Response::Refused(Error::InvalidRequest)
    ));
    let mut no_code = token_request(&code, VERIFIER);
    no_code.code = None;
    assert!(matches!(
        setup.handle(Operation::Token(no_code), Extras::Nothing, 11),
        Response::Refused(Error::InvalidRequest)
    ));
    // None of the malformed requests touched the code.
    assert!(!setup.codes().get(&code).unwrap().consumed);

    assert!(matches!(
        setup.handle(
            Operation::Refresh(RefreshRequest { grant_type: some("refresh_token"), refresh_token: None }),
            Extras::Nothing,
            11
        ),
        Response::Refused(Error::InvalidRequest)
    ));
    assert!(matches!(
        setup.handle(
            Operation::Refresh(RefreshRequest { grant_type: None, refresh_token: some("r") }),
            Extras::Nothing,
            11
        ),
        Response::Refused(Error::InvalidRequest)
    ));
    assert!(matches!(
        setup.handle(Operation::Resource(ResourceRequest { token: None }), Extras::Nothing, 11),
        Response::Refused(Error::InvalidRequest)
    ));
    assert!(matches!(
        setup.handle(Operation::Resource(ResourceRequest { token: some("nope") }), Extras::Nothing, 11),
        Response::Refused(Error::UnknownToken)
    ));
    assert!(matches!(
        setup.handle(
            Operation::Refresh(RefreshRequest { grant_type: some("refresh_token"), refresh_token: some("nope") }),
            Extras::Nothing,
            11
        ),
        Response::Refused(Error::UnknownToken)
    ));
}

#[test]
fn handle_exchange_without_verifier_is_an_invalid_grant() {
    let mut setup = PkceSetup::new();
    let code = issue_code(&mut setup, 10);
    let mut request = token_request(&code, VERIFIER);
    request.code_verifier = None;
    assert!(matches!(
        setup.handle(Operation::Token(request), Extras::Nothing, 11),
        Response::Refused(Error::InvalidGrant)
    ));
}

#[test]
fn handle_exchange_by_another_client_is_a_mismatch() {
    let mut setup = PkceSetup::new();
    let code = issue_code(&mut setup, 10);
    let mut request = token_request(&code, VERIFIER);
    request.client_id = some("OtherClient");
    assert!(matches!(
        setup.handle(Operation::Token(request), Extras::Nothing, 11),
        Response::Refused(Error::ClientMismatch)
    ));
    // The code was consumed by the attempt.
    assert!(matches!(
        setup.handle(Operation::Token(token_request(&code, VERIFIER)), Extras::Nothing, 12),
        Response::Refused(Error::InvalidGrant)
    ));
}

#[test]
fn handle_expired_code_is_an_invalid_grant() {
    let mut setup = PkceSetup::new();
    let code = issue_code(&mut setup, 1000);
    assert!(matches!(
        setup.handle(Operation::Token(token_request(&code, VERIFIER)), Extras::Nothing, 1600),
        Response::Refused(Error::InvalidGrant)
    ));
    // An expired code is not consumed, and is still good before its expiry.
    assert!(matches!(
        setup.handle(Operation::Token(token_request(&code, VERIFIER)), Extras::Nothing, 1599),
        Response::Token { .. }
    ));
}

#[test]
fn handle_authorize_requires_a_challenge() {
    let mut setup = PkceSetup::new();
    let mut request = authorize_request();
    request.code_challenge = None;
    request.code_challenge_method = None;
    let posted = setup.handle(
        Operation::Authorize(request),
        Extras::AuthPost("allow=true".to_string()),
        5,
    );
    match posted {
        Response::ErrorRedirect { redirect_uri, error, .. } => {
            assert_eq!(redirect_uri, "http://localhost:8081/");
            assert_eq!(error, Error::MissingPkceChallenge);
            assert_eq!(error.code(), "invalid_request");
        }
        _ => panic!("a request without challenge was let through"),
    }
    assert_eq!(setup.codes().len(), 0);
}

#[test]
fn handle_resource_needs_a_token_that_covers_its_scope() {
    let mut setup = PkceSetup::new();
    let mut request = authorize_request();
    request.scope = some("");
    let posted = setup.handle(
        Operation::Authorize(request),
        Extras::AuthPost("allow=true".to_string()),
        5,
    );
    let code = match posted {
        Response::Redirect { code, .. } => code,
        _ => panic!("no code was issued"),
    };
    let exchanged = setup.handle(Operation::Token(token_request(&code, VERIFIER)), Extras::Nothing, 6);
    let access_token = match exchanged {
        Response::Token { access_token, .. } => access_token,
        _ => panic!("the exchange was refused"),
    };
    assert!(matches!(
        setup.handle(Operation::Resource(ResourceRequest { token: Some(access_token) }), Extras::Nothing, 7),
        Response::Refused(Error::ScopeExceeded)
    ));
}

#[test]
fn handle_access_token_expires_after_an_hour() {
    let mut setup = PkceSetup::new();
    let code = issue_code(&mut setup, 1000);
    let exchanged = setup.handle(Operation::Token(token_request(&code, VERIFIER)), Extras::Nothing, 1500);
    let access_token = match exchanged {
        Response::Token { access_token, .. } => access_token,
        _ => panic!("the exchange was refused"),
    };
    assert!(matches!(
        setup.handle(
            Operation::Resource(ResourceRequest { token: Some(access_token.clone()) }),
            Extras::Nothing,
            5099
        ),
        Response::Resource(_)
    ));
    assert!(matches!(
        setup.handle(
            Operation::Resource(ResourceRequest { token: Some(access_token.clone()) }),
            Extras::Nothing,
            5100
        ),
        Response::Refused(Error::ExpiredToken)
    ));
    assert!(matches!(
        setup.handle(Operation::Resource(ResourceRequest { token: Some(access_token) }), Extras::Nothing, 9999),
        Response::Refused(Error::ExpiredToken)
    ));
}

#[test]
fn allowing_endpoint_runs_an_operation_on_the_stores() {
    let mut setup = PkceSetup::new();
    let endpoint = setup.allowing_endpoint(Solicitor::Allow("erin".to_string()));
    assert!(endpoint.pkce.required);
    let outcome = endpoint.run(Operation::Authorize(authorize_request()), 40);
    let code = match outcome {
        Outcome::Authorization(Authorization::Authorized { code, .. }) => code,
        _ => panic!("no code was issued"),
    };
    // What the endpoint did, it did to the setup.
    assert_eq!(setup.codes().len(), 1);
    assert_eq!(setup.codes().get(&code).unwrap().grant.owner_id, "erin");

    let endpoint = setup.allowing_endpoint(Solicitor::Deny);
    let outcome = endpoint.run(Operation::Token(token_request(&code, VERIFIER)), 41);
    match outcome {
        Outcome::Token(Ok(issued)) => assert_eq!(issued.expires_at, 3641),
        _ => panic!("the exchange was refused"),
    }
    let endpoint = setup.allowing_endpoint(Solicitor::Deny);
    let outcome = endpoint.run(Operation::Authorize(authorize_request()), 42);
    assert!(matches!(outcome, Outcome::Authorization(Authorization::Denied { .. })));
    assert_eq!(setup.codes().len(), 1);
}

#[test]
fn with_solicitor_answers_in_the_shape_sent_back() {
    let mut setup = PkceSetup::new();
    let wrapped = setup.with_solicitor(Solicitor::Page("/consent".to_string()));
    match wrapped.run(Operation::Authorize(authorize_request()), 40) {
        Response::Page(html) => assert!(html.contains("formaction=\"/consent?response_type=code")),
        _ => panic!("the consent page was not rendered"),
    }
    let wrapped = ErrorInto::new(setup.allowing_endpoint(Solicitor::Deny));
    assert!(matches!(
        wrapped.run(Operation::Authorize(authorize_request()), 41),
        Response::ErrorRedirect { error: Error::AccessDenied, .. }
    ));
    let mut unknown = authorize_request();
    unknown.client_id = some("Stranger");
    let wrapped = setup.with_solicitor(Solicitor::Allow("erin".to_string()));
    assert!(matches!(
        wrapped.run(Operation::Authorize(unknown), 42),
        Response::Refused(Error::UnknownClient)
    ));
    assert_eq!(setup.codes().len(), 0);
}

#[test]
fn new_setup_is_seeded_with_the_local_client() {
    let setup = PkceSetup::new();
    let client = setup.clients().lookup("LocalClient").unwrap();
    assert_eq!(client.id, "LocalClient");
    assert_eq!(client.redirect_uri, "http://localhost:8081/");
    assert!(!client.confidential);
    assert!(client.scope == "default-scope".parse().unwrap());
    assert_eq!(setup.clients().lookup("OtherClient").err(), Some(Error::UnknownClient));
    assert_eq!(setup.codes().len(), 0);
    assert_eq!(setup.tokens().check("", 0).err(), Some(Error::UnknownToken));
}

#[test]
fn handle_checks_client_and_redirect_uri_first() {
    let mut setup = PkceSetup::new();
    for extras in [Extras::AuthGet, Extras::AuthPost("allow=true".to_string())] {
        let mut moved = authorize_request();
        moved.response_type = None;
        moved.redirect_uri = some("http://localhost:8081");
        assert!(matches!(
            setup.handle(Operation::Authorize(moved), extras, 3),
            Response::Refused(Error::RedirectMismatch)
        ));
    }
    for extras in [Extras::AuthGet, Extras::AuthPost("allow=true".to_string())] {
        let mut stranger = authorize_request();
        stranger.response_type = None;
        stranger.client_id = some("Stranger");
        assert!(matches!(
            setup.handle(Operation::Authorize(stranger), extras, 3),
            Response::Refused(Error::UnknownClient)
        ));
    }
    assert_eq!(setup.codes().len(), 0);
}

#[test]
fn handle_sends_later_errors_back_to_the_client() {
    let mut setup = PkceSetup::new();
    let mut untyped = authorize_request();
    untyped.response_type = None;
    let mut greedy = authorize_request();
    greedy.scope = some("default-scope admin");
    let mut garbled = authorize_request();
    garbled.scope = some("\"");
    for (request, error) in [
        (untyped, Error::InvalidRequest),
        (greedy, Error::ScopeExceeded),
        (garbled, Error::InvalidRequest),
    ] {
        match setup.handle(Operation::Authorize(request), Extras::AuthGet, 3) {
            Response::ErrorRedirect { redirect_uri, error: sent, state } => {
                assert_eq!(redirect_uri, "http://localhost:8081/");
                assert_eq!(sent, error);
                assert_eq!(state, some("xyz"));
            }
            _ => panic!("the error was not sent back to the client"),
        }
    }
    assert_eq!(setup.codes().len(), 0);
}

#[test]
fn new_setup_answers_a_valid_consent_with_a_code() {
    for now in [0u64, 1_700_000_000] {
        let mut setup = PkceSetup::new();
        let code = issue_code(&mut setup, now);
        assert_eq!(code.len(), 24);
        let record = setup.codes().get(&code).unwrap();
        assert_eq!(record.expires_at, now + 600);
        assert!(!record.consumed);
        assert!(record.grant.scope == "default-scope".parse().unwrap());
        assert!(record.grant.pkce_challenge.as_ref().unwrap().verify(VERIFIER));
        let exchanged = setup.handle(Operation::Token(token_request(&code, VERIFIER)), Extras::Nothing, now);
        assert!(matches!(exchanged, Response::Token { expires_in: 3600, .. }));
    }
}

#[test]
fn handle_denies_an_authorization_that_is_no_consent_step() {
    let mut setup = PkceSetup::new();
    match setup.handle(Operation::Authorize(authorize_request()), Extras::Nothing, 9) {
        Response::ErrorRedirect { redirect_uri, error, state } => {
            assert_eq!(redirect_uri, "http://localhost:8081/");
            assert_eq!(error, Error::AccessDenied);
            assert_eq!(state, some("xyz"));
        }
        _ => panic!("the authorization was not denied"),
    }
    assert_eq!(setup.codes().len(), 0);
}

#[test]
fn codes_and_tokens_are_base64_of_sixteen_bytes() {
    fn is_tag(text: &str) -> bool {
        text.len() == 24
            && text.ends_with("==")
            && text.chars().all(|c| c.is_ascii_alphanumeric() || c == '+' || c == '/' || c == '=')
    }
    let mut setup = PkceSetup::new();
    let code = issue_code(&mut setup, 100);
    assert!(is_tag(&code));
    let exchanged = setup.handle(Operation::Token(token_request(&code, VERIFIER)), Extras::Nothing, 101);
    let refresh_token = match exchanged {
        Response::Token { access_token, refresh_token, .. } => {
            assert!(is_tag(&access_token));
            assert!(is_tag(&refresh_token));
            refresh_token
        }
        _ => panic!("the exchange was refused"),
    };
    let refreshed = setup.handle(
        Operation::Refresh(RefreshRequest { grant_type: some("refresh_token"), refresh_token: Some(refresh_token) }),
        Extras::Nothing,
        102,
    );
    match refreshed {
        Response::Token { access_token, .. } => assert!(is_tag(&access_token)),
        _ => panic!("the refresh was refused"),
    }
}

#[test]
fn consent_page_of_the_seed_scope_is_fixed() {
    let mut setup = PkceSetup::new();
    let first = setup.handle(Operation::Authorize(authorize_request()), Extras::AuthGet, 1);
    let second = setup.handle(Operation::Authorize(authorize_request()), Extras::AuthGet, 2);
    let expected = oauth_pkce::consent_page(
        "LocalClient",
        "http://localhost:8081/",
        "default-scope",
        "/oauth/authorize",
        "xyz",
        CHALLENGE,
        "S256",
    );
    match (first, second) {
        (Response::Page(a), Response::Page(b)) => {
            assert_eq!(a, expected);
            assert_eq!(b, expected);
            assert!(a.starts_with(
                "<html>'LocalClient' (at http://localhost:8081/) is requesting permission for 'default-scope'"
            ));
        }
        _ => panic!("the consent page was not rendered"),
    }
}
