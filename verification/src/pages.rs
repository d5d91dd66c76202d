//! The consent page.

use vstd::prelude::*;
use crate::consent::ConsentRequest;
use crate::scope::{is_text_of, lemma_text_of_few, scope_text, scope_tokens};
use crate::text::text_or_empty;

verus! {

/// The consent page: it names the client, its redirect URI and the scope asked for,
/// and offers two buttons. The one that accepts posts back to `route` with the client
/// id, the state and the challenge of the request and the flag `allow=true`; the one
/// that denies posts back with the client id alone.
pub open spec fn consent_page_text(
    client_id: Seq<char>,
    redirect_uri: Seq<char>,
    scope: Seq<char>,
    route: Seq<char>,
    state: Seq<char>,
    code_challenge: Seq<char>,
    code_challenge_method: Seq<char>,
) -> Seq<char> {
    "<html>'"@ + client_id + "' (at "@ + redirect_uri + ") is requesting permission for '"@ + scope
        + "'\n<form method=\"post\">\n    <input type=\"submit\" value=\"Accept\" formaction=\""@
        + route + "?response_type=code&client_id="@ + client_id + "&state="@ + state
        + "&code_challenge="@ + code_challenge + "&code_challenge_method="@ + code_challenge_method
        + "&allow=true\">\n    <input type=\"submit\" value=\"Deny\" formaction=\""@ + route
        + "?response_type=code&client_id="@ + client_id + "&deny=true\">\n</form>\n</html>"@
}

/// Renders the consent page from its parts.
pub fn consent_page(
    client_id: &str,
    redirect_uri: &str,
    scope: &str,
    route: &str,
    state: &str,
    code_challenge: &str,
    code_challenge_method: &str,
) -> (page: String)
    ensures
        page@ == consent_page_text(
            client_id@,
            redirect_uri@,
            scope@,
            route@,
            state@,
            code_challenge@,
            code_challenge_method@,
        ),
{
    let mut page = String::from_str("<html>'");
    page.append(client_id);
    page.append("' (at ");
    page.append(redirect_uri);
    page.append(") is requesting permission for '");
    page.append(scope);
    page.append(
        "'\n<form method=\"post\">\n    <input type=\"submit\" value=\"Accept\" formaction=\"",
    );
    page.append(route);
    page.append("?response_type=code&client_id=");
    page.append(client_id);
    page.append("&state=");
    page.append(state);
    page.append("&code_challenge=");
    page.append(code_challenge);
    page.append("&code_challenge_method=");
    page.append(code_challenge_method);
    page.append("&allow=true\">\n    <input type=\"submit\" value=\"Deny\" formaction=\"");
    page.append(route);
    page.append("?response_type=code&client_id=");
    page.append(client_id);
    page.append("&deny=true\">\n</form>\n</html>");
    page
}

/// The text of an optional string, empty where there is none.
fn or_empty(text: &Option<String>) -> (slice: &str)
    ensures
        slice@ == text_or_empty(*text),
{
    match text {
        Some(t) => t.as_str(),
        None => {
            proof {
                reveal_strlit("");
            }
            assert(""@ =~= Seq::<char>::empty());
            ""
        },
    }
}

/// Renders the consent page for a request that awaits the owner's decision.
///
/// The scope is written as its tokens with spaces between, in an order that is not
/// fixed; the rest of the page is determined by the arguments.
pub fn consent_page_html(consent: &ConsentRequest, route: &str) -> (page: String)
    ensures
        is_consent_page(page@, *consent, route@),
{
    let scope = scope_text(&consent.scope);
    consent_page(
        consent.client_id.as_str(),
        consent.redirect_uri.as_str(),
        scope.as_str(),
        route,
        or_empty(&consent.state),
        or_empty(&consent.code_challenge),
        or_empty(&consent.code_challenge_method),
    )
}

/// The consent page of a request is its page for some text of the scope.
pub open spec fn is_consent_page(page: Seq<char>, consent: ConsentRequest, route: Seq<char>) -> bool {
    exists|scope: Seq<char>|
        {
            &&& is_text_of(scope, scope_tokens(consent.scope))
            &&& page == #[trigger] consent_page_text(
                consent.client_id@,
                consent.redirect_uri@,
                scope,
                route,
                text_or_empty(consent.state),
                text_or_empty(consent.code_challenge),
                text_or_empty(consent.code_challenge_method),
            )
        }
}

/// For a scope of one token the consent page is fixed by the request and the route:
/// it shows that token, and two pages of one request are the same page.
pub proof fn lemma_page_of_one_token(
    page: Seq<char>,
    consent: ConsentRequest,
    route: Seq<char>,
    token: Seq<char>,
)
    requires
        is_consent_page(page, consent, route),
        scope_tokens(consent.scope) == set![token],
    ensures
        page == consent_page_text(
            consent.client_id@,
            consent.redirect_uri@,
            token,
            route,
            text_or_empty(consent.state),
            text_or_empty(consent.code_challenge),
            text_or_empty(consent.code_challenge_method),
        ),
{
    let scope = choose|scope: Seq<char>|
        {
            &&& is_text_of(scope, scope_tokens(consent.scope))
            &&& page == #[trigger] consent_page_text(
                consent.client_id@,
                consent.redirect_uri@,
                scope,
                route,
                text_or_empty(consent.state),
                text_or_empty(consent.code_challenge),
                text_or_empty(consent.code_challenge_method),
            )
        };
    lemma_text_of_few(scope, scope_tokens(consent.scope));
}

} // verus!
