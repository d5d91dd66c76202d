//! Server side of the OAuth2 authorization code grant with PKCE.
//!
//! The crate is a protocol engine: a client registry, a PKCE validator, a store of
//! single-use authorization codes, a store of access and refresh tokens, the
//! owner-consent state machine and a dispatcher that owns the three stores. Callers
//! hand it parsed request parameters and the current time and get structured results
//! back; HTTP, templating and process setup live outside.
//!
//! Scopes, URL syntax, the PKCE transform and token generation come from the
//! `oxide_auth` and `url` crates. Each call into them stands behind a function marked
//! `external_body` whose contract is believed, not proved; everything else is verified.

pub mod error;
pub mod text;
pub mod scope;
pub mod uri;
pub mod pkce;
pub mod table;
pub mod grant;
pub mod registry;
pub mod generator;
pub mod authorizer;
pub mod issuer;
pub mod pages;
pub mod consent;
pub mod setup;

pub use authorizer::{AuthorizationCode, AuthorizationCodeStore};
pub use consent::{
    authorize, Authorization, AuthorizationRequest, ConsentRequest, OwnerConsent, Solicitor,
};
pub use error::Error;
pub use generator::LATEST_TIME;
pub use grant::Grant;
pub use issuer::{IssuedToken, Token, TokenStore};
pub use pages::{consent_page, consent_page_html};
pub use pkce::{PkceBinding, PkceMethod, PkceValidator};
pub use registry::{Client, ClientRegistry, PreGrant};
pub use scope::scope_from_text;
pub use setup::{
    respond, Endpoint, ErrorInto, Extras, Operation, Outcome, PkceSetup, RefreshRequest,
    ResourceRequest, Response, TokenRequest,
};
pub use text::query_has_param;
