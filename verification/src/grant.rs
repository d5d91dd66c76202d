//! The grant: what an owner allowed a client.

use vstd::prelude::*;
use oxide_auth::primitives::scope::Scope;
use crate::pkce::{PkceBinding, PkceMethod};
use crate::scope::{clone_scope, scope_tokens};

verus! {

/// What an owner has granted a client: the record behind a code or a token.
pub struct Grant {
    /// The client the grant was made to.
    pub client_id: String,
    /// The redirect URI the authorization ran under.
    pub redirect_uri: String,
    /// The scope granted.
    pub scope: Scope,
    /// The owner who consented.
    pub owner_id: String,
    /// The PKCE challenge to answer at the exchange, if one was made.
    pub pkce_challenge: Option<PkceBinding>,
    /// When consent was given, in seconds.
    pub issued_at: u64,
}

/// A grant as plain values.
pub ghost struct GrantView {
    pub client_id: Seq<char>,
    pub redirect_uri: Seq<char>,
    pub scope: Set<Seq<char>>,
    pub owner_id: Seq<char>,
    pub pkce_challenge: Option<(Seq<char>, PkceMethod)>,
    pub issued_at: u64,
}

impl View for Grant {
    type V = GrantView;

    open spec fn view(&self) -> GrantView {
        GrantView {
            client_id: self.client_id@,
            redirect_uri: self.redirect_uri@,
            scope: scope_tokens(self.scope),
            owner_id: self.owner_id@,
            pkce_challenge: match self.pkce_challenge {
                Some(binding) => Some(binding@),
                None => None,
            },
            issued_at: self.issued_at,
        }
    }
}

impl Clone for Grant {
    fn clone(&self) -> (copy: Self)
        ensures
            copy@ == self@,
    {
        Grant {
            client_id: self.client_id.clone(),
            redirect_uri: self.redirect_uri.clone(),
            scope: clone_scope(&self.scope),
            owner_id: self.owner_id.clone(),
            pkce_challenge: match &self.pkce_challenge {
                Some(binding) => Some(binding.clone()),
                None => None,
            },
            issued_at: self.issued_at,
        }
    }
}

} // verus!
