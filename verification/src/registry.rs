//! The registry of clients and the validation of an authorization's client, redirect
//! URI and scope against it.

use vstd::prelude::*;
use oxide_auth::primitives::scope::Scope;
use crate::error::Error;
use crate::scope::{clone_scope, scope_covers, scope_tokens};
use crate::table::{distinct_keys, entries, lemma_entries_push, lemma_entry_at, position, row_of, Keyed};
use crate::text::{opt_text, str_eq};
use crate::uri::{parse_url, parses_as_url};

verus! {

/// A registered client.
pub struct Client {
    /// The id under which the client is registered.
    pub id: String,
    /// The one URI to which the client may be redirected.
    pub redirect_uri: String,
    /// The most that the client may be granted.
    pub scope: Scope,
    /// Whether the client can keep a secret.
    pub confidential: bool,
}

/// A client as plain values.
pub ghost struct ClientView {
    pub id: Seq<char>,
    pub redirect_uri: Seq<char>,
    pub scope: Set<Seq<char>>,
    pub confidential: bool,
}

impl View for Client {
    type V = ClientView;

    open spec fn view(&self) -> ClientView {
        ClientView {
            id: self.id@,
            redirect_uri: self.redirect_uri@,
            scope: scope_tokens(self.scope),
            confidential: self.confidential,
        }
    }
}

impl Keyed for Client {
    open spec fn key(&self) -> Seq<char> {
        self.id@
    }

    fn has_key(&self, key: &str) -> (same: bool) {
        str_eq(self.id.as_str(), key)
    }
}

impl Client {
    /// A public client: one that cannot keep a secret.
    pub fn public(id: &str, redirect_uri: &str, scope: Scope) -> (client: Client)
        ensures
            client@ == (ClientView {
                id: id@,
                redirect_uri: redirect_uri@,
                scope: scope_tokens(scope),
                confidential: false,
            }),
    {
        Client {
            id: String::from_str(id),
            redirect_uri: String::from_str(redirect_uri),
            scope,
            confidential: false,
        }
    }
}

/// The parameters of an authorization that the registry has accepted: a grant
/// without owner, challenge and time.
pub struct PreGrant {
    /// The client that asks.
    pub client_id: String,
    /// The client's registered redirect URI.
    pub redirect_uri: String,
    /// The scope that may be granted.
    pub scope: Scope,
}

/// Accepted parameters as plain values.
pub ghost struct PreGrantView {
    pub client_id: Seq<char>,
    pub redirect_uri: Seq<char>,
    pub scope: Set<Seq<char>>,
}

impl View for PreGrant {
    type V = PreGrantView;

    open spec fn view(&self) -> PreGrantView {
        PreGrantView {
            client_id: self.client_id@,
            redirect_uri: self.redirect_uri@,
            scope: scope_tokens(self.scope),
        }
    }
}

/// The scope of an optional reference, as its tokens.
pub open spec fn opt_scope(scope: Option<&Scope>) -> Option<Set<Seq<char>>> {
    match scope {
        Some(s) => Some(scope_tokens(*s)),
        None => None,
    }
}

/// Every client's redirect URI parses as a URL.
pub open spec fn all_parse(clients: Map<Seq<char>, ClientView>) -> bool {
    forall|id: Seq<char>| clients.contains_key(id) ==> parses_as_url(#[trigger] clients[id].redirect_uri)
}

/// What registering `client` gives, over the clients registered so far.
pub open spec fn register_result(clients: Map<Seq<char>, ClientView>, client: ClientView) -> Result<
    Map<Seq<char>, ClientView>,
    Error,
> {
    if clients.contains_key(client.id) {
        Err(Error::DuplicateClient)
    } else if !parses_as_url(client.redirect_uri) {
        Err(Error::InvalidRedirectUri)
    } else {
        Ok(clients.insert(client.id, client))
    }
}

/// What validating an authorization's parameters gives. A redirect URI, where one is
/// supplied, must be the registered one character for character; a requested scope
/// must lie within the registered one, which is granted where none is requested.
pub open spec fn validate_result(
    clients: Map<Seq<char>, ClientView>,
    id: Seq<char>,
    redirect_uri: Option<Seq<char>>,
    scope: Option<Set<Seq<char>>>,
) -> Result<PreGrantView, Error> {
    if !clients.contains_key(id) {
        Err(Error::UnknownClient)
    } else if redirect_uri is Some && redirect_uri->0 != clients[id].redirect_uri {
        Err(Error::RedirectMismatch)
    } else if scope is Some && !scope->0.subset_of(clients[id].scope) {
        Err(Error::ScopeExceeded)
    } else {
        Ok(
            PreGrantView {
                client_id: id,
                redirect_uri: clients[id].redirect_uri,
                scope: match scope {
                    Some(s) => s,
                    None => clients[id].scope,
                },
            },
        )
    }
}

/// The registered clients, each under its id.
pub struct ClientRegistry {
    clients: Vec<Client>,
}

impl View for ClientRegistry {
    type V = Map<Seq<char>, ClientView>;

    /// The clients by id.
    closed spec fn view(&self) -> Map<Seq<char>, ClientView> {
        entries(self.clients@)
    }
}

impl ClientRegistry {
    /// No two clients share an id, and every client's redirect URI parses.
    pub closed spec fn wf(&self) -> bool {
        &&& distinct_keys(self.clients@)
        &&& forall|i: int|
            0 <= i < self.clients@.len() ==> parses_as_url(
                (#[trigger] self.clients@[i]).redirect_uri@,
            )
    }

    /// Every registered redirect URI parses as a URL.
    pub proof fn lemma_uris_parse(&self)
        requires
            self.wf(),
        ensures
            all_parse(self@),
    {
        assert forall|id: Seq<char>| self@.contains_key(id) implies parses_as_url(
            #[trigger] self@[id].redirect_uri,
        ) by {
            let i = row_of(self.clients@, id);
            lemma_entry_at(self.clients@, i);
            assert(parses_as_url(self.clients@[i].redirect_uri@));
        }
    }

    /// Each client is found under its own id.
    pub proof fn lemma_ids(&self)
        requires
            self.wf(),
        ensures
            forall|id: Seq<char>| self@.contains_key(id) ==> #[trigger] self@[id].id == id,
    {
        assert forall|id: Seq<char>| self@.contains_key(id) implies #[trigger] self@[id].id
            == id by {
            let i = row_of(self.clients@, id);
            lemma_entry_at(self.clients@, i);
        }
    }

    /// A registry without clients.
    pub fn new() -> (registry: Self)
        ensures
            registry.wf(),
            registry@ == Map::<Seq<char>, ClientView>::empty(),
    {
        let registry = ClientRegistry { clients: Vec::new() };
        assert(registry@ =~= Map::<Seq<char>, ClientView>::empty());
        registry
    }

    /// Registers a client under its id.
    pub fn register(&mut self, client: Client) -> (done: Result<(), Error>)
        requires
            old(self).wf(),
        ensures
            final(self).wf(),
            match done {
                Ok(()) => register_result(old(self)@, client@) == Ok::<_, Error>(final(self)@),
                Err(e) => register_result(old(self)@, client@) == Err::<Map<Seq<char>, ClientView>, _>(e)
                    && final(self)@ == old(self)@,
            },
    {
        if let Some(i) = position(&self.clients, client.id.as_str()) {
            proof {
                lemma_entry_at(self.clients@, i as int);
            }
            return Err(Error::DuplicateClient);
        }
        if parse_url(client.redirect_uri.as_str()).is_none() {
            return Err(Error::InvalidRedirectUri);
        }
        proof {
            lemma_entries_push(self.clients@, client);
        }
        self.clients.push(client);
        Ok(())
    }

    /// The client registered under `id`.
    pub fn lookup(&self, id: &str) -> (found: Result<&Client, Error>)
        requires
            self.wf(),
        ensures
            match found {
                Ok(client) => self@.contains_key(id@) && client@ == self@[id@] && client.id@ == id@,
                Err(e) => e == Error::UnknownClient && !self@.contains_key(id@),
            },
    {
        match position(&self.clients, id) {
            Some(i) => {
                proof {
                    lemma_entry_at(self.clients@, i as int);
                }
                Ok(&self.clients[i])
            },
            None => Err(Error::UnknownClient),
        }
    }

    /// Checks the client, redirect URI and scope of an authorization against the
    /// registration and gives the parameters under which it may go on.
    pub fn validate(&self, id: &str, redirect_uri: Option<&str>, scope: Option<&Scope>) -> (checked:
        Result<PreGrant, Error>)
        requires
            self.wf(),
        ensures
            match checked {
                Ok(pre) => validate_result(
                    self@,
                    id@,
                    opt_text(redirect_uri),
                    opt_scope(scope),
                ) == Ok::<_, Error>(pre@),
                Err(e) => validate_result(
                    self@,
                    id@,
                    opt_text(redirect_uri),
                    opt_scope(scope),
                ) == Err::<PreGrantView, _>(e),
            },
    {
        let client = match self.lookup(id) {
            Ok(client) => client,
            Err(e) => {
                return Err(e);
            },
        };
        if let Some(uri) = redirect_uri {
            if !str_eq(uri, client.redirect_uri.as_str()) {
                return Err(Error::RedirectMismatch);
            }
        }
        let granted = match scope {
            Some(wanted) => {
                if !scope_covers(&client.scope, wanted) {
                    return Err(Error::ScopeExceeded);
                }
                clone_scope(wanted)
            },
            None => clone_scope(&client.scope),
        };
        Ok(
            PreGrant {
                client_id: client.id.clone(),
                redirect_uri: client.redirect_uri.clone(),
                scope: granted,
            },
        )
    }
}

/// An authorization goes on only under the registered redirect URI: where one is
/// supplied and validation succeeds, it is the registered one character for
/// character, and it is the one handed on.
pub proof fn lemma_validate_exact_redirect(
    clients: Map<Seq<char>, ClientView>,
    id: Seq<char>,
    redirect_uri: Seq<char>,
    scope: Option<Set<Seq<char>>>,
)
    requires
        validate_result(clients, id, Some(redirect_uri), scope) is Ok,
    ensures
        clients.contains_key(id),
        redirect_uri == clients[id].redirect_uri,
        validate_result(clients, id, Some(redirect_uri), scope)->Ok_0.redirect_uri == redirect_uri,
{
}

} // verus!
