//! The store of access and refresh tokens: exchange of a code, refresh, and the
//! check that guards the protected resource.

use vstd::prelude::*;
use oxide_auth::primitives::generator::RandomGenerator;
use crate::authorizer::{
    after_consume, expiry, redeem_result, AuthorizationCodeStore, AuthorizationCodeView,
};
use crate::error::Error;
use crate::generator::{can_tag, fresh_tag, generator_length, is_tag};
use crate::grant::{Grant, GrantView};
use crate::table::{
    distinct_keys, entries, holds_none, lemma_entries_push, lemma_entry_at, position, Keyed,
};
use crate::text::{opt_text, str_eq};

verus! {

/// The lifetime of an access token where none is chosen: one hour.
pub const DEFAULT_ACCESS_LIFETIME: u64 = 3600;

/// The lifetime of a refresh token where none is chosen: thirty days.
pub const DEFAULT_REFRESH_LIFETIME: u64 = 2592000;

/// An access token or a refresh token, and the grant it stands for.
pub struct Token {
    /// The opaque random value handed to the client.
    pub token: String,
    /// The grant that the token carries.
    pub grant: Grant,
    /// The time, in seconds, from which the token is no longer accepted.
    pub expires_at: u64,
}

/// A token as plain values.
pub ghost struct TokenView {
    pub token: Seq<char>,
    pub grant: GrantView,
    pub expires_at: u64,
}

impl View for Token {
    type V = TokenView;

    open spec fn view(&self) -> TokenView {
        TokenView { token: self.token@, grant: self.grant@, expires_at: self.expires_at }
    }
}

impl Keyed for Token {
    open spec fn key(&self) -> Seq<char> {
        self.token@
    }

    fn has_key(&self, key: &str) -> (same: bool) {
        str_eq(self.token.as_str(), key)
    }
}

/// What a client gets from an exchange or a refresh.
pub struct IssuedToken {
    /// The access token.
    pub access_token: String,
    /// The refresh token that the access token can be renewed with.
    pub refresh_token: String,
    /// The time, in seconds, at which the access token expires.
    pub expires_at: u64,
}

/// The tokens of a store: access tokens and refresh tokens, each by value.
pub ghost struct TokensView {
    pub access: Map<Seq<char>, TokenView>,
    pub refresh: Map<Seq<char>, TokenView>,
}

/// What presenting `token` at time `now` gives: its grant while the time is before
/// the expiry, a refusal at the expiry and after it.
pub open spec fn token_result(tokens: Map<Seq<char>, TokenView>, token: Seq<char>, now: u64) -> Result<
    GrantView,
    Error,
> {
    if !tokens.contains_key(token) {
        Err(Error::UnknownToken)
    } else if now >= tokens[token].expires_at {
        Err(Error::ExpiredToken)
    } else {
        Ok(tokens[token].grant)
    }
}

/// The record under which a new token is stored.
pub open spec fn fresh_token(token: Seq<char>, grant: GrantView, now: u64, lifetime: u64) -> TokenView {
    TokenView { token, grant, expires_at: expiry(now, lifetime) }
}

/// What storing a new pair of tokens for `grant` gives: the tokens afterwards, or the
/// error where one of the values is in use.
pub open spec fn mint_result(
    tokens: TokensView,
    grant: GrantView,
    access: Seq<char>,
    refresh: Seq<char>,
    now: u64,
    access_lifetime: u64,
    refresh_lifetime: u64,
) -> Result<TokensView, Error> {
    if tokens.access.contains_key(access) || tokens.refresh.contains_key(refresh) {
        Err(Error::ServerError)
    } else {
        Ok(
            TokensView {
                access: tokens.access.insert(access, fresh_token(access, grant, now, access_lifetime)),
                refresh: tokens.refresh.insert(
                    refresh,
                    fresh_token(refresh, grant, now, refresh_lifetime),
                ),
            },
        )
    }
}

/// What renewing with `refresh` gives when the new access token is to be `access`:
/// the tokens afterwards, with one more access token for the same grant and every
/// refresh token as before, or the error.
pub open spec fn renew_result(
    tokens: TokensView,
    refresh: Seq<char>,
    access: Seq<char>,
    now: u64,
    access_lifetime: u64,
) -> Result<TokensView, Error> {
    match token_result(tokens.refresh, refresh, now) {
        Err(e) => Err(e),
        Ok(grant) => if tokens.access.contains_key(access) {
            Err(Error::ServerError)
        } else {
            Ok(
                TokensView {
                    access: tokens.access.insert(
                        access,
                        fresh_token(access, grant, now, access_lifetime),
                    ),
                    refresh: tokens.refresh,
                },
            )
        },
    }
}

/// What holds of an exchange's result, over the codes before it and the tokens
/// before and after it. A refused exchange leaves the tokens as they were and gives
/// the reason. For an accepted one, token values can be drawn exactly where the
/// grant's redirect URI parses and the access token's expiry is not beyond the latest
/// time; then a new pair of tokens is stored for the code's grant, under values that
/// were not in use, or a value drawn was in use and the call fails with
/// `ServerError`, which cannot be while no token is stored.
pub open spec fn exchange_post(
    codes: Map<Seq<char>, AuthorizationCodeView>,
    code: Seq<char>,
    verifier: Option<Seq<char>>,
    client_id: Seq<char>,
    now: u64,
    access_lifetime: u64,
    refresh_lifetime: u64,
    before: TokensView,
    after: TokensView,
    exchanged: Result<IssuedToken, Error>,
) -> bool {
    let redeemed = redeem_result(codes, code, verifier, client_id, now);
    match exchanged {
        Ok(issued) => {
            &&& redeemed is Ok
            &&& can_tag(redeemed->Ok_0.redirect_uri, expiry(now, access_lifetime))
            &&& mint_result(
                before,
                redeemed->Ok_0,
                issued.access_token@,
                issued.refresh_token@,
                now,
                access_lifetime,
                refresh_lifetime,
            ) == Ok::<_, Error>(after)
            &&& issued.expires_at == expiry(now, access_lifetime)
        },
        Err(e) => {
            &&& after == before
            &&& match redeemed {
                Ok(grant) => {
                    &&& e == Error::ServerError
                    &&& !(can_tag(grant.redirect_uri, expiry(now, access_lifetime)) && holds_none(
                        before.access,
                    ) && holds_none(before.refresh))
                },
                Err(refusal) => e == refusal,
            }
        },
    }
}

/// What holds of a refresh's result, over the tokens before and after it. A refresh
/// token that is unknown or expired is refused for that reason. For a good one a
/// value can be drawn exactly where the grant's redirect URI parses and the new
/// expiry is not beyond the latest time; then a new access token is stored for the
/// same grant, under a value that was not in use, or the value drawn was in use and
/// the call fails with `ServerError`, which cannot be while no access token is
/// stored. A refused or failed call changes nothing, and the refresh token is handed
/// back as it came.
pub open spec fn refresh_post(
    refresh_token: Seq<char>,
    now: u64,
    access_lifetime: u64,
    before: TokensView,
    after: TokensView,
    refreshed: Result<IssuedToken, Error>,
) -> bool {
    match refreshed {
        Ok(issued) => {
            &&& renew_result(before, refresh_token, issued.access_token@, now, access_lifetime)
                == Ok::<_, Error>(after)
            &&& can_tag(
                before.refresh[refresh_token].grant.redirect_uri,
                expiry(now, access_lifetime),
            )
            &&& issued.refresh_token@ == refresh_token
            &&& issued.expires_at == expiry(now, access_lifetime)
        },
        Err(e) => {
            &&& after == before
            &&& match token_result(before.refresh, refresh_token, now) {
                Ok(grant) => {
                    &&& e == Error::ServerError
                    &&& !(can_tag(grant.redirect_uri, expiry(now, access_lifetime)) && holds_none(
                        before.access,
                    ))
                },
                Err(refusal) => e == refusal,
            }
        },
    }
}

/// The access and refresh tokens issued so far.
pub struct TokenStore {
    generator: RandomGenerator,
    usage: u64,
    access_lifetime: u64,
    refresh_lifetime: u64,
    access: Vec<Token>,
    refresh: Vec<Token>,
}

impl View for TokenStore {
    type V = TokensView;

    closed spec fn view(&self) -> TokensView {
        TokensView { access: entries(self.access@), refresh: entries(self.refresh@) }
    }
}

impl TokenStore {
    /// No two access tokens share a value, nor do two refresh tokens.
    pub closed spec fn wf(&self) -> bool {
        distinct_keys(self.access@) && distinct_keys(self.refresh@)
    }

    /// The lifetime, in seconds, that each new access token gets.
    pub closed spec fn access_lifetime(&self) -> u64 {
        self.access_lifetime
    }

    /// The lifetime, in seconds, that each new refresh token gets.
    pub closed spec fn refresh_lifetime(&self) -> u64 {
        self.refresh_lifetime
    }

    /// The number of random bytes that each new token encodes.
    pub closed spec fn token_bytes(&self) -> usize {
        generator_length(self.generator)
    }

    /// An empty store whose tokens come from `generator`, with access tokens that
    /// live an hour and refresh tokens that live thirty days.
    pub fn new(generator: RandomGenerator) -> (store: Self)
        ensures
            store.wf(),
            store@.access == Map::<Seq<char>, TokenView>::empty(),
            store@.refresh == Map::<Seq<char>, TokenView>::empty(),
            store.access_lifetime() == DEFAULT_ACCESS_LIFETIME,
            store.refresh_lifetime() == DEFAULT_REFRESH_LIFETIME,
            store.token_bytes() == generator_length(generator),
    {
        let store = TokenStore {
            generator,
            usage: 0,
            access_lifetime: DEFAULT_ACCESS_LIFETIME,
            refresh_lifetime: DEFAULT_REFRESH_LIFETIME,
            access: Vec::new(),
            refresh: Vec::new(),
        };
        assert(store@.access =~= Map::<Seq<char>, TokenView>::empty());
        assert(store@.refresh =~= Map::<Seq<char>, TokenView>::empty());
        store
    }

    /// Stores a new access token and a new refresh token for `grant`, under the given
    /// values, each with its own lifetime from `now`.
    pub fn mint(&mut self, grant: Grant, access: String, refresh: String, now: u64) -> (minted: Result<
        IssuedToken,
        Error,
    >)
        requires
            old(self).wf(),
        ensures
            final(self).wf(),
            final(self).access_lifetime() == old(self).access_lifetime(),
            final(self).refresh_lifetime() == old(self).refresh_lifetime(),
            final(self).token_bytes() == old(self).token_bytes(),
            match minted {
                Ok(issued) => {
                    &&& mint_result(
                        old(self)@,
                        grant@,
                        access@,
                        refresh@,
                        now,
                        old(self).access_lifetime(),
                        old(self).refresh_lifetime(),
                    ) == Ok::<_, Error>(final(self)@)
                    &&& issued.access_token@ == access@
                    &&& issued.refresh_token@ == refresh@
                    &&& issued.expires_at == expiry(now, old(self).access_lifetime())
                },
                Err(e) => mint_result(
                    old(self)@,
                    grant@,
                    access@,
                    refresh@,
                    now,
                    old(self).access_lifetime(),
                    old(self).refresh_lifetime(),
                ) == Err::<TokensView, _>(e) && final(self)@ == old(self)@,
            },
    {
        if let Some(i) = position(&self.access, access.as_str()) {
            proof {
                lemma_entry_at(self.access@, i as int);
            }
            return Err(Error::ServerError);
        }
        if let Some(i) = position(&self.refresh, refresh.as_str()) {
            proof {
                lemma_entry_at(self.refresh@, i as int);
            }
            return Err(Error::ServerError);
        }
        let expires_at = now.saturating_add(self.access_lifetime);
        let issued = IssuedToken {
            access_token: access.clone(),
            refresh_token: refresh.clone(),
            expires_at,
        };
        let access_record = Token { token: access, grant: grant.clone(), expires_at };
        let refresh_record = Token {
            token: refresh,
            grant,
            expires_at: now.saturating_add(self.refresh_lifetime),
        };
        proof {
            lemma_entries_push(self.access@, access_record);
            lemma_entries_push(self.refresh@, refresh_record);
        }
        self.access.push(access_record);
        self.refresh.push(refresh_record);
        Ok(issued)
    }

    /// Exchanges an authorization code for an access token and a refresh token.
    ///
    /// The code is redeemed from `codes` and is consumed by the attempt. The token
    /// values are drawn at random. Whatever was drawn: a refused exchange leaves the
    /// tokens as they were and gives the reason; an accepted one either stores a new
    /// pair for the code's grant or, where no unused values could be had, fails with
    /// `ServerError`.
    pub fn exchange(
        &mut self,
        codes: &mut AuthorizationCodeStore,
        code: &str,
        verifier: Option<&str>,
        client_id: &str,
        now: u64,
    ) -> (exchanged: Result<IssuedToken, Error>)
        requires
            old(self).wf(),
            old(codes).wf(),
        ensures
            final(self).wf(),
            final(codes).wf(),
            final(self).access_lifetime() == old(self).access_lifetime(),
            final(self).refresh_lifetime() == old(self).refresh_lifetime(),
            final(self).token_bytes() == old(self).token_bytes(),
            final(codes).lifetime() == old(codes).lifetime(),
            final(codes).token_bytes() == old(codes).token_bytes(),
            final(codes)@ == after_consume(old(codes)@, code@, now),
            exchange_post(
                old(codes)@,
                code@,
                opt_text(verifier),
                client_id@,
                now,
                old(self).access_lifetime(),
                old(self).refresh_lifetime(),
                old(self)@,
                final(self)@,
                exchanged,
            ),
            exchanged matches Ok(issued) ==> is_tag(issued.access_token@, old(self).token_bytes())
                && is_tag(issued.refresh_token@, old(self).token_bytes()),
    {
        let grant = match codes.redeem(code, verifier, client_id, now) {
            Ok(grant) => grant,
            Err(e) => {
                return Err(e);
            },
        };
        let until = now.saturating_add(self.access_lifetime);
        let access = fresh_tag(&mut self.generator, self.usage, &grant, until);
        let refresh = fresh_tag(&mut self.generator, self.usage.wrapping_add(1), &grant, until);
        self.usage = self.usage.wrapping_add(2);
        match (access, refresh) {
            (Some(access), Some(refresh)) => self.mint(grant, access, refresh, now),
            _ => Err(Error::ServerError),
        }
    }

    /// Stores a new access token, under the given value, for the grant of a refresh
    /// token. The refresh token is not rotated: it stays valid for further use.
    pub fn renew(&mut self, refresh_token: &str, access: String, now: u64) -> (renewed: Result<
        IssuedToken,
        Error,
    >)
        requires
            old(self).wf(),
        ensures
            final(self).wf(),
            final(self).access_lifetime() == old(self).access_lifetime(),
            final(self).refresh_lifetime() == old(self).refresh_lifetime(),
            final(self).token_bytes() == old(self).token_bytes(),
            match renewed {
                Ok(issued) => {
                    &&& renew_result(
                        old(self)@,
                        refresh_token@,
                        access@,
                        now,
                        old(self).access_lifetime(),
                    ) == Ok::<_, Error>(final(self)@)
                    &&& issued.access_token@ == access@
                    &&& issued.refresh_token@ == refresh_token@
                    &&& issued.expires_at == expiry(now, old(self).access_lifetime())
                },
                Err(e) => renew_result(
                    old(self)@,
                    refresh_token@,
                    access@,
                    now,
                    old(self).access_lifetime(),
                ) == Err::<TokensView, _>(e) && final(self)@ == old(self)@,
            },
    {
        let grant = match lookup(&self.refresh, refresh_token, now) {
            Ok(grant) => grant,
            Err(e) => {
                return Err(e);
            },
        };
        if let Some(i) = position(&self.access, access.as_str()) {
            proof {
                lemma_entry_at(self.access@, i as int);
            }
            return Err(Error::ServerError);
        }
        let expires_at = now.saturating_add(self.access_lifetime);
        let issued = IssuedToken {
            access_token: access.clone(),
            refresh_token: String::from_str(refresh_token),
            expires_at,
        };
        let record = Token { token: access, grant, expires_at };
        proof {
            lemma_entries_push(self.access@, record);
        }
        self.access.push(record);
        Ok(issued)
    }

    /// Issues a new access token for the grant of a refresh token.
    ///
    /// The token's value is drawn at random. Whatever was drawn: a refresh token that
    /// is unknown or expired is refused for that reason and nothing changes; for a
    /// good one either a new access token is stored or, where no unused value could be
    /// had, the call fails with `ServerError` and nothing changes.
    pub fn refresh(&mut self, refresh_token: &str, now: u64) -> (refreshed: Result<IssuedToken, Error>)
        requires
            old(self).wf(),
        ensures
            final(self).wf(),
            final(self).access_lifetime() == old(self).access_lifetime(),
            final(self).refresh_lifetime() == old(self).refresh_lifetime(),
            final(self).token_bytes() == old(self).token_bytes(),
            refresh_post(
                refresh_token@,
                now,
                old(self).access_lifetime(),
                old(self)@,
                final(self)@,
                refreshed,
            ),
            refreshed matches Ok(issued) ==> is_tag(issued.access_token@, old(self).token_bytes()),
    {
        let grant = match lookup(&self.refresh, refresh_token, now) {
            Ok(grant) => grant,
            Err(e) => {
                return Err(e);
            },
        };
        let until = now.saturating_add(self.access_lifetime);
        let access = fresh_tag(&mut self.generator, self.usage, &grant, until);
        self.usage = self.usage.wrapping_add(1);
        match access {
            Some(access) => self.renew(refresh_token, access, now),
            None => Err(Error::ServerError),
        }
    }

    /// The grant of an access token, while the token is valid.
    pub fn check(&self, access_token: &str, now: u64) -> (checked: Result<Grant, Error>)
        requires
            self.wf(),
        ensures
            match checked {
                Ok(grant) => token_result(self@.access, access_token@, now) == Ok::<_, Error>(grant@),
                Err(e) => token_result(self@.access, access_token@, now) == Err::<GrantView, _>(e),
            },
    {
        lookup(&self.access, access_token, now)
    }
}

/// The grant of the token `token` among `tokens`, while it is valid.
fn lookup(tokens: &Vec<Token>, token: &str, now: u64) -> (found: Result<Grant, Error>)
    requires
        distinct_keys(tokens@),
    ensures
        match found {
            Ok(grant) => token_result(entries(tokens@), token@, now) == Ok::<_, Error>(grant@),
            Err(e) => token_result(entries(tokens@), token@, now) == Err::<GrantView, _>(e),
        },
{
    let i = match position(tokens, token) {
        Some(i) => i,
        None => {
            return Err(Error::UnknownToken);
        },
    };
    proof {
        lemma_entry_at(tokens@, i as int);
    }
    if now >= tokens[i].expires_at {
        return Err(Error::ExpiredToken);
    }
    Ok(tokens[i].grant.clone())
}

/// A stored token is usable exactly while the time is before its expiry: it is
/// accepted at every such time and refused as expired at the expiry and ever after.
pub proof fn lemma_token_window(tokens: Map<Seq<char>, TokenView>, token: Seq<char>, now: u64)
    requires
        tokens.contains_key(token),
    ensures
        now < tokens[token].expires_at ==> token_result(tokens, token, now) == Ok::<_, Error>(
            tokens[token].grant,
        ),
        now >= tokens[token].expires_at ==> token_result(tokens, token, now) == Err::<GrantView, _>(
            Error::ExpiredToken,
        ),
{
}

/// A refresh does not rotate: a refresh token that renewed once is accepted again at
/// every later time before its expiry.
pub proof fn lemma_refresh_reusable(
    tokens: TokensView,
    refresh: Seq<char>,
    access: Seq<char>,
    now: u64,
    access_lifetime: u64,
    later: u64,
)
    requires
        renew_result(tokens, refresh, access, now, access_lifetime) is Ok,
        later < tokens.refresh[refresh].expires_at,
    ensures
        token_result(
            renew_result(tokens, refresh, access, now, access_lifetime)->Ok_0.refresh,
            refresh,
            later,
        ) == Ok::<_, Error>(tokens.refresh[refresh].grant),
{
}

/// Tokens are only ever added: minting a pair or renewing leaves every token that
/// was stored before as it was, with its grant and its expiry.
pub proof fn lemma_tokens_kept(
    tokens: TokensView,
    grant: GrantView,
    access: Seq<char>,
    refresh: Seq<char>,
    now: u64,
    access_lifetime: u64,
    refresh_lifetime: u64,
    token: Seq<char>,
)
    ensures
        mint_result(tokens, grant, access, refresh, now, access_lifetime, refresh_lifetime) matches Ok(
            after,
        ) ==> {
            &&& tokens.access.contains_key(token) ==> after.access.contains_key(token)
                && after.access[token] == tokens.access[token]
            &&& tokens.refresh.contains_key(token) ==> after.refresh.contains_key(token)
                && after.refresh[token] == tokens.refresh[token]
        },
        renew_result(tokens, refresh, access, now, access_lifetime) matches Ok(after) ==> {
            &&& tokens.access.contains_key(token) ==> after.access.contains_key(token)
                && after.access[token] == tokens.access[token]
            &&& after.refresh == tokens.refresh
        },
{
}

} // verus!
