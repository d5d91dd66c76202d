//! The store of authorization codes: each code is issued once, stands for one grant
//! and is consumed at most once.

use vstd::prelude::*;
use oxide_auth::primitives::generator::RandomGenerator;
use crate::error::Error;
use crate::generator::{can_tag, fresh_tag, generator_length, is_tag};
use crate::grant::{Grant, GrantView};
use crate::pkce::transform;
use crate::table::{
    distinct_keys, entries, holds_none, lemma_entries_len, lemma_entries_push,
    lemma_entries_update, lemma_entry_at, position, row_of, Keyed,
};
use crate::text::{opt_text, str_eq};

verus! {

/// The lifetime of an authorization code where none is chosen: ten minutes.
pub const DEFAULT_CODE_LIFETIME: u64 = 600;

/// An authorization code and the grant it stands for.
pub struct AuthorizationCode {
    /// The opaque random value handed to the client.
    pub code: String,
    /// The grant that the code is exchanged for.
    pub grant: Grant,
    /// The time, in seconds, from which the code is no longer accepted.
    pub expires_at: u64,
    /// Whether the code has been exchanged.
    pub consumed: bool,
}

/// An authorization code as plain values.
pub ghost struct AuthorizationCodeView {
    pub code: Seq<char>,
    pub grant: GrantView,
    pub expires_at: u64,
    pub consumed: bool,
}

impl View for AuthorizationCode {
    type V = AuthorizationCodeView;

    open spec fn view(&self) -> AuthorizationCodeView {
        AuthorizationCodeView {
            code: self.code@,
            grant: self.grant@,
            expires_at: self.expires_at,
            consumed: self.consumed,
        }
    }
}

impl Keyed for AuthorizationCode {
    open spec fn key(&self) -> Seq<char> {
        self.code@
    }

    fn has_key(&self, key: &str) -> (same: bool) {
        str_eq(self.code.as_str(), key)
    }
}

/// The time at which something made at `now` with the given lifetime expires: their
/// sum, or the largest time where the sum is beyond it.
pub open spec fn expiry(now: u64, lifetime: u64) -> u64 {
    if now + lifetime > u64::MAX {
        u64::MAX
    } else {
        (now + lifetime) as u64
    }
}

/// The record under which a new code is stored.
pub open spec fn fresh_code(code: Seq<char>, grant: GrantView, now: u64, lifetime: u64)
    -> AuthorizationCodeView {
    AuthorizationCodeView { code, grant, expires_at: expiry(now, lifetime), consumed: false }
}

/// What storing a grant under `code` gives: the codes afterwards, or the error where
/// the value was issued before.
pub open spec fn store_result(
    codes: Map<Seq<char>, AuthorizationCodeView>,
    code: Seq<char>,
    grant: GrantView,
    now: u64,
    lifetime: u64,
) -> Result<Map<Seq<char>, AuthorizationCodeView>, Error> {
    if codes.contains_key(code) {
        Err(Error::ServerError)
    } else {
        Ok(codes.insert(code, fresh_code(code, grant, now, lifetime)))
    }
}

/// What consuming `code` at time `now` gives: its grant, or why it is refused. A code
/// that was consumed is refused as used, whatever the time.
pub open spec fn consume_result(
    codes: Map<Seq<char>, AuthorizationCodeView>,
    code: Seq<char>,
    now: u64,
) -> Result<GrantView, Error> {
    if !codes.contains_key(code) {
        Err(Error::UnknownCode)
    } else if codes[code].consumed {
        Err(Error::CodeAlreadyUsed)
    } else if now >= codes[code].expires_at {
        Err(Error::ExpiredCode)
    } else {
        Ok(codes[code].grant)
    }
}

/// The codes after `code` was presented at time `now`: marked consumed where it was
/// accepted, unchanged where it was refused.
pub open spec fn after_consume(
    codes: Map<Seq<char>, AuthorizationCodeView>,
    code: Seq<char>,
    now: u64,
) -> Map<Seq<char>, AuthorizationCodeView> {
    if consume_result(codes, code, now) is Ok {
        codes.insert(
            code,
            AuthorizationCodeView {
                code: codes[code].code,
                grant: codes[code].grant,
                expires_at: codes[code].expires_at,
                consumed: true,
            },
        )
    } else {
        codes
    }
}

/// What redeeming `code` gives a client that presents `verifier`: the grant, or why
/// the exchange is refused. A code that cannot be consumed is an invalid grant; so is
/// a challenge left unanswered or answered with a verifier that does not transform to
/// it.
pub open spec fn redeem_result(
    codes: Map<Seq<char>, AuthorizationCodeView>,
    code: Seq<char>,
    verifier: Option<Seq<char>>,
    client_id: Seq<char>,
    now: u64,
) -> Result<GrantView, Error> {
    match consume_result(codes, code, now) {
        Err(_) => Err(Error::InvalidGrant),
        Ok(grant) => if grant.client_id != client_id {
            Err(Error::ClientMismatch)
        } else {
            match grant.pkce_challenge {
                None => Ok(grant),
                Some((challenge, method)) => match verifier {
                    Some(v) => if transform(method, v) == challenge {
                        Ok(grant)
                    } else {
                        Err(Error::InvalidGrant)
                    },
                    None => Err(Error::InvalidGrant),
                },
            }
        },
    }
}

/// What holds of issuing a code for `grant`, over the codes before and after. No
/// code can be drawn for a grant whose redirect URI does not parse or whose expiry
/// is beyond the latest time. Where one can be drawn, the returned value was never
/// issued before and now stands for the grant, or the draw was a value in use and the
/// call fails with `ServerError`, which cannot be while no code is stored. A failed
/// call changes nothing.
pub open spec fn issue_post(
    before: Map<Seq<char>, AuthorizationCodeView>,
    after: Map<Seq<char>, AuthorizationCodeView>,
    grant: GrantView,
    now: u64,
    lifetime: u64,
    issued: Result<String, Error>,
) -> bool {
    match issued {
        Ok(code) => {
            &&& can_tag(grant.redirect_uri, expiry(now, lifetime))
            &&& store_result(before, code@, grant, now, lifetime) == Ok::<_, Error>(after)
        },
        Err(e) => {
            &&& e == Error::ServerError
            &&& after == before
            &&& !(can_tag(grant.redirect_uri, expiry(now, lifetime)) && holds_none(before))
        },
    }
}

/// The authorization codes issued so far, consumed or not, each under its value.
pub struct AuthorizationCodeStore {
    generator: RandomGenerator,
    usage: u64,
    lifetime: u64,
    codes: Vec<AuthorizationCode>,
}

impl View for AuthorizationCodeStore {
    type V = Map<Seq<char>, AuthorizationCodeView>;

    /// The codes by value.
    closed spec fn view(&self) -> Map<Seq<char>, AuthorizationCodeView> {
        entries(self.codes@)
    }
}

impl AuthorizationCodeStore {
    /// No two codes share a value.
    pub closed spec fn wf(&self) -> bool {
        distinct_keys(self.codes@)
    }

    /// The lifetime, in seconds, that each new code gets.
    pub closed spec fn lifetime(&self) -> u64 {
        self.lifetime
    }

    /// The number of random bytes that each new code encodes.
    pub closed spec fn token_bytes(&self) -> usize {
        generator_length(self.generator)
    }

    /// Each code is found under its own value.
    pub proof fn lemma_codes(&self)
        requires
            self.wf(),
        ensures
            forall|code: Seq<char>| self@.contains_key(code) ==> #[trigger] self@[code].code == code,
    {
        assert forall|code: Seq<char>| self@.contains_key(code) implies #[trigger] self@[code].code
            == code by {
            lemma_entry_at(self.codes@, row_of(self.codes@, code));
        }
    }

    /// An empty store whose codes come from `generator` and live ten minutes.
    pub fn new(generator: RandomGenerator) -> (store: Self)
        ensures
            store.wf(),
            store@ == Map::<Seq<char>, AuthorizationCodeView>::empty(),
            store.lifetime() == DEFAULT_CODE_LIFETIME,
            store.token_bytes() == generator_length(generator),
    {
        let store = AuthorizationCodeStore {
            generator,
            usage: 0,
            lifetime: DEFAULT_CODE_LIFETIME,
            codes: Vec::new(),
        };
        assert(store@ =~= Map::<Seq<char>, AuthorizationCodeView>::empty());
        store
    }

    /// How many codes were issued, consumed ones included.
    pub fn len(&self) -> (count: usize)
        requires
            self.wf(),
        ensures
            self@.dom().finite(),
            count == self@.dom().len(),
    {
        proof {
            lemma_entries_len(self.codes@);
        }
        self.codes.len()
    }

    /// The record of a code, if it was issued.
    pub fn get(&self, code: &str) -> (found: Option<&AuthorizationCode>)
        requires
            self.wf(),
        ensures
            match found {
                Some(record) => self@.contains_key(code@) && record@ == self@[code@],
                None => !self@.contains_key(code@),
            },
    {
        match position(&self.codes, code) {
            Some(i) => {
                proof {
                    lemma_entry_at(self.codes@, i as int);
                }
                Some(&self.codes[i])
            },
            None => None,
        }
    }

    /// Stores `grant` under the given code value, unconsumed, to expire one lifetime
    /// after `now`. A value that was issued before is never issued again.
    pub fn store(&mut self, code: String, grant: Grant, now: u64) -> (done: Result<(), Error>)
        requires
            old(self).wf(),
        ensures
            final(self).wf(),
            final(self).lifetime() == old(self).lifetime(),
            final(self).token_bytes() == old(self).token_bytes(),
            match done {
                Ok(()) => store_result(old(self)@, code@, grant@, now, old(self).lifetime())
                    == Ok::<_, Error>(final(self)@),
                Err(e) => store_result(old(self)@, code@, grant@, now, old(self).lifetime())
                    == Err::<Map<Seq<char>, AuthorizationCodeView>, _>(e) && final(self)@ == old(
                    self,
                )@,
            },
    {
        if let Some(i) = position(&self.codes, code.as_str()) {
            proof {
                lemma_entry_at(self.codes@, i as int);
            }
            return Err(Error::ServerError);
        }
        let record = AuthorizationCode {
            code,
            grant,
            expires_at: now.saturating_add(self.lifetime),
            consumed: false,
        };
        proof {
            lemma_entries_push(self.codes@, record);
        }
        self.codes.push(record);
        Ok(())
    }

    /// Issues a code for `grant`: draws a random value and stores the grant under it.
    ///
    /// The value is not determined by the arguments. A code is owed wherever one can
    /// be drawn and none is stored yet; see [`issue_post`].
    pub fn issue(&mut self, grant: Grant, now: u64) -> (issued: Result<String, Error>)
        requires
            old(self).wf(),
        ensures
            final(self).wf(),
            final(self).lifetime() == old(self).lifetime(),
            final(self).token_bytes() == old(self).token_bytes(),
            issue_post(old(self)@, final(self)@, grant@, now, old(self).lifetime(), issued),
            issued matches Ok(code) ==> is_tag(code@, old(self).token_bytes()),
    {
        let until = now.saturating_add(self.lifetime);
        let code = match fresh_tag(&mut self.generator, self.usage, &grant, until) {
            Some(code) => code,
            None => {
                return Err(Error::ServerError);
            },
        };
        self.usage = self.usage.wrapping_add(1);
        let copy = code.clone();
        match self.store(code, grant, now) {
            Ok(()) => Ok(copy),
            Err(e) => Err(e),
        }
    }

    /// Consumes a code: gives its grant and marks it used, once.
    pub fn consume(&mut self, code: &str, now: u64) -> (consumed: Result<Grant, Error>)
        requires
            old(self).wf(),
        ensures
            final(self).wf(),
            final(self).lifetime() == old(self).lifetime(),
            final(self).token_bytes() == old(self).token_bytes(),
            final(self)@ == after_consume(old(self)@, code@, now),
            match consumed {
                Ok(grant) => consume_result(old(self)@, code@, now) == Ok::<_, Error>(grant@),
                Err(e) => consume_result(old(self)@, code@, now) == Err::<GrantView, _>(e),
            },
    {
        let i = match position(&self.codes, code) {
            Some(i) => i,
            None => {
                return Err(Error::UnknownCode);
            },
        };
        proof {
            lemma_entry_at(self.codes@, i as int);
        }
        if self.codes[i].consumed {
            return Err(Error::CodeAlreadyUsed);
        }
        if now >= self.codes[i].expires_at {
            return Err(Error::ExpiredCode);
        }
        let grant = self.codes[i].grant.clone();
        self.codes[i].consumed = true;
        proof {
            let before = old(self).codes@;
            assert(self.codes@ =~= before.update(i as int, self.codes@[i as int]));
            lemma_entries_update(before, i as int, self.codes@[i as int]);
        }
        Ok(grant)
    }
    /// Redeems a code for the client `client_id`: consumes it, then checks that it was
    /// issued to that client and that `verifier` answers its challenge, if it has one.
    ///
    /// The code is consumed by the attempt: a refusal after that does not restore it.
    pub fn redeem(&mut self, code: &str, verifier: Option<&str>, client_id: &str, now: u64) -> (redeemed:
        Result<Grant, Error>)
        requires
            old(self).wf(),
        ensures
            final(self).wf(),
            final(self).lifetime() == old(self).lifetime(),
            final(self).token_bytes() == old(self).token_bytes(),
            final(self)@ == after_consume(old(self)@, code@, now),
            match redeemed {
                Ok(grant) => redeem_result(old(self)@, code@, opt_text(verifier), client_id@, now)
                    == Ok::<_, Error>(grant@),
                Err(e) => redeem_result(old(self)@, code@, opt_text(verifier), client_id@, now)
                    == Err::<GrantView, _>(e),
            },
    {
        let grant = match self.consume(code, now) {
            Ok(grant) => grant,
            Err(_) => {
                return Err(Error::InvalidGrant);
            },
        };
        if !str_eq(grant.client_id.as_str(), client_id) {
            return Err(Error::ClientMismatch);
        }
        let proved = match &grant.pkce_challenge {
            None => true,
            Some(binding) => match verifier {
                Some(v) => binding.verify(v),
                None => false,
            },
        };
        if proved {
            Ok(grant)
        } else {
            Err(Error::InvalidGrant)
        }
    }
}

/// A code is consumed at most once: after a call that gave the grant, every later
/// presentation of the same code, at any time, is refused as already used.
pub proof fn lemma_consume_once(
    codes: Map<Seq<char>, AuthorizationCodeView>,
    code: Seq<char>,
    first: u64,
    later: u64,
)
    requires
        consume_result(codes, code, first) is Ok,
    ensures
        consume_result(after_consume(codes, code, first), code, later) == Err::<GrantView, _>(
            Error::CodeAlreadyUsed,
        ),
{
}

/// A consumed code stays consumed: neither presenting a code, the same or another,
/// nor storing a new one brings it back.
pub proof fn lemma_used_stays_used(
    codes: Map<Seq<char>, AuthorizationCodeView>,
    code: Seq<char>,
    other: Seq<char>,
    grant: GrantView,
    now: u64,
    lifetime: u64,
)
    requires
        codes.contains_key(code),
        codes[code].consumed,
    ensures
        after_consume(codes, other, now).contains_key(code),
        after_consume(codes, other, now)[code].consumed,
        store_result(codes, other, grant, now, lifetime) matches Ok(stored) ==> stored.contains_key(code)
            && stored[code] == codes[code],
{
}

/// Presenting a code changes nothing but the mark on that code: every code stays
/// stored, with its grant and its expiry.
pub proof fn lemma_consume_keeps_codes(
    codes: Map<Seq<char>, AuthorizationCodeView>,
    code: Seq<char>,
    now: u64,
    other: Seq<char>,
)
    requires
        codes.contains_key(other),
    ensures
        after_consume(codes, code, now).dom() == codes.dom(),
        after_consume(codes, code, now)[other].grant == codes[other].grant,
        after_consume(codes, code, now)[other].expires_at == codes[other].expires_at,
        other != code ==> after_consume(codes, code, now)[other] == codes[other],
{
    assert(after_consume(codes, code, now).dom() =~= codes.dom());
}

/// An exchange is refused or not by the verifier alone, once the code is good and the
/// client is the one it was issued to: it succeeds exactly when the verifier
/// transforms to the challenge recorded with the grant, and any other verifier is an
/// invalid grant.
pub proof fn lemma_redeem_iff_verifier(
    codes: Map<Seq<char>, AuthorizationCodeView>,
    code: Seq<char>,
    verifier: Seq<char>,
    now: u64,
)
    requires
        consume_result(codes, code, now) is Ok,
        codes[code].grant.pkce_challenge is Some,
    ensures
        ({
            let grant = codes[code].grant;
            let (challenge, method) = grant.pkce_challenge->0;
            let redeemed = redeem_result(codes, code, Some(verifier), grant.client_id, now);
            &&& redeemed is Ok <==> transform(method, verifier) == challenge
            &&& redeemed is Err ==> redeemed == Err::<GrantView, _>(Error::InvalidGrant)
        }),
{
}

/// A failed exchange does not re-enable the code: whatever verifier and client the
/// first attempt on a good code came with, every later attempt on that code, with any
/// verifier, is an invalid grant.
pub proof fn lemma_redeem_once(
    codes: Map<Seq<char>, AuthorizationCodeView>,
    code: Seq<char>,
    now: u64,
    verifier: Option<Seq<char>>,
    client_id: Seq<char>,
    later: u64,
)
    requires
        consume_result(codes, code, now) is Ok,
    ensures
        redeem_result(after_consume(codes, code, now), code, verifier, client_id, later) == Err::<
            GrantView,
            _,
        >(Error::InvalidGrant),
{
}

} // verus!
