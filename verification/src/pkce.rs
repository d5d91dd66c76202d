//! Proof Key for Code Exchange: binding a challenge at authorization and checking the
//! verifier at the exchange. The transforms are `oxide_auth`'s.

use vstd::prelude::*;
use std::borrow::Cow;
use oxide_auth::code_grant::extensions::Pkce;
use oxide_auth::primitives::grant::Value;
use crate::error::Error;
use crate::text::opt_text;

verus! {

/// How a code verifier is turned into the challenge that was sent ahead of it.
#[derive(Clone, Copy, Debug, PartialEq, Eq, Structural)]
pub enum PkceMethod {
    /// The challenge is the verifier itself.
    Plain,
    /// The challenge is the base64url text of the verifier's SHA-256 digest.
    S256,
}

/// The `S256` challenge of a verifier: the SHA-256 digest of its UTF-8 bytes in
/// unpadded base64url, as `oxide_auth` computes it when it checks a verifier.
pub uninterp spec fn s256_challenge(verifier: Seq<char>) -> Seq<char>;

/// The challenge that `verifier` answers under `method`.
pub open spec fn transform(method: PkceMethod, verifier: Seq<char>) -> Seq<char> {
    match method {
        PkceMethod::Plain => verifier,
        PkceMethod::S256 => s256_challenge(verifier),
    }
}

/// The method that a `code_challenge_method` parameter names, if any.
pub open spec fn method_named(name: Seq<char>) -> Option<PkceMethod> {
    if name == "plain"@ {
        Some(PkceMethod::Plain)
    } else if name == "S256"@ {
        Some(PkceMethod::S256)
    } else {
        None
    }
}

/// The character by which a stored challenge tells its method.
pub open spec fn method_mark(method: PkceMethod) -> char {
    match method {
        PkceMethod::Plain => 'p',
        PkceMethod::S256 => 'S',
    }
}

/// What binding a challenge and a method gives: the pair to store, nothing where PKCE
/// is optional and unused, or the error.
pub open spec fn bind_result(
    required: bool,
    challenge: Option<Seq<char>>,
    method: Option<Seq<char>>,
) -> Result<Option<(Seq<char>, PkceMethod)>, Error> {
    match challenge {
        None => if required {
            Err(Error::MissingPkceChallenge)
        } else {
            Ok(None)
        },
        Some(value) => {
            let name = match method {
                Some(name) => name,
                None => "plain"@,
            };
            match method_named(name) {
                Some(m) => Ok(Some((value, m))),
                None => Err(Error::UnsupportedTransform),
            }
        },
    }
}

/// Encodes a challenge and its method into the one string kept with a grant.
///
/// Trusted: the body is `oxide_auth`'s `Pkce::challenge`, with `plain` allowed and
/// both parameters present. For the method names `plain` and `S256` it returns the
/// challenge followed by `p` or `S`; any other name is an error.
#[verifier::external_body]
fn encode_challenge(method: &str, challenge: &str) -> (encoded: Option<String>)
    ensures
        match method_named(method@) {
            Some(m) => encoded matches Some(e) && e@ == challenge@.push(method_mark(m)),
            None => encoded is None,
        },
{
    let mut pkce = Pkce::required();
    pkce.allow_plain();
    match pkce.challenge(Some(Cow::Borrowed(method)), Some(Cow::Borrowed(challenge))) {
        Ok(Some(value)) => value.into_private_value().ok().flatten(),
        _ => None,
    }
}

/// Checks a verifier against an encoded challenge.
///
/// Trusted: the body is `oxide_auth`'s `Pkce::verify`. It takes the last character
/// off the encoded string; for `p` it compares the rest with the verifier byte by
/// byte, for `S` with the verifier's `S256` challenge, and it fails on anything else.
#[verifier::external_body]
fn check_verifier(encoded: &str, verifier: &str) -> (ok: bool)
    ensures
        ok == (encoded@.len() > 0 && ((encoded@.last() == 'p' && encoded@.drop_last() == verifier@)
            || (encoded@.last() == 'S' && encoded@.drop_last() == s256_challenge(verifier@)))),
{
    let pkce = Pkce::required();
    let stored = Value::private(Some(encoded.to_owned()));
    pkce.verify(Some(stored), Some(Cow::Borrowed(verifier))).is_ok()
}

/// A challenge bound to its method, as a grant carries it.
pub struct PkceBinding {
    encoded: String,
}

impl View for PkceBinding {
    type V = (Seq<char>, PkceMethod);

    /// The challenge value and the method.
    closed spec fn view(&self) -> (Seq<char>, PkceMethod) {
        (
            self.encoded@.drop_last(),
            if self.encoded@.last() == 'S' {
                PkceMethod::S256
            } else {
                PkceMethod::Plain
            },
        )
    }
}

impl PkceBinding {
    /// The stored text is a challenge followed by the mark of its method.
    #[verifier::type_invariant]
    pub closed spec fn wf(self) -> bool {
        self.encoded@.len() > 0 && (self.encoded@.last() == 'p' || self.encoded@.last() == 'S')
    }

    /// Whether `verifier` proves possession of the bound challenge.
    pub fn verify(&self, verifier: &str) -> (ok: bool)
        ensures
            ok == (transform(self@.1, verifier@) == self@.0),
    {
        proof {
            use_type_invariant(self);
        }
        check_verifier(self.encoded.as_str(), verifier)
    }
}

impl Clone for PkceBinding {
    fn clone(&self) -> (copy: Self)
        ensures
            copy@ == self@,
    {
        proof {
            use_type_invariant(self);
        }
        PkceBinding { encoded: self.encoded.clone() }
    }
}

/// Binds and checks PKCE challenges.
pub struct PkceValidator {
    /// Whether an authorization request must carry a challenge.
    pub required: bool,
}

impl PkceValidator {
    /// A validator that rejects requests without a challenge.
    pub fn required() -> (validator: Self)
        ensures
            validator.required,
    {
        PkceValidator { required: true }
    }

    /// A validator that checks a challenge where one is given.
    pub fn optional() -> (validator: Self)
        ensures
            !validator.required,
    {
        PkceValidator { required: false }
    }

    /// Binds the challenge of an authorization request to its method.
    ///
    /// The method is `plain` where none is named.
    pub fn bind(&self, challenge: Option<&str>, method: Option<&str>) -> (bound: Result<
        Option<PkceBinding>,
        Error,
    >)
        ensures
            match bound {
                Ok(Some(binding)) => bind_result(
                    self.required,
                    opt_text(challenge),
                    opt_text(method),
                ) == Ok::<_, Error>(Some(binding@)),
                Ok(None) => bind_result(self.required, opt_text(challenge), opt_text(method))
                    == Ok::<Option<(Seq<char>, PkceMethod)>, Error>(None),
                Err(e) => bind_result(self.required, opt_text(challenge), opt_text(method))
                    == Err::<Option<(Seq<char>, PkceMethod)>, _>(e),
            },
    {
        let value = match challenge {
            Some(value) => value,
            None => {
                if self.required {
                    return Err(Error::MissingPkceChallenge);
                } else {
                    return Ok(None);
                }
            },
        };
        let name = match method {
            Some(name) => name,
            None => "plain",
        };
        match encode_challenge(name, value) {
            Some(encoded) => {
                proof {
                    let m = method_named(name@)->0;
                    assert(encoded@.drop_last() =~= value@);
                    assert(encoded@.last() == method_mark(m));
                }
                Ok(Some(PkceBinding { encoded }))
            },
            None => Err(Error::UnsupportedTransform),
        }
    }
}

/// Under `plain` a verifier answers a challenge exactly when it is the challenge,
/// character for character.
pub proof fn lemma_plain_is_equality(challenge: Seq<char>, verifier: Seq<char>)
    ensures
        transform(PkceMethod::Plain, verifier) == challenge <==> verifier == challenge,
{
}

} // verus!
