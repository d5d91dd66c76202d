//! Random values for codes and tokens, from `oxide_auth`'s generator.

use vstd::prelude::*;
use chrono::DateTime;
use oxide_auth::primitives::generator::{RandomGenerator, TagGrant};
use oxide_auth::primitives::grant::Extensions;
use url::Url;
use crate::grant::Grant;

verus! {

/// `oxide_auth`'s generator of random tokens. Verus sees nothing inside a value.
#[verifier::external_type_specification]
#[verifier::external_body]
pub struct ExRandomGenerator(RandomGenerator);

/// The latest time, in seconds, that the outside grant type holds as an expiry: the
/// last second of the year 262142.
pub const LATEST_TIME: u64 = 8210266876799;

/// The number of random bytes that each tag of a generator encodes.
pub uninterp spec fn generator_length(generator: RandomGenerator) -> usize;

/// A character of base64 text: a letter, a digit, `+`, `/` or the padding `=`.
pub open spec fn is_base64_char(c: char) -> bool {
    ||| 'A' <= c && c <= 'Z'
    ||| 'a' <= c && c <= 'z'
    ||| '0' <= c && c <= '9'
    ||| c == '+'
    ||| c == '/'
    ||| c == '='
}

/// `text` is a tag that encodes `bytes` bytes: base64 text with padding, four
/// characters for every three bytes begun.
pub open spec fn is_tag(text: Seq<char>, bytes: usize) -> bool {
    &&& text.len() == 4 * ((bytes + 2) / 3)
    &&& forall|i: int| 0 <= i < text.len() ==> is_base64_char(#[trigger] text[i])
}

/// Whether a tag can be had for a grant of the given redirect URI and expiry: the
/// URI parses and the expiry is a time that the outside grant type holds.
pub open spec fn can_tag(redirect_uri: Seq<char>, until: u64) -> bool {
    crate::uri::parses_as_url(redirect_uri) && until <= LATEST_TIME
}

/// `RandomGenerator::new` makes a generator whose tokens encode `length` random
/// bytes.
pub assume_specification[ RandomGenerator::new ](length: usize) -> (generator: RandomGenerator)
    ensures
        generator_length(generator) == length,
;

/// A fresh random tag for a grant that is valid until `until`, in seconds.
///
/// Trusted: the body is `RandomGenerator::tag`, called on the grant rewritten as
/// `oxide_auth`'s own grant type, with its parsed redirect URI and without the
/// challenge. The tag is the base64 text of bytes drawn from the operating system's
/// random source, written by the `base64` crate's standard engine with padding: its
/// length and alphabet are stated, its value is not. The generator gives a tag on
/// every call and keeps its length; it does not return where the bytes cannot be
/// allocated or the operating system's random source fails. The only failure is the
/// rewriting of the time: `chrono`'s `DateTime::from_timestamp` takes the seconds up
/// to [`LATEST_TIME`] and no later ones.
#[verifier::external_body]
pub(crate) fn tag_grant(
    generator: &mut RandomGenerator,
    usage: u64,
    grant: &Grant,
    redirect_uri: Url,
    until: u64,
) -> (tag: Option<String>)
    ensures
        tag is Some <==> until <= LATEST_TIME,
        tag matches Some(text) ==> is_tag(text@, generator_length(*old(generator))),
        generator_length(*final(generator)) == generator_length(*old(generator)),
{
    let until = DateTime::from_timestamp(i64::try_from(until).ok()?, 0)?;
    let outside = oxide_auth::primitives::grant::Grant {
        owner_id: grant.owner_id.clone(),
        client_id: grant.client_id.clone(),
        scope: grant.scope.clone(),
        redirect_uri,
        until,
        extensions: Extensions::new(),
    };
    generator.tag(usage, &outside).ok()
}

/// A fresh random tag for `grant`: one is had exactly where the grant's redirect URI
/// parses as a URL and the expiry is a time that the outside grant type holds.
pub(crate) fn fresh_tag(generator: &mut RandomGenerator, usage: u64, grant: &Grant, until: u64) -> (tag:
    Option<String>)
    ensures
        tag is Some <==> can_tag(grant.redirect_uri@, until),
        tag matches Some(text) ==> is_tag(text@, generator_length(*old(generator))),
        generator_length(*final(generator)) == generator_length(*old(generator)),
{
    match crate::uri::parse_url(grant.redirect_uri.as_str()) {
        Some(redirect_uri) => tag_grant(generator, usage, grant, redirect_uri, until),
        None => None,
    }
}

} // verus!
