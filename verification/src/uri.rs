//! URL syntax, as the `url` crate parses it.

use vstd::prelude::*;
use url::Url;

verus! {

/// The `url` crate's parsed URL. Verus sees nothing inside a value.
#[verifier::external_type_specification]
#[verifier::external_body]
pub struct ExUrl(Url);

/// Whether `text` is a URL that the `url` crate's parser accepts.
pub uninterp spec fn parses_as_url(text: Seq<char>) -> bool;

/// Parses `text` as an absolute URL.
///
/// Trusted: the body is `url::Url::parse`, a function of its argument alone. The
/// contract names the texts it accepts and says nothing of the parsed value.
#[verifier::external_body]
pub(crate) fn parse_url(text: &str) -> (parsed: Option<Url>)
    ensures
        parsed is Some <==> parses_as_url(text@),
{
    Url::parse(text).ok()
}

} // verus!
