//! Scopes, as `oxide_auth` has them: sets of tokens, written as text with spaces
//! between.

use vstd::prelude::*;
use oxide_auth::primitives::scope::Scope;
use crate::error::Error;

verus! {

/// `oxide_auth`'s scope: a set of scope tokens. Verus sees nothing inside a value;
/// what it holds is spoken of through [`scope_tokens`].
#[verifier::external_type_specification]
#[verifier::external_body]
pub struct ExScope(Scope);

/// The tokens that a scope holds.
pub uninterp spec fn scope_tokens(scope: Scope) -> Set<Seq<char>>;

/// A character that may stand in a scope token.
pub open spec fn is_scope_char(c: char) -> bool {
    c == '!' || ('#' <= c && c <= '[') || (']' <= c && c <= '~')
}

/// Scope text holds only token characters and spaces.
pub open spec fn is_scope_text(text: Seq<char>) -> bool {
    forall|i: int| 0 <= i < text.len() ==> is_scope_char(#[trigger] text[i]) || text[i] == ' '
}

/// `token` is one of the non-empty pieces that spaces cut `text` into.
pub open spec fn is_token_of(text: Seq<char>, token: Seq<char>) -> bool {
    &&& token.len() > 0
    &&& forall|k: int| 0 <= k < token.len() ==> #[trigger] token[k] != ' '
    &&& exists|at: int|
        {
            &&& 0 <= at
            &&& at + token.len() <= text.len()
            &&& #[trigger] text.subrange(at, at + token.len()) == token
            &&& (at == 0 || text[at - 1] == ' ')
            &&& (at + token.len() == text.len() || text[at + token.len()] == ' ')
        }
}

/// The set of tokens that `text` lists.
pub open spec fn tokens_of(text: Seq<char>) -> Set<Seq<char>> {
    Set::new(|token: Seq<char>| is_token_of(text, token))
}

/// The tokens of `order`, written one after another with a single space between.
pub open spec fn joined(order: Seq<Seq<char>>) -> Seq<char>
    decreases order.len(),
{
    if order.len() == 0 {
        Seq::empty()
    } else if order.len() == 1 {
        order[0]
    } else {
        order[0] + seq![' '] + joined(order.drop_first())
    }
}

/// The text has no space at either end and no two spaces in a row.
pub open spec fn is_tight(text: Seq<char>) -> bool {
    &&& text.len() > 0 ==> text[0] != ' ' && text[text.len() - 1] != ' '
    &&& forall|i: int|
        0 <= i && i + 1 < text.len() ==> !(#[trigger] text[i] == ' ' && text[i + 1] == ' ')
}

/// `text` is the set `tokens` written out: each token once, in some order, with
/// single spaces between.
pub open spec fn is_text_of(text: Seq<char>, tokens: Set<Seq<char>>) -> bool {
    &&& is_scope_text(text)
    &&& tokens_of(text) == tokens
    &&& is_tight(text)
    &&& exists|order: Seq<Seq<char>>|
        order.no_duplicates() && order.to_set() == tokens && text == #[trigger] joined(order)
}

/// Parses a space-separated list of scope tokens.
///
/// Trusted: the body is `oxide_auth`'s `FromStr` for `Scope`. That function fails on
/// the first character that is neither a token character nor a space, and otherwise
/// collects the non-empty pieces between spaces into a set.
#[verifier::external_body]
pub(crate) fn parse_scope(text: &str) -> (parsed: Option<Scope>)
    ensures
        parsed is Some <==> is_scope_text(text@),
        parsed matches Some(scope) ==> scope_tokens(scope) == tokens_of(text@),
{
    text.parse::<Scope>().ok()
}

/// Whether `granted` holds every token of `wanted`.
///
/// Trusted: the body is `oxide_auth`'s `Scope::priviledged_to`, which compares the two
/// token sets and is true exactly when the argument's is a subset of the receiver's.
#[verifier::external_body]
pub(crate) fn scope_covers(granted: &Scope, wanted: &Scope) -> (covers: bool)
    ensures
        covers == scope_tokens(*wanted).subset_of(scope_tokens(*granted)),
{
    granted.priviledged_to(wanted)
}

/// A copy of `scope`.
///
/// Trusted: the body is the `Clone` that `oxide_auth` derives for `Scope`; the copy
/// holds the same tokens.
#[verifier::external_body]
pub(crate) fn clone_scope(scope: &Scope) -> (copy: Scope)
    ensures
        scope_tokens(copy) == scope_tokens(*scope),
{
    scope.clone()
}

/// The tokens of `scope` joined by spaces.
///
/// Trusted: the body is `oxide_auth`'s `Display` for `Scope`. It collects the tokens
/// of a hash set and joins them with single spaces, so the order of the tokens is not
/// fixed. Whatever the order, the text is each token once with one space between: it
/// is scope text, lists exactly the tokens of the scope, and has no space at either
/// end and no two in a row.
#[verifier::external_body]
pub(crate) fn scope_text(scope: &Scope) -> (text: String)
    ensures
        is_text_of(text@, scope_tokens(*scope)),
{
    scope.to_string()
}

/// Reads a scope from its text: tokens with spaces between. Text that holds any
/// other character than those of tokens and the space is no scope.
pub fn scope_from_text(text: &str) -> (parsed: Result<Scope, Error>)
    ensures
        match parsed {
            Ok(scope) => is_scope_text(text@) && scope_tokens(scope) == tokens_of(text@),
            Err(e) => e == Error::InvalidRequest && !is_scope_text(text@),
        },
{
    match parse_scope(text) {
        Some(scope) => Ok(scope),
        None => Err(Error::InvalidRequest),
    }
}

/// A scope of one token has one text, the token itself; a scope of none has the
/// empty text.
pub proof fn lemma_text_of_few(text: Seq<char>, tokens: Set<Seq<char>>)
    requires
        is_text_of(text, tokens),
    ensures
        forall|token: Seq<char>| tokens == set![token] ==> text == token,
        tokens == Set::<Seq<char>>::empty() ==> text == Seq::<char>::empty(),
{
    let order = choose|order: Seq<Seq<char>>|
        order.no_duplicates() && order.to_set() == tokens && text == #[trigger] joined(order);
    order.unique_seq_to_set();
    assert forall|token: Seq<char>| tokens == set![token] implies text == token by {
        assert(set![token].len() == 1);
        assert(order.len() == 1);
        assert(order.to_set().contains(order[0]));
    }
    if tokens == Set::<Seq<char>>::empty() {
        assert(order.len() == 0);
    }
}

} // verus!
