//! Helpers on text: optional strings, and finding a parameter in a query string.

use vstd::prelude::*;

verus! {

/// Whether two string slices hold the same text.
pub(crate) fn str_eq(a: &str, b: &str) -> (same: bool)
    ensures
        same == (a@ == b@),
{
    let left = chars_of(a);
    let right = chars_of(b);
    if left.len() != right.len() {
        return false;
    }
    let mut i: usize = 0;
    while i < left.len()
        invariant
            i <= left.len(),
            left.len() == right.len(),
            left@ == a@,
            right@ == b@,
            forall|j: int| 0 <= j < i ==> left@[j] == right@[j],
        decreases left.len() - i,
    {
        if left[i] != right[i] {
            return false;
        }
        i = i + 1;
    }
    assert(left@ =~= right@);
    true
}

/// The view of an optional string slice.
pub open spec fn opt_text(text: Option<&str>) -> Option<Seq<char>> {
    match text {
        Some(t) => Some(t@),
        None => None,
    }
}

/// The view of an optional string.
pub open spec fn opt_string(text: Option<String>) -> Option<Seq<char>> {
    match text {
        Some(t) => Some(t@),
        None => None,
    }
}

/// The text of an optional string, empty where there is none.
pub open spec fn text_or_empty(text: Option<String>) -> Seq<char> {
    match text {
        Some(t) => t@,
        None => Seq::empty(),
    }
}

/// An optional string as an optional slice.
pub(crate) fn as_text(text: &Option<String>) -> (slice: Option<&str>)
    ensures
        opt_text(slice) == opt_string(*text),
{
    match text {
        Some(t) => Some(t.as_str()),
        None => None,
    }
}

/// A copy of an optional string.
pub(crate) fn clone_text(text: &Option<String>) -> (copy: Option<String>)
    ensures
        opt_string(copy) == opt_string(*text),
{
    match text {
        Some(t) => Some(t.clone()),
        None => None,
    }
}

/// The characters of `text`, in order.
pub(crate) fn chars_of(text: &str) -> (chars: Vec<char>)
    ensures
        chars@ == text@,
{
    let mut chars: Vec<char> = Vec::new();
    for c in it: text.chars()
        invariant
            chars@ == it.seq().take(it.index()),
            it.seq() == text@,
    {
        chars.push(c);
    }
    chars
}

/// `query` has the parameter `param` at position `at`: the text stands there whole,
/// between the start, the end or `&` separators.
pub open spec fn is_param_at(query: Seq<char>, param: Seq<char>, at: int) -> bool {
    &&& 0 <= at
    &&& at + param.len() <= query.len()
    &&& query.subrange(at, at + param.len()) == param
    &&& (at == 0 || query[at - 1] == '&')
    &&& (at + param.len() == query.len() || query[at + param.len()] == '&')
}

/// `query`, a list of parameters separated by `&`, holds `param` as one of them.
pub open spec fn has_param(query: Seq<char>, param: Seq<char>) -> bool {
    exists|at: int| is_param_at(query, param, at)
}

fn param_at(query: &Vec<char>, param: &Vec<char>, at: usize) -> (found: bool)
    requires
        at + param.len() <= query.len(),
    ensures
        found == is_param_at(query@, param@, at as int),
{
    if at > 0 && query[at - 1] != '&' {
        return false;
    }
    let end: usize = at + param.len();
    if end < query.len() && query[end] != '&' {
        return false;
    }
    let mut k: usize = 0;
    while k < param.len()
        invariant
            k <= param.len(),
            at + param.len() <= query.len(),
            forall|j: int| 0 <= j < k ==> query@[at + j] == param@[j],
        decreases param.len() - k,
    {
        if query[at + k] != param[k] {
            assert(query@.subrange(at as int, at + param.len())[k as int] == query@[at + k]);
            return false;
        }
        k = k + 1;
    }
    assert(query@.subrange(at as int, at + param.len()) =~= param@);
    true
}

/// Whether the query string holds `param` as one of its `&`-separated parameters.
pub fn query_has_param(query: &str, param: &str) -> (found: bool)
    ensures
        found == has_param(query@, param@),
{
    let q = chars_of(query);
    let p = chars_of(param);
    if p.len() > q.len() {
        return false;
    }
    let last: usize = q.len() - p.len();
    let mut at: usize = 0;
    while at < last
        invariant
            at <= last,
            last == q.len() - p.len(),
            p.len() <= q.len(),
            q@ == query@,
            p@ == param@,
            forall|j: int| 0 <= j < at ==> !is_param_at(q@, p@, j),
        decreases last - at,
    {
        if param_at(&q, &p, at) {
            return true;
        }
        at = at + 1;
    }
    param_at(&q, &p, last)
}

} // verus!
