use vstd::prelude::*;

use crate::api::pairs_view;
use crate::pairs::{upsert, upsert_pair};
use crate::text::{
    eq_ignore_ascii_case, joined, join_texts, lowercase_of, text_eq_ignore_ascii_case, texts_view,
    to_lowercase,
};

verus! {

/// Headers the gateway alone decides on; a caller's copies are dropped.
pub open spec fn is_reserved_header(name: Seq<char>) -> bool {
    let l = lowercase_of(name);
    l == "host"@ || l == "cookie"@ || l == "authorization"@ || l == "x-pm-uid"@
}

/// The caller's headers without the reserved ones, in their order.
pub open spec fn kept_headers(hs: Seq<(Seq<char>, Seq<char>)>) -> Seq<(Seq<char>, Seq<char>)>
    decreases hs.len(),
{
    if hs.len() == 0 {
        Seq::empty()
    } else if is_reserved_header(hs.last().0) {
        kept_headers(hs.drop_last())
    } else {
        kept_headers(hs.drop_last()).push(hs.last())
    }
}

/// Whether a header of that name, up to ASCII case, is among `hs`.
pub open spec fn has_header(hs: Seq<(Seq<char>, Seq<char>)>, name: Seq<char>) -> bool {
    exists|i: int| 0 <= i < hs.len() && eq_ignore_ascii_case(#[trigger] hs[i].0, name)
}

pub open spec fn opt_pairs_view(v: Seq<(String, Option<String>)>) -> Seq<
    (Seq<char>, Option<Seq<char>>),
> {
    v.map_values(
        |p: (String, Option<String>)|
            (
                p.0@,
                match p.1 {
                    Some(t) => Some(t@),
                    None => None,
                },
            ),
    )
}

pub open spec fn is_set_cookie(name: Seq<char>) -> bool {
    eq_ignore_ascii_case(name, "set-cookie"@)
}

/// The values of the `Set-Cookie` headers of a response, in order. Headers
/// whose value is not text are absent.
pub open spec fn set_cookie_values(hs: Seq<(Seq<char>, Option<Seq<char>>)>) -> Seq<Seq<char>>
    decreases hs.len(),
{
    if hs.len() == 0 {
        Seq::empty()
    } else if hs.last().1 is Some && is_set_cookie(hs.last().0) {
        set_cookie_values(hs.drop_last()).push(hs.last().1->Some_0)
    } else {
        set_cookie_values(hs.drop_last())
    }
}

/// The other text headers of a response as a name-keyed list; a later header
/// of the same name wins.
pub open spec fn plain_headers(hs: Seq<(Seq<char>, Option<Seq<char>>)>) -> Seq<
    (Seq<char>, Seq<char>),
>
    decreases hs.len(),
{
    if hs.len() == 0 {
        Seq::empty()
    } else if hs.last().1 is Some && !is_set_cookie(hs.last().0) {
        upsert(plain_headers(hs.drop_last()), hs.last().0, hs.last().1->Some_0)
    } else {
        plain_headers(hs.drop_last())
    }
}

/// The flat header map handed back to the UI: the plain headers, and all
/// `Set-Cookie` values joined by `|||` under `x-set-cookie`.
pub open spec fn flattened(hs: Seq<(Seq<char>, Option<Seq<char>>)>) -> Seq<(Seq<char>, Seq<char>)> {
    if set_cookie_values(hs).len() == 0 {
        plain_headers(hs)
    } else {
        upsert(plain_headers(hs), "x-set-cookie"@, joined(set_cookie_values(hs), "|||"@))
    }
}

pub fn is_reserved(name: &str) -> (r: bool)
    ensures
        r == is_reserved_header(name@),
{
    let l = to_lowercase(name);
    l == String::from_str("host") || l == String::from_str("cookie") || l == String::from_str(
        "authorization",
    ) || l == String::from_str("x-pm-uid")
}

/// Drops the reserved headers from a caller's list.
pub fn keep_headers(hs: &Vec<(String, String)>) -> (r: Vec<(String, String)>)
    ensures
        pairs_view(r@) == kept_headers(pairs_view(hs@)),
{
    let mut out: Vec<(String, String)> = Vec::new();
    let mut i: usize = 0;
    while i < hs.len()
        invariant
            i <= hs@.len(),
            pairs_view(out@) == kept_headers(pairs_view(hs@.subrange(0, i as int))),
        decreases hs@.len() - i,
    {
        let ghost pre = pairs_view(hs@.subrange(0, i + 1));
        assert(pre.drop_last() =~= pairs_view(hs@.subrange(0, i as int)));
        assert(pre.last() == pairs_view(hs@)[i as int]);
        if !is_reserved(hs[i].0.as_str()) {
            out.push((hs[i].0.clone(), hs[i].1.clone()));
            assert(pairs_view(out@) =~= kept_headers(pre));
        }
        i += 1;
    }
    assert(hs@.subrange(0, i as int) =~= hs@);
    out
}

pub fn contains_header(hs: &Vec<(String, String)>, name: &str) -> (r: bool)
    ensures
        r == has_header(pairs_view(hs@), name@),
{
    let mut i: usize = 0;
    while i < hs.len()
        invariant
            i <= hs@.len(),
            forall|j: int| 0 <= j < i ==> !eq_ignore_ascii_case(pairs_view(hs@)[j].0, name@),
        decreases hs@.len() - i,
    {
        if text_eq_ignore_ascii_case(hs[i].0.as_str(), name) {
            assert(eq_ignore_ascii_case(pairs_view(hs@)[i as int].0, name@));
            return true;
        }
        i += 1;
    }
    false
}

/// Splits a response's headers into the flat map and the `Set-Cookie` values.
pub fn flatten_headers(hs: &Vec<(String, Option<String>)>) -> (r: (Vec<(String, String)>, Vec<String>))
    ensures
        pairs_view(r.0@) == flattened(opt_pairs_view(hs@)),
        texts_view(r.1@) == set_cookie_values(opt_pairs_view(hs@)),
{
    let mut plain: Vec<(String, String)> = Vec::new();
    let mut cookies: Vec<String> = Vec::new();
    let mut i: usize = 0;
    while i < hs.len()
        invariant
            i <= hs@.len(),
            pairs_view(plain@) == plain_headers(opt_pairs_view(hs@.subrange(0, i as int))),
            texts_view(cookies@) == set_cookie_values(opt_pairs_view(hs@.subrange(0, i as int))),
        decreases hs@.len() - i,
    {
        let ghost pre = opt_pairs_view(hs@.subrange(0, i + 1));
        assert(pre.drop_last() =~= opt_pairs_view(hs@.subrange(0, i as int)));
        assert(pre.last() == opt_pairs_view(hs@)[i as int]);
        match &hs[i].1 {
            Some(v) => {
                if text_eq_ignore_ascii_case(hs[i].0.as_str(), "set-cookie") {
                    cookies.push(v.clone());
                    assert(texts_view(cookies@) =~= set_cookie_values(pre));
                } else {
                    upsert_pair(&mut plain, hs[i].0.clone(), v.clone());
                }
            },
            None => {},
        }
        i += 1;
    }
    assert(hs@.subrange(0, i as int) =~= hs@);
    if cookies.len() > 0 {
        let joined_value = join_texts(&cookies, "|||");
        upsert_pair(&mut plain, String::from_str("x-set-cookie"), joined_value);
    }
    (plain, cookies)
}

} // verus!
