use vstd::prelude::*;

use crate::api::pairs_view;

verus! {

/// The position of the last entry named `k`.
pub open spec fn key_index(e: Seq<(Seq<char>, Seq<char>)>, k: Seq<char>) -> Option<int>
    decreases e.len(),
{
    if e.len() == 0 {
        None
    } else if e.last().0 == k {
        Some(e.len() - 1)
    } else {
        key_index(e.drop_last(), k)
    }
}

/// Name-keyed insertion: an entry named `k` gets the value `v` in place, or a
/// new entry is appended.
pub open spec fn upsert(e: Seq<(Seq<char>, Seq<char>)>, k: Seq<char>, v: Seq<char>) -> Seq<
    (Seq<char>, Seq<char>),
> {
    match key_index(e, k) {
        Some(i) => e.update(i, (k, v)),
        None => e.push((k, v)),
    }
}

proof fn lemma_key_index_bounds(e: Seq<(Seq<char>, Seq<char>)>, k: Seq<char>)
    ensures
        key_index(e, k) matches Some(i) ==> 0 <= i < e.len() && e[i].0 == k,
    decreases e.len(),
{
    if e.len() > 0 && e.last().0 != k {
        lemma_key_index_bounds(e.drop_last(), k);
    }
}

/// No two entries share a name.
pub open spec fn distinct_names(e: Seq<(Seq<char>, Seq<char>)>) -> bool {
    forall|i: int, j: int| 0 <= i < j < e.len() ==> #[trigger] e[i].0 != #[trigger] e[j].0
}

proof fn lemma_key_index_none(e: Seq<(Seq<char>, Seq<char>)>, k: Seq<char>)
    requires
        key_index(e, k) is None,
    ensures
        forall|i: int| 0 <= i < e.len() ==> #[trigger] e[i].0 != k,
    decreases e.len(),
{
    if e.len() > 0 {
        lemma_key_index_none(e.drop_last(), k);
        assert forall|i: int| 0 <= i < e.len() implies #[trigger] e[i].0 != k by {
            if i < e.len() - 1 {
                assert(e.drop_last()[i] == e[i]);
            }
        }
    }
}

/// Upserts keep names distinct, so a list built by upserts reads as a map
/// from name to value.
pub proof fn lemma_upsert_distinct(e: Seq<(Seq<char>, Seq<char>)>, k: Seq<char>, v: Seq<char>)
    requires
        distinct_names(e),
    ensures
        distinct_names(upsert(e, k, v)),
{
    lemma_key_index_bounds(e, k);
    let u = upsert(e, k, v);
    match key_index(e, k) {
        Some(x) => {
            assert forall|i: int, j: int| 0 <= i < j < u.len() implies #[trigger] u[i].0
                != #[trigger] u[j].0 by {
                assert(u[i].0 == e[i].0);
                assert(u[j].0 == e[j].0);
            }
        },
        None => {
            lemma_key_index_none(e, k);
            assert forall|i: int, j: int| 0 <= i < j < u.len() implies #[trigger] u[i].0
                != #[trigger] u[j].0 by {
                if j < e.len() {
                    assert(u[i] == e[i] && u[j] == e[j]);
                } else {
                    assert(u[i] == e[i]);
                }
            }
        },
    }
}

/// An upsert under another name keeps every pair already held.
pub proof fn lemma_upsert_keeps_other(
    e: Seq<(Seq<char>, Seq<char>)>,
    k: Seq<char>,
    v: Seq<char>,
    p: (Seq<char>, Seq<char>),
)
    requires
        e.contains(p),
        p.0 != k,
    ensures
        upsert(e, k, v).contains(p),
{
    lemma_key_index_bounds(e, k);
    let y = choose|y: int| 0 <= y < e.len() && e[y] == p;
    let u = upsert(e, k, v);
    match key_index(e, k) {
        Some(x) => {
            assert(x != y);
            assert(u[y] == p);
        },
        None => assert(u[y] == p),
    }
}

/// After an upsert the list holds the pair `(k, v)`.
pub proof fn lemma_upsert_holds(e: Seq<(Seq<char>, Seq<char>)>, k: Seq<char>, v: Seq<char>)
    ensures
        upsert(e, k, v).contains((k, v)),
{
    lemma_key_index_bounds(e, k);
    let u = upsert(e, k, v);
    match key_index(e, k) {
        Some(i) => assert(u[i] == (k, v)),
        None => assert(u[e.len() as int] == (k, v)),
    }
}

fn key_position(e: &Vec<(String, String)>, k: &String) -> (r: Option<usize>)
    ensures
        match key_index(pairs_view(e@), k@) {
            Some(i) => r == Some(i as usize),
            None => r is None,
        },
{
    let mut i: usize = e.len();
    assert(e@.subrange(0, i as int) =~= e@);
    while i > 0
        invariant
            i <= e@.len(),
            key_index(pairs_view(e@), k@) == key_index(pairs_view(e@.subrange(0, i as int)), k@),
        decreases i,
    {
        let ghost pre = pairs_view(e@.subrange(0, i as int));
        assert(pre.drop_last() =~= pairs_view(e@.subrange(0, i - 1)));
        assert(pre.last() == pairs_view(e@)[i - 1]);
        if e[i - 1].0 == *k {
            return Some(i - 1);
        }
        i -= 1;
    }
    None
}

/// Sets the entry named `k` to `v`, as `upsert` says.
pub fn upsert_pair(e: &mut Vec<(String, String)>, k: String, v: String)
    ensures
        pairs_view(final(e)@) == upsert(pairs_view(old(e)@), k@, v@),
{
    let ghost before = pairs_view(e@);
    proof {
        lemma_key_index_bounds(before, k@);
    }
    match key_position(e, &k) {
        Some(i) => {
            e.set(i, (k, v));
            assert(pairs_view(e@) =~= upsert(before, k@, v@));
        },
        None => {
            e.push((k, v));
            assert(pairs_view(e@) =~= upsert(before, k@, v@));
        },
    }
}

} // verus!
