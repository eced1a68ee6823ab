use vstd::prelude::*;

use crate::api::pairs_view;
use crate::pairs::{
    distinct_names, lemma_upsert_distinct, lemma_upsert_holds, lemma_upsert_keeps_other, upsert,
    upsert_pair,
};
use crate::text::{find, find_text, joined, join_texts, texts_view};

verus! {

/// The name and value a `Set-Cookie` line sets: what precedes the first `;`,
/// split at its first `=`. Attributes are dropped; a line without `=` or with
/// an empty name sets nothing.
pub open spec fn cookie_pair(line: Seq<char>) -> Option<(Seq<char>, Seq<char>)> {
    let head = match find(line, ";"@) {
        Some(i) => line.subrange(0, i),
        None => line,
    };
    match find(head, "="@) {
        Some(j) => if j > 0 {
            Some((head.subrange(0, j), head.subrange(j + 1, head.len() as int)))
        } else {
            None
        },
        None => None,
    }
}

/// The jar after it read one `Set-Cookie` line.
pub open spec fn recorded(jar: Seq<(Seq<char>, Seq<char>)>, line: Seq<char>) -> Seq<
    (Seq<char>, Seq<char>),
> {
    match cookie_pair(line) {
        Some((n, v)) => upsert(jar, n, v),
        None => jar,
    }
}

/// The jar after it read several `Set-Cookie` lines in order.
pub open spec fn recorded_all(jar: Seq<(Seq<char>, Seq<char>)>, lines: Seq<Seq<char>>) -> Seq<
    (Seq<char>, Seq<char>),
>
    decreases lines.len(),
{
    if lines.len() == 0 {
        jar
    } else {
        recorded(recorded_all(jar, lines.drop_last()), lines.last())
    }
}

/// Whether the line at `i` sets `name=value` and no later line sets `name` again.
pub open spec fn last_setting(lines: Seq<Seq<char>>, i: int, name: Seq<char>, value: Seq<char>) -> bool {
    &&& 0 <= i < lines.len()
    &&& cookie_pair(lines[i]) == Some((name, value))
    &&& forall|j: int|
        i < j < lines.len() ==> !(#[trigger] cookie_pair(lines[j]) matches Some((n, _)) && n == name)
}

/// A jar that read a line setting `name=value`, with no later line for
/// `name`, holds that pair.
pub proof fn lemma_recorded_holds(
    jar: Seq<(Seq<char>, Seq<char>)>,
    lines: Seq<Seq<char>>,
    i: int,
    name: Seq<char>,
    value: Seq<char>,
)
    requires
        last_setting(lines, i, name, value),
    ensures
        recorded_all(jar, lines).contains((name, value)),
    decreases lines.len(),
{
    let prefix = recorded_all(jar, lines.drop_last());
    if i == lines.len() - 1 {
        lemma_upsert_holds(prefix, name, value);
    } else {
        assert forall|j: int| i < j < lines.drop_last().len() implies !(#[trigger] cookie_pair(
            lines.drop_last()[j],
        ) matches Some((n, _)) && n == name) by {
            assert(lines.drop_last()[j] == lines[j]);
        }
        assert(lines.drop_last()[i] == lines[i]);
        lemma_recorded_holds(jar, lines.drop_last(), i, name, value);
        let last = lines[lines.len() - 1];
        assert(!(cookie_pair(last) matches Some((n, _)) && n == name));
        match cookie_pair(last) {
            Some((n, v)) => lemma_upsert_keeps_other(prefix, n, v, (name, value)),
            None => {},
        }
    }
}

/// One `name=value` item of a `Cookie` header.
pub open spec fn cookie_item(p: (Seq<char>, Seq<char>)) -> Seq<char> {
    p.0 + "="@ + p.1
}

/// The `Cookie` header value that replays a jar, `None` for an empty jar.
pub open spec fn cookie_line(jar: Seq<(Seq<char>, Seq<char>)>) -> Option<Seq<char>> {
    if jar.len() == 0 {
        None
    } else {
        Some(joined(jar.map_values(|p: (Seq<char>, Seq<char>)| cookie_item(p)), "; "@))
    }
}

/// Cookies gathered from upstream responses, by name, to be replayed on
/// every later request.
pub struct CookieJar {
    cookies: Vec<(String, String)>,
}

/// Splits a `Set-Cookie` line as `cookie_pair` says.
pub fn parse_set_cookie(line: &str) -> (r: Option<(String, String)>)
    ensures
        match cookie_pair(line@) {
            Some((n, v)) => r matches Some((a, b)) && a@ == n && b@ == v,
            None => r is None,
        },
{
    proof {
        reveal_strlit(";");
        reveal_strlit("=");
    }
    let len = line.unicode_len();
    let head = match find_text(line, ";") {
        Some(i) => line.substring_char(0, i),
        None => line.substring_char(0, len),
    };
    assert(line@.subrange(0, len as int) =~= line@);
    let ghost spec_head = match find(line@, ";"@) {
        Some(i) => line@.subrange(0, i),
        None => line@,
    };
    assert(head@ == spec_head);
    let hlen = head.unicode_len();
    match find_text(head, "=") {
        Some(j) => {
            if j == 0 {
                return None;
            }
            let name = String::from_str(head.substring_char(0, j));
            let value = String::from_str(head.substring_char(j + 1, hlen));
            Some((name, value))
        },
        None => None,
    }
}

impl CookieJar {
    /// The jar's pairs, in the order their names first arrived.
    pub closed spec fn pairs(&self) -> Seq<(Seq<char>, Seq<char>)> {
        pairs_view(self.cookies@)
    }

    pub fn new() -> (r: CookieJar)
        ensures
            r.pairs() == Seq::<(Seq<char>, Seq<char>)>::empty(),
            distinct_names(r.pairs()),
    {
        let r = CookieJar { cookies: Vec::new() };
        assert(r.pairs() =~= Seq::<(Seq<char>, Seq<char>)>::empty());
        r
    }

    /// Reads one `Set-Cookie` line into the jar.
    pub fn record(&mut self, line: &str)
        ensures
            final(self).pairs() == recorded(old(self).pairs(), line@),
            distinct_names(old(self).pairs()) ==> distinct_names(final(self).pairs()),
    {
        match parse_set_cookie(line) {
            Some((n, v)) => {
                proof {
                    if distinct_names(self.pairs()) {
                        lemma_upsert_distinct(self.pairs(), n@, v@);
                    }
                }
                upsert_pair(&mut self.cookies, n, v);
            },
            None => {},
        }
    }

    /// The `Cookie` header value that replays the jar.
    pub fn header_value(&self) -> (r: Option<String>)
        ensures
            match cookie_line(self.pairs()) {
                Some(l) => r matches Some(t) && t@ == l,
                None => r is None,
            },
    {
        if self.cookies.len() == 0 {
            return None;
        }
        let mut items: Vec<String> = Vec::new();
        let mut i: usize = 0;
        while i < self.cookies.len()
            invariant
                i <= self.cookies@.len(),
                items@.len() == i,
                forall|j: int| 0 <= j < i ==> items@[j]@ == cookie_item(self.pairs()[j]),
            decreases self.cookies@.len() - i,
        {
            let item = self.cookies[i].0.clone().concat("=").concat(self.cookies[i].1.as_str());
            assert(item@ == cookie_item(self.pairs()[i as int]));
            items.push(item);
            i += 1;
        }
        assert(texts_view(items@) =~= self.pairs().map_values(
            |p: (Seq<char>, Seq<char>)| cookie_item(p),
        ));
        Some(join_texts(&items, "; "))
    }
}

} // verus!
