//! The text of an auth file: one `user:password` entry per line.
use vstd::prelude::*;
use vstd::string::StringExecFns;
use crate::text::{
    chars_of, push_str, spec_split, spec_trim, split_chars, string_from_chars, trim_chars,
};

verus! {

/// The lines of a text, trimmed, the empty ones dropped.
pub open spec fn spec_trimmed_nonempty(pieces: Seq<Seq<char>>) -> Seq<Seq<char>>
    decreases pieces.len(),
{
    if pieces.len() == 0 {
        Seq::<Seq<char>>::empty()
    } else {
        let rest = spec_trimmed_nonempty(pieces.drop_last());
        let t = spec_trim(pieces.last());
        if t.len() == 0 {
            rest
        } else {
            rest.push(t)
        }
    }
}

/// The entries of an auth file: `text.split('\n').map(str::trim).filter(|x| !x.is_empty())`.
pub open spec fn spec_auth_entries(text: Seq<char>) -> Seq<Seq<char>> {
    spec_trimmed_nonempty(spec_split(text, '\n'))
}

/// The position of the first `c` in `s`.
pub open spec fn spec_find_char(s: Seq<char>, c: char) -> Option<int>
    decreases s.len(),
{
    if s.len() == 0 {
        None
    } else {
        match spec_find_char(s.drop_last(), c) {
            Some(i) => Some(i),
            None => if s.last() == c {
                Some(s.len() - 1)
            } else {
                None
            },
        }
    }
}

/// `split_once(c)`: the text before the first `c` and the text after it.
pub open spec fn spec_split_once(s: Seq<char>, c: char) -> Option<(Seq<char>, Seq<char>)> {
    match spec_find_char(s, c) {
        Some(i) => Some((s.take(i), s.skip(i + 1))),
        None => None,
    }
}

/// `split_once(':')`: the text before the first colon and the text after it.
pub open spec fn spec_split_colon(s: Seq<char>) -> Option<(Seq<char>, Seq<char>)> {
    spec_split_once(s, ':')
}

/// The `(user, password)` pairs of the entries, in order, or the error for
/// the first entry without a colon.
pub open spec fn spec_auth_pairs(entries: Seq<Seq<char>>) -> Result<Seq<(Seq<char>, Seq<char>)>, Seq<char>>
    decreases entries.len(),
{
    if entries.len() == 0 {
        Ok(Seq::<(Seq<char>, Seq<char>)>::empty())
    } else {
        match spec_auth_pairs(entries.drop_last()) {
            Err(e) => Err(e),
            Ok(ps) => match spec_split_colon(entries.last()) {
                Some(p) => Ok(ps.push(p)),
                None => Err(
                    "The auth '"@ + entries.last()
                        + "' does not contain a username and password component, skipping"@,
                ),
            },
        }
    }
}

/// What an auth file's text gives: its `(user, password)` pairs in order (a
/// later pair for a user replaces an earlier one where they are collected
/// into a map), or the error for the first entry without a colon.
pub open spec fn spec_parse_auth(text: Seq<char>) -> Result<Seq<(Seq<char>, Seq<char>)>, Seq<char>> {
    spec_auth_pairs(spec_auth_entries(text))
}

pub open spec fn auth_result_view(r: Result<Vec<(String, String)>, String>) -> Result<Seq<(Seq<char>, Seq<char>)>, Seq<char>> {
    match r {
        Ok(v) => Ok(crate::json::spec_pairs_view(v@)),
        Err(e) => Err(e@),
    }
}

proof fn lemma_find_char(s: Seq<char>, c: char)
    ensures
        match spec_find_char(s, c) {
            Some(i) => 0 <= i < s.len() && s[i] == c && forall|j: int| 0 <= j < i ==> s[j] != c,
            None => forall|j: int| 0 <= j < s.len() ==> s[j] != c,
        },
    decreases s.len(),
{
    if s.len() > 0 {
        lemma_find_char(s.drop_last(), c);
        assert(forall|j: int| 0 <= j < s.len() - 1 ==> s.drop_last()[j] == s[j]);
    }
}

/// `split_once(c)` of a text.
pub fn split_once_char(e: &Vec<char>, c: char) -> (r: Option<(String, String)>)
    ensures
        match r {
            Some((a, b)) => spec_split_once(e@, c) == Some((a@, b@)),
            None => spec_split_once(e@, c) is None,
        },
{
    proof {
        lemma_find_char(e@, c);
    }
    let mut i: usize = 0;
    while i < e.len()
        invariant
            i <= e@.len(),
            forall|j: int| 0 <= j < i ==> e@[j] != c,
            match spec_find_char(e@, c) {
                Some(k) => 0 <= k < e@.len() && e@[k] == c && forall|j: int| 0 <= j < k ==> e@[j] != c,
                None => forall|j: int| 0 <= j < e@.len() ==> e@[j] != c,
            },
        decreases e@.len() - i,
    {
        if e[i] == c {
            let mut a: Vec<char> = Vec::new();
            let mut b: Vec<char> = Vec::new();
            let mut j: usize = 0;
            while j < i
                invariant
                    j <= i < e@.len(),
                    a@ == e@.take(j as int),
                decreases i - j,
            {
                a.push(e[j]);
                assert(e@.take(j + 1) =~= e@.take(j as int).push(e@[j as int]));
                j = j + 1;
            }
            let mut k: usize = i + 1;
            while k < e.len()
                invariant
                    i + 1 <= k <= e@.len(),
                    b@ == e@.subrange(i + 1, k as int),
                decreases e@.len() - k,
            {
                b.push(e[k]);
                assert(e@.subrange(i + 1, k + 1) =~= e@.subrange(i + 1, k as int).push(e@[k as int]));
                k = k + 1;
            }
            assert(e@.subrange(i + 1, e@.len() as int) =~= e@.skip(i + 1));
            return Some((string_from_chars(&a), string_from_chars(&b)));
        }
        i = i + 1;
    }
    None
}

/// Reads the `(user, password)` pairs of an auth file's text (see
/// [`spec_parse_auth`]).
pub fn parse_auth_text(text: &str) -> (r: Result<Vec<(String, String)>, String>)
    ensures
        auth_result_view(r) == spec_parse_auth(text@),
{
    let t = chars_of(text);
    let lines = split_chars(&t, '\n');
    let ghost pieces = spec_split(text@, '\n');
    let mut entries: Vec<Vec<char>> = Vec::new();
    let mut i: usize = 0;
    while i < lines.len()
        invariant
            i <= lines@.len(),
            lines@.len() == pieces.len(),
            forall|j: int| 0 <= j < lines@.len() ==> #[trigger] lines@[j]@ == pieces[j],
            entries@.len() == spec_trimmed_nonempty(pieces.take(i as int)).len(),
            forall|j: int|
                0 <= j < entries@.len() ==> #[trigger] entries@[j]@ == spec_trimmed_nonempty(pieces.take(i as int))[j],
        decreases lines@.len() - i,
    {
        assert(pieces.take(i + 1).drop_last() =~= pieces.take(i as int));
        assert(pieces.take(i + 1).last() == lines@[i as int]@);
        let e = trim_chars(&lines[i]);
        if e.len() > 0 {
            entries.push(e);
        }
        i = i + 1;
    }
    assert(pieces.take(lines@.len() as int) =~= pieces);
    let ghost es = spec_auth_entries(text@);
    assert(t@ == text@);
    assert(entries@.len() == es.len());
    let mut users: Vec<(String, String)> = Vec::new();
    assert(es.take(0) =~= Seq::<Seq<char>>::empty());
    assert(crate::json::spec_pairs_view(users@) =~= Seq::<(Seq<char>, Seq<char>)>::empty());
    let mut k: usize = 0;
    while k < entries.len()
        invariant
            k <= entries@.len(),
            es == spec_auth_entries(text@),
            entries@.len() == es.len(),
            forall|j: int| 0 <= j < entries@.len() ==> #[trigger] entries@[j]@ == es[j],
            spec_auth_pairs(es.take(k as int)) == Ok::<Seq<(Seq<char>, Seq<char>)>, Seq<char>>(
                crate::json::spec_pairs_view(users@),
            ),
        decreases entries@.len() - k,
    {
        assert(es.take(k + 1).drop_last() =~= es.take(k as int));
        assert(es.take(k + 1).last() == entries@[k as int]@);
        proof {
            lemma_pairs_err_stays(es, k + 1);
        }
        match split_once_char(&entries[k], ':') {
            Some(p) => {
                let ghost pv = (p.0@, p.1@);
                assert(spec_split_colon(es.take(k + 1).last()) == Some(pv));
                let ghost before = users@;
                users.push(p);
                assert(crate::json::spec_pairs_view(users@) =~= crate::json::spec_pairs_view(before).push(pv));
            },
            None => {
                let mut message = String::from_str("The auth '");
                let entry = string_from_chars(&entries[k]);
                push_str(&mut message, entry.as_str());
                push_str(&mut message, "' does not contain a username and password component, skipping");
                assert(es.take(es.len() as int) =~= es);
                return Err(message);
            },
        }
        k = k + 1;
    }
    assert(es.take(es.len() as int) =~= es);
    Ok(users)
}

/// Once the pairs of a prefix fail, those of every longer prefix fail the same way.
proof fn lemma_pairs_err_stays(es: Seq<Seq<char>>, n: int)
    requires
        0 <= n <= es.len(),
    ensures
        forall|k: int| n <= k <= es.len() && spec_auth_pairs(es.take(n)) is Err ==> spec_auth_pairs(
            #[trigger] es.take(k),
        ) == spec_auth_pairs(es.take(n)),
    decreases es.len() - n,
{
    if n < es.len() {
        lemma_pairs_err_stays(es, n + 1);
        assert(es.take(n + 1).drop_last() =~= es.take(n));
    }
}

} // verus!
