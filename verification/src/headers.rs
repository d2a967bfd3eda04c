//! A header map as plain values: the `(name, value)` pairs in the order in
//! which `http::HeaderMap` iterates them, names in lower case, values as bytes.
use vstd::prelude::*;
use crate::text::str_eq;
use vstd::string::StringSliceAdditionalSpecFns;

verus! {

pub type HeaderSeq = Seq<(Seq<char>, Seq<u8>)>;

/// The headers of a request or a response.
#[derive(Debug)]
pub struct HeaderList {
    pub entries: Vec<(String, Vec<u8>)>,
}

impl View for HeaderList {
    type V = HeaderSeq;

    open spec fn view(&self) -> HeaderSeq {
        self.entries@.map_values(|e: (String, Vec<u8>)| (e.0@, e.1@))
    }
}

/// The position of the first header with this name.
pub open spec fn spec_header_find(m: HeaderSeq, k: Seq<char>) -> Option<int>
    decreases m.len(),
{
    if m.len() == 0 {
        None
    } else if m[0].0 == k {
        Some(0)
    } else {
        match spec_header_find(m.drop_first(), k) {
            Some(i) => Some(i + 1),
            None => None,
        }
    }
}

/// `HeaderMap::get`: the first value of the header with this name.
pub open spec fn spec_header_get(m: HeaderSeq, k: Seq<char>) -> Option<Seq<u8>> {
    match spec_header_find(m, k) {
        Some(i) => Some(m[i].1),
        None => None,
    }
}

/// The headers without any of the given name.
pub open spec fn spec_header_remove(m: HeaderSeq, k: Seq<char>) -> HeaderSeq
    decreases m.len(),
{
    if m.len() == 0 {
        m
    } else {
        let rest = spec_header_remove(m.drop_last(), k);
        if m.last().0 == k {
            rest
        } else {
            rest.push(m.last())
        }
    }
}

/// `HeaderMap::insert`: a new name goes to the end; a name already present
/// keeps the place of its first occurrence, takes the new value, and its
/// other values are dropped.
pub open spec fn spec_header_insert(m: HeaderSeq, k: Seq<char>, v: Seq<u8>) -> HeaderSeq {
    match spec_header_find(m, k) {
        Some(i) => m.take(i).push((k, v)) + spec_header_remove(m.skip(i + 1), k),
        None => m.push((k, v)),
    }
}

pub proof fn lemma_find_bounds(m: HeaderSeq, k: Seq<char>)
    ensures
        spec_header_find(m, k) matches Some(i) ==> 0 <= i < m.len() && m[i].0 == k && forall|
            j: int,
        | 0 <= j < i ==> m[j].0 != k,
        spec_header_find(m, k) is None ==> forall|j: int| 0 <= j < m.len() ==> m[j].0 != k,
    decreases m.len(),
{
    if m.len() > 0 {
        lemma_find_bounds(m.drop_first(), k);
        if m[0].0 != k {
            assert forall|j: int| 1 <= j < m.len() implies m[j] == m.drop_first()[j - 1] by {}
        }
    }
}

pub proof fn lemma_find_is_first(m: HeaderSeq, k: Seq<char>, i: int)
    requires
        0 <= i < m.len(),
        m[i].0 == k,
        forall|j: int| 0 <= j < i ==> m[j].0 != k,
    ensures
        spec_header_find(m, k) == Some(i),
    decreases i,
{
    if i > 0 {
        lemma_find_is_first(m.drop_first(), k, i - 1);
    }
}

pub proof fn lemma_find_none(m: HeaderSeq, k: Seq<char>)
    requires
        forall|j: int| 0 <= j < m.len() ==> m[j].0 != k,
    ensures
        spec_header_find(m, k) is None,
    decreases m.len(),
{
    if m.len() > 0 {
        lemma_find_none(m.drop_first(), k);
    }
}

impl HeaderList {
    /// An empty header map.
    pub fn new() -> (r: HeaderList)
        ensures
            r@ == Seq::<(Seq<char>, Seq<u8>)>::empty(),
    {
        HeaderList { entries: Vec::new() }
    }

    pub open spec fn spec_get(&self, name: Seq<char>) -> Option<Seq<u8>> {
        spec_header_get(self@, name)
    }

    /// The position of the first header with this name.
    pub fn find(&self, name: &str) -> (r: Option<usize>)
        ensures
            r matches Some(i) ==> spec_header_find(self@, name@) == Some(i as int),
            r is None ==> spec_header_find(self@, name@) is None,
    {
        let mut i: usize = 0;
        while i < self.entries.len()
            invariant
                i <= self.entries.len(),
                forall|j: int| 0 <= j < i ==> self@[j].0 != name@,
            decreases self.entries.len() - i,
        {
            if str_eq(self.entries[i].0.as_str(), name) {
                proof {
                    lemma_find_is_first(self@, name@, i as int);
                }
                return Some(i);
            }
            i = i + 1;
        }
        proof {
            lemma_find_none(self@, name@);
        }
        None
    }

    /// `HeaderMap::get`: the first value of the header with this name.
    pub fn get(&self, name: &str) -> (r: Option<&Vec<u8>>)
        ensures
            r matches Some(v) ==> self.spec_get(name@) == Some(v@),
            r is None ==> self.spec_get(name@) is None,
    {
        proof {
            lemma_find_bounds(self@, name@);
        }
        match self.find(name) {
            Some(i) => Some(&self.entries[i].1),
            None => None,
        }
    }

    /// `HeaderMap::insert`.
    pub fn insert(&mut self, name: String, value: Vec<u8>)
        ensures
            final(self)@ == spec_header_insert(old(self)@, name@, value@),
    {
        let ghost m = self@;
        let ghost k = name@;
        proof {
            lemma_find_bounds(m, k);
        }
        let found = self.find(name.as_str());
        match found {
            None => {
                self.entries.push((name, value));
                assert(self@ =~= m.push((k, value@)));
            },
            Some(i) => {
                let mut out: Vec<(String, Vec<u8>)> = Vec::new();
                let mut j: usize = 0;
                while j < self.entries.len()
                    invariant
                        self@ == m,
                        i < m.len(),
                        spec_header_find(m, k) == Some(i as int),
                        name@ == k,
                        j <= m.len(),
                        j <= i ==> entries_view(out@) == m.take(j as int),
                        j > i ==> entries_view(out@) == m.take(i as int).push((k, value@))
                            + spec_header_remove(m.subrange(i + 1, j as int), k),
                    decreases m.len() - j,
                {
                    let ghost before = entries_view(out@);
                    if j == i {
                        out.push((name.clone(), clone_bytes(&value)));
                        assert(m.subrange(i + 1, j + 1) =~= Seq::<(Seq<char>, Seq<u8>)>::empty());
                        assert(entries_view(out@) =~= before.push((k, value@)));
                    } else if j > i && str_eq(self.entries[j].0.as_str(), name.as_str()) {
                        assert(m.subrange(i + 1, j + 1).drop_last() =~= m.subrange(i + 1, j as int));
                    } else {
                        let e = (self.entries[j].0.clone(), clone_bytes(&self.entries[j].1));
                        out.push(e);
                        assert(entries_view(out@) =~= before.push(m[j as int]));
                        if j > i {
                            assert(m.subrange(i + 1, j + 1).drop_last() =~= m.subrange(i + 1, j as int));
                        } else {
                            assert(m.take(j + 1) =~= m.take(j as int).push(m[j as int]));
                        }
                    }
                    j = j + 1;
                }
                assert(m.subrange(i + 1, m.len() as int) =~= m.skip(i + 1));
                self.entries = out;
            },
        }
    }
}

/// The position of the last header with this name.
pub open spec fn spec_header_find_last(m: HeaderSeq, k: Seq<char>) -> Option<int>
    decreases m.len(),
{
    if m.len() == 0 {
        None
    } else if m.last().0 == k {
        Some(m.len() - 1)
    } else {
        spec_header_find_last(m.drop_last(), k)
    }
}

/// `HeaderMap::append`: the value joins the values already kept under the
/// name, after the last of them; a new name goes to the end.
pub open spec fn spec_header_append(m: HeaderSeq, k: Seq<char>, v: Seq<u8>) -> HeaderSeq {
    match spec_header_find_last(m, k) {
        Some(i) => m.insert(i + 1, (k, v)),
        None => m.push((k, v)),
    }
}

/// `HeaderMap::extend` with the entries of another header map, in the order
/// in which that map hands them out (the values of one name together): the
/// first value of each name replaces what was kept under it, the values that
/// follow it under the same name are appended.
pub open spec fn spec_header_extend(m: HeaderSeq, s: HeaderSeq) -> HeaderSeq
    decreases s.len(),
{
    if s.len() == 0 {
        m
    } else {
        let prev = spec_header_extend(m, s.drop_last());
        let e = s.last();
        if s.len() >= 2 && s[s.len() - 2].0 == e.0 {
            spec_header_append(prev, e.0, e.1)
        } else {
            spec_header_insert(prev, e.0, e.1)
        }
    }
}

pub proof fn lemma_find_last_bounds(m: HeaderSeq, k: Seq<char>)
    ensures
        spec_header_find_last(m, k) matches Some(i) ==> 0 <= i < m.len() && m[i].0 == k,
    decreases m.len(),
{
    if m.len() > 0 && m.last().0 != k {
        lemma_find_last_bounds(m.drop_last(), k);
    }
}

impl HeaderList {
    /// The position of the last header with this name.
    pub fn find_last(&self, name: &str) -> (r: Option<usize>)
        ensures
            r matches Some(i) ==> spec_header_find_last(self@, name@) == Some(i as int),
            r is None ==> spec_header_find_last(self@, name@) is None,
    {
        let mut i: usize = self.entries.len();
        assert(self@.take(i as int) =~= self@);
        while i > 0
            invariant
                i <= self.entries.len(),
                self@.len() == self.entries.len(),
                spec_header_find_last(self@, name@) == spec_header_find_last(self@.take(i as int), name@),
            decreases i,
        {
            let ghost t = self@.take(i as int);
            assert(t.drop_last() =~= self@.take(i - 1));
            if str_eq(self.entries[i - 1].0.as_str(), name) {
                return Some(i - 1);
            }
            i = i - 1;
        }
        None
    }

    /// `HeaderMap::append`.
    pub fn append(&mut self, name: String, value: Vec<u8>)
        ensures
            final(self)@ == spec_header_append(old(self)@, name@, value@),
    {
        let ghost m = self@;
        proof {
            assert(m.take(m.len() as int) =~= m);
            lemma_find_last_bounds(m, name@);
        }
        let ghost e = (name@, value@);
        match self.find_last(name.as_str()) {
            Some(i) => {
                assert(i < self.entries.len());
                self.entries.insert(i + 1, (name, value));
                assert(self@ =~= m.insert(i + 1, e));
            },
            None => {
                self.entries.push((name, value));
                assert(self@ =~= m.push(e));
            },
        }
    }

    /// `HeaderMap::extend` with the entries of another header map.
    pub fn extend(&mut self, other: &HeaderList)
        ensures
            final(self)@ == spec_header_extend(old(self)@, other@),
    {
        let ghost m = self@;
        let mut j: usize = 0;
        assert(other@.take(0) =~= Seq::<(Seq<char>, Seq<u8>)>::empty());
        while j < other.entries.len()
            invariant
                j <= other.entries.len(),
                other@.len() == other.entries.len(),
                self@ == spec_header_extend(m, other@.take(j as int)),
            decreases other.entries.len() - j,
        {
            let ghost t = other@.take(j + 1);
            assert(t.drop_last() =~= other@.take(j as int));
            let name = other.entries[j].0.clone();
            let value = clone_bytes(&other.entries[j].1);
            if j >= 1 && str_eq(other.entries[j - 1].0.as_str(), other.entries[j].0.as_str()) {
                self.append(name, value);
            } else {
                self.insert(name, value);
            }
            j = j + 1;
        }
        assert(other@.take(other@.len() as int) =~= other@);
    }
}

pub open spec fn entries_view(v: Seq<(String, Vec<u8>)>) -> HeaderSeq {
    v.map_values(|e: (String, Vec<u8>)| (e.0@, e.1@))
}

/// A copy of a byte vector.
pub fn clone_bytes(v: &Vec<u8>) -> (r: Vec<u8>)
    ensures
        r@ == v@,
{
    let mut r: Vec<u8> = Vec::new();
    let mut i: usize = 0;
    while i < v.len()
        invariant
            i <= v.len(),
            r@ == v@.take(i as int),
        decreases v.len() - i,
    {
        r.push(v[i]);
        assert(v@.take(i + 1) =~= v@.take(i as int).push(v@[i as int]));
        i = i + 1;
    }
    assert(v@.take(v.len() as int) =~= v@);
    r
}

} // verus!

verus! {

/// A character that may stand in a header name (`tchar` of RFC 9110; the
/// non-zero entries of `HEADER_CHARS` in the `http` crate).
pub open spec fn spec_is_tchar(c: char) -> bool {
    ||| ('0' <= c && c <= '9')
    ||| ('a' <= c && c <= 'z')
    ||| ('A' <= c && c <= 'Z')
    ||| c == '!' || c == '#' || c == '$' || c == '%' || c == '&' || c == '\''
    ||| c == '*' || c == '+' || c == '-' || c == '.' || c == '^' || c == '_'
    ||| c == '`' || c == '|' || c == '~'
}

pub open spec fn spec_ascii_lower(c: char) -> char {
    if 'A' <= c && c <= 'Z' {
        ((c as u32) + 32) as char
    } else {
        c
    }
}

/// `HeaderName::from_str`: a non-empty name of at most 65535 `tchar`s,
/// lower-cased; anything else is refused.
pub open spec fn spec_header_name(s: Seq<char>) -> Option<Seq<char>> {
    if 0 < s.len() <= 65535 && forall|i: int| 0 <= i < s.len() ==> spec_is_tchar(#[trigger] s[i]) {
        Some(s.map_values(|c: char| spec_ascii_lower(c)))
    } else {
        None
    }
}

/// `HeaderName::from_str`, the name returned as its lower case text: the
/// `http` crate accepts a name of 1 to 65535 bytes that all appear in its
/// `HEADER_CHARS` table (digits, letters and ``!#$%&'*+-.^_`|~``) and maps
/// each byte through that table, which lower-cases letters.
#[verifier::external_body]
pub(crate) fn parse_header_name(s: &str) -> (r: Option<String>)
    ensures
        r matches Some(n) ==> spec_header_name(s@) == Some(n@),
        r is None ==> spec_header_name(s@) is None,
{
    match axum::http::HeaderName::from_bytes(s.as_bytes()) {
        Ok(n) => Some(n.as_str().to_string()),
        Err(_) => None,
    }
}

/// The bytes that `HeaderValue` accepts: visible ASCII, space, tab and any
/// byte from 0x80 up (`is_valid` in the `http` crate).
pub open spec fn spec_header_value_ok(b: Seq<u8>) -> bool {
    forall|i: int| 0 <= i < b.len() ==> ((#[trigger] b[i] >= 32 && b[i] != 127) || b[i] == 9)
}

/// The bytes that `HeaderValue::to_str` accepts: visible ASCII, space and tab.
pub open spec fn spec_visible_ascii(b: Seq<u8>) -> bool {
    forall|i: int| 0 <= i < b.len() ==> ((32 <= #[trigger] b[i] && b[i] < 127) || b[i] == 9)
}

pub open spec fn spec_ascii_text(b: Seq<u8>) -> Seq<char> {
    b.map_values(|x: u8| x as char)
}

/// `HeaderValue::to_str` for a value made of visible ASCII.
pub fn value_text(b: &Vec<u8>) -> (s: Vec<char>)
    requires
        spec_visible_ascii(b@),
    ensures
        s@ == spec_ascii_text(b@),
{
    let mut s: Vec<char> = Vec::new();
    let mut i: usize = 0;
    while i < b.len()
        invariant
            i <= b.len(),
            s@ =~= spec_ascii_text(b@.take(i as int)),
        decreases b.len() - i,
    {
        s.push(b[i] as char);
        assert(spec_ascii_text(b@.take(i + 1)) =~= spec_ascii_text(b@.take(i as int)).push(
            b@[i as int] as char,
        ));
        i = i + 1;
    }
    assert(b@.take(b.len() as int) =~= b@);
    s
}

/// Whether every byte is visible ASCII, space or tab (what `to_str` accepts).
pub fn is_header_text(b: &Vec<u8>) -> (r: bool)
    ensures
        r == spec_visible_ascii(b@),
{
    let mut i: usize = 0;
    while i < b.len()
        invariant
            i <= b.len(),
            forall|j: int| 0 <= j < i ==> ((32 <= #[trigger] b@[j] && b@[j] < 127) || b@[j] == 9),
        decreases b.len() - i,
    {
        if !((32 <= b[i] && b[i] < 127) || b[i] == 9) {
            return false;
        }
        i = i + 1;
    }
    true
}

/// Whether `HeaderValue` accepts these bytes.
pub fn is_header_value_ok(b: &Vec<u8>) -> (r: bool)
    ensures
        r == spec_header_value_ok(b@),
{
    let mut i: usize = 0;
    while i < b.len()
        invariant
            i <= b.len(),
            forall|j: int| 0 <= j < i ==> ((#[trigger] b@[j] >= 32 && b@[j] != 127) || b@[j] == 9),
        decreases b.len() - i,
    {
        if !((b[i] >= 32 && b[i] != 127) || b[i] == 9) {
            return false;
        }
        i = i + 1;
    }
    true
}

/// The UTF-8 bytes of a string slice.
pub fn str_bytes(s: &str) -> (r: Vec<u8>)
    ensures
        r@ == s.spec_bytes(),
{
    let b = s.as_bytes();
    let mut r: Vec<u8> = Vec::new();
    let mut i: usize = 0;
    while i < b.len()
        invariant
            i <= b@.len(),
            b@ == s.spec_bytes(),
            r@ =~= b@.take(i as int),
        decreases b@.len() - i,
    {
        r.push(b[i]);
        i = i + 1;
    }
    assert(b@.take(b@.len() as int) =~= b@);
    r
}

} // verus!
