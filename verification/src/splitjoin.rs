//! Long `x-bare-headers` values split over `x-bare-headers-0`,
//! `x-bare-headers-1`, … (Bare versions 2 and 3), and joined back.
use vstd::prelude::*;
use vstd::set_lib::{lemma_int_range, lemma_len_subset, lemma_map_size, set_int_range};
use vstd::string::{StringExecFns, StringSliceAdditionalSpecFns};
use crate::consts::HEADER_BYTES_LIMIT;
use crate::err::{bare_error, BareError, BareErrorCode, ErrorView};
use crate::headers::{
    entries_view, lemma_find_bounds, spec_header_find, spec_header_get, spec_header_value_ok,
    is_header_text, spec_visible_ascii, str_bytes, value_text, HeaderList, HeaderSeq,
};
use crate::text::{decimal_string, lemma_decimal_injective, push_str, spec_decimal};

verus! {

/// The name of the `i`-th piece: `x-bare-headers-<i>`.
pub open spec fn spec_piece_name(i: nat) -> Seq<char> {
    "x-bare-headers-"@ + spec_decimal(i)
}

/// The name of the `i`-th piece.
pub fn piece_name(i: u64) -> (r: String)
    ensures
        r@ == spec_piece_name(i as nat),
{
    let mut r = String::from_str("x-bare-headers-");
    let d = decimal_string(i);
    push_str(&mut r, d.as_str());
    r
}

proof fn lemma_piece_name_injective(a: nat, b: nat)
    requires
        spec_piece_name(a) == spec_piece_name(b),
    ensures
        a == b,
{
    let p = "x-bare-headers-"@;
    assert(spec_piece_name(a).skip(p.len() as int) =~= spec_decimal(a));
    assert(spec_piece_name(b).skip(p.len() as int) =~= spec_decimal(b));
    lemma_decimal_injective(a, b);
}

/// The pieces `0 .. k` are all present.
pub open spec fn spec_pieces_present(m: HeaderSeq, k: nat) -> bool {
    forall|j: nat| j < k ==> (#[trigger] spec_header_find(m, spec_piece_name(j))) is Some
}

/// A header map holds fewer distinct pieces than entries.
proof fn lemma_pieces_bound(m: HeaderSeq, k: nat)
    requires
        spec_pieces_present(m, k),
    ensures
        k <= m.len(),
{
    let f = |j: int| spec_header_find(m, spec_piece_name(j as nat))->Some_0;
    let x = set_int_range(0, k as int);
    let y = x.map(f);
    lemma_int_range(0, k as int);
    lemma_int_range(0, m.len() as int);
    assert forall|a: int, b: int| x.contains(a) && x.contains(b) && #[trigger] f(a) == #[trigger] f(b) implies a == b by {
        assert(spec_header_find(m, spec_piece_name(a as nat)) is Some);
        assert(spec_header_find(m, spec_piece_name(b as nat)) is Some);
        lemma_find_bounds(m, spec_piece_name(a as nat));
        lemma_find_bounds(m, spec_piece_name(b as nat));
        lemma_piece_name_injective(a as nat, b as nat);
    }
    lemma_map_size(x, y, f);
    assert forall|p: int| y.contains(p) implies set_int_range(0, m.len() as int).contains(p) by {
        let j = choose|j: int| x.contains(j) && f(j) == p;
        assert(spec_header_find(m, spec_piece_name(j as nat)) is Some);
        lemma_find_bounds(m, spec_piece_name(j as nat));
    }
    lemma_len_subset(y, set_int_range(0, m.len() as int));
}

/// The number of pieces present without a gap from `x-bare-headers-0` on.
pub open spec fn spec_piece_count(m: HeaderSeq) -> nat {
    choose|k: nat| spec_pieces_present(m, k) && spec_header_find(m, spec_piece_name(k)) is None
}

proof fn lemma_piece_count(m: HeaderSeq)
    ensures
        spec_pieces_present(m, spec_piece_count(m)),
        spec_header_find(m, spec_piece_name(spec_piece_count(m))) is None,
        spec_piece_count(m) <= m.len(),
{
    let k = choose_count(m, 0);
    assert(spec_pieces_present(m, k) && spec_header_find(m, spec_piece_name(k)) is None);
    lemma_pieces_bound(m, spec_piece_count(m));
}

proof fn choose_count(m: HeaderSeq, i: nat) -> (k: nat)
    requires
        spec_pieces_present(m, i),
    ensures
        spec_pieces_present(m, k),
        spec_header_find(m, spec_piece_name(k)) is None,
    decreases m.len() + 1 - i,
{
    lemma_pieces_bound(m, i);
    if spec_header_find(m, spec_piece_name(i)) is None {
        i
    } else {
        assert(spec_pieces_present(m, i + 1));
        lemma_pieces_bound(m, i + 1);
        choose_count(m, i + 1)
    }
}

/// The value of the `j`-th piece.
pub open spec fn spec_piece(m: HeaderSeq, j: nat) -> Seq<u8> {
    spec_header_get(m, spec_piece_name(j))->Some_0
}

/// The piece does not begin with `;`.
pub open spec fn spec_is_bad_piece(m: HeaderSeq, j: nat) -> bool {
    spec_piece(m, j)[0] != 59
}

/// The position of the first piece that does not begin with `;`.
pub open spec fn spec_bad_piece(m: HeaderSeq) -> Option<nat> {
    if exists|j: nat|
        j < spec_piece_count(m) && #[trigger] spec_is_bad_piece(m, j) && forall|i: nat|
            i < j ==> !#[trigger] spec_is_bad_piece(m, i) {
        Some(
            choose|j: nat|
                j < spec_piece_count(m) && #[trigger] spec_is_bad_piece(m, j) && forall|i: nat|
                    i < j ==> !#[trigger] spec_is_bad_piece(m, i),
        )
    } else {
        None
    }
}

/// The pieces that are read before the result is known: up to the first bad
/// one, or all of them.
pub open spec fn spec_pieces_read(m: HeaderSeq) -> nat {
    match spec_bad_piece(m) {
        Some(j) => j + 1,
        None => spec_piece_count(m),
    }
}

/// Joining does not panic: every piece read is non-empty text.
pub open spec fn spec_join_ok(m: HeaderSeq) -> bool {
    forall|j: nat|
        j < spec_pieces_read(m) ==> spec_visible_ascii(#[trigger] spec_piece(m, j)) && spec_piece(
            m,
            j,
        ).len() > 0
}

/// The first `k` pieces without their leading `;`, one after the other.
pub open spec fn spec_joined(m: HeaderSeq, k: nat) -> Seq<u8>
    decreases k,
{
    if k == 0 {
        Seq::<u8>::empty()
    } else {
        spec_joined(m, (k - 1) as nat) + spec_piece(m, (k - 1) as nat).drop_first()
    }
}

/// What joining the pieces gives: their contents one after the other, the
/// single header they were cut from, or the error for the first piece that
/// does not begin with `;`.
pub open spec fn spec_join_x_bare_headers(m: HeaderSeq) -> Result<Seq<u8>, ErrorView> {
    match spec_bad_piece(m) {
        Some(j) => Err(
            (
                BareErrorCode::INVALID_BARE_HEADER,
                "request.headers."@ + spec_piece_name(j),
                "Value didn't begin with semi-colon."@,
            ),
        ),
        None => Ok(spec_joined(m, spec_piece_count(m))),
    }
}

proof fn lemma_count_is(m: HeaderSeq, k: nat)
    requires
        spec_pieces_present(m, k),
        spec_header_find(m, spec_piece_name(k)) is None,
    ensures
        spec_piece_count(m) == k,
{
    lemma_piece_count(m);
    let c = spec_piece_count(m);
    if c < k {
        assert(spec_header_find(m, spec_piece_name(c)) is Some);
    } else if c > k {
        assert(spec_header_find(m, spec_piece_name(k)) is Some);
    }
}

proof fn lemma_count_above(m: HeaderSeq, k: nat)
    requires
        spec_pieces_present(m, k),
    ensures
        k <= spec_piece_count(m),
{
    lemma_piece_count(m);
    let c = spec_piece_count(m);
    if c < k {
        assert(spec_header_find(m, spec_piece_name(c)) is Some);
    }
}

proof fn lemma_bad_is(m: HeaderSeq, i: nat)
    requires
        i < spec_piece_count(m),
        spec_is_bad_piece(m, i),
        forall|j: nat| j < i ==> !#[trigger] spec_is_bad_piece(m, j),
    ensures
        spec_bad_piece(m) == Some(i),
{
    assert(i < spec_piece_count(m) && spec_is_bad_piece(m, i));
    let c = choose|j: nat|
        j < spec_piece_count(m) && #[trigger] spec_is_bad_piece(m, j) && forall|i2: nat|
            i2 < j ==> !#[trigger] spec_is_bad_piece(m, i2);
    assert(i < spec_piece_count(m) && spec_is_bad_piece(m, i) && forall|i2: nat|
        i2 < i ==> !#[trigger] spec_is_bad_piece(m, i2));
    if c < i {
        assert(!spec_is_bad_piece(m, c));
    } else if c > i {
        assert(!spec_is_bad_piece(m, i));
    }
}

proof fn lemma_bad_none(m: HeaderSeq)
    requires
        forall|j: nat| j < spec_piece_count(m) ==> !#[trigger] spec_is_bad_piece(m, j),
    ensures
        spec_bad_piece(m) is None,
{
}

proof fn lemma_bad_after(m: HeaderSeq, i: nat)
    requires
        forall|j: nat| j < i ==> !#[trigger] spec_is_bad_piece(m, j),
    ensures
        spec_bad_piece(m) matches Some(b) ==> b >= i,
{
    if let Some(b) = spec_bad_piece(m) {
        if b < i {
            assert(!spec_is_bad_piece(m, b));
        }
    }
}

pub open spec fn bytes_result_view(r: Result<Vec<u8>, BareError>) -> Result<Seq<u8>, ErrorView> {
    match r {
        Ok(v) => Ok(v@),
        Err(e) => Err(e@),
    }
}

/// Turns `x-bare-headers-0`, `x-bare-headers-1`, … back into the one
/// header they were cut from: their contents, each without its leading `;`,
/// one after the other.
pub fn join_x_bare_headers(headers: &HeaderList) -> (r: Result<Vec<u8>, BareError>)
    requires
        spec_join_ok(headers@),
    ensures
        bytes_result_view(r) == spec_join_x_bare_headers(headers@),
{
    match join_x_bare_headers_checked(headers) {
        Some(r) => r,
        None => unreached(),
    }
}

/// [`join_x_bare_headers`] for any headers: `None` exactly where a piece
/// that would be read is empty or not text (where the join cannot read it).
pub fn join_x_bare_headers_checked(headers: &HeaderList) -> (r: Option<Result<Vec<u8>, BareError>>)
    ensures
        match r {
            Some(res) => spec_join_ok(headers@) && bytes_result_view(res) == spec_join_x_bare_headers(headers@),
            None => !spec_join_ok(headers@),
        },
{
    let ghost m = headers@;
    let mut i: usize = 0;
    let mut joined: Vec<u8> = Vec::new();
    loop
        invariant
            m == headers@,
            spec_pieces_present(m, i as nat),
            i <= m.len(),
            forall|j: nat| j < i ==> !#[trigger] spec_is_bad_piece(m, j),
            forall|j: nat| j < i ==> spec_visible_ascii(#[trigger] spec_piece(m, j)) && spec_piece(m, j).len() > 0,
            joined@ == spec_joined(m, i as nat),
        decreases m.len() - i,
    {
        let name = piece_name(i as u64);
        match headers.get(name.as_str()) {
            None => {
                proof {
                    lemma_find_bounds(m, name@);
                    lemma_count_is(m, i as nat);
                    lemma_bad_none(m);
                }
                return Some(Ok(joined));
            },
            Some(value) => {
                proof {
                    lemma_find_bounds(m, name@);
                    assert(spec_pieces_present(m, (i + 1) as nat));
                    lemma_pieces_bound(m, (i + 1) as nat);
                    lemma_count_above(m, (i + 1) as nat);
                    lemma_bad_after(m, i as nat);
                    assert(spec_piece(m, i as nat) == value@);
                }
                if !is_header_text(value) || value.len() == 0 {
                    proof {
                        assert(spec_pieces_read(m) > i);
                        assert(!(spec_visible_ascii(spec_piece(m, i as nat)) && spec_piece(m, i as nat).len() > 0));
                    }
                    return None;
                }
                if value[0] != 59u8 {
                    proof {
                        lemma_bad_is(m, i as nat);
                        assert forall|j: nat| j < spec_pieces_read(m) implies spec_visible_ascii(#[trigger] spec_piece(m, j))
                            && spec_piece(m, j).len() > 0 by {
                            assert(j <= i);
                        }
                    }
                    let mut id = String::from_str("request.headers.");
                    push_str(&mut id, name.as_str());
                    return Some(Err(BareError {
                        code: BareErrorCode::INVALID_BARE_HEADER,
                        id,
                        message: String::from_str("Value didn't begin with semi-colon."),
                    }));
                }
                assert(i + 1 <= headers.entries@.len());
                let ghost before = joined@;
                let mut p: usize = 1;
                while p < value.len()
                    invariant
                        1 <= p <= value@.len(),
                        joined@ == before + value@.subrange(1, p as int),
                    decreases value@.len() - p,
                {
                    joined.push(value[p]);
                    p = p + 1;
                }
                assert(value@.subrange(1, value@.len() as int) =~= value@.drop_first());
                assert(joined@ =~= spec_joined(m, (i + 1) as nat));
                let n = headers.entries.len();
                assert(i + 1 <= n);
                i = i + 1;
            },
        }
    }
}

/// The pieces of a long value from the `i`-th on: each at most
/// `HEADER_BYTES_LIMIT` bytes of it, behind a `;`.
pub open spec fn spec_chunks_from(b: Seq<u8>, i: nat) -> HeaderSeq
    decreases b.len(),
{
    if b.len() == 0 {
        Seq::<(Seq<char>, Seq<u8>)>::empty()
    } else if b.len() <= HEADER_BYTES_LIMIT {
        seq![(spec_piece_name(i), seq![59u8] + b)]
    } else {
        seq![(spec_piece_name(i), seq![59u8] + b.take(HEADER_BYTES_LIMIT as int))]
            + spec_chunks_from(b.skip(HEADER_BYTES_LIMIT as int), i + 1)
    }
}

/// The pieces `x-bare-headers-<i>` of a value longer than
/// `HEADER_BYTES_LIMIT` bytes; `None` for a value short enough to send whole.
pub open spec fn spec_split_x_bare_headers(b: Seq<u8>) -> Option<HeaderSeq> {
    if b.len() <= HEADER_BYTES_LIMIT {
        None
    } else {
        Some(spec_chunks_from(b, 0))
    }
}

/// Splits a value longer than `HEADER_BYTES_LIMIT` bytes into pieces of at
/// most that many bytes, each behind a `;`, named `x-bare-headers-0`,
/// `x-bare-headers-1`, …; `None` where the value is short enough.
pub fn try_split_x_bare_headers_str(x_bare_headers: &str) -> (r: Option<HeaderList>)
    requires
        spec_header_value_ok(x_bare_headers.spec_bytes()),
    ensures
        match r {
            Some(h) => spec_split_x_bare_headers(x_bare_headers.spec_bytes()) == Some(h@),
            None => spec_split_x_bare_headers(x_bare_headers.spec_bytes()) is None,
        },
{
    let bytes = str_bytes(x_bare_headers);
    if bytes.len() <= HEADER_BYTES_LIMIT {
        return None;
    }
    let mut entries: Vec<(String, Vec<u8>)> = Vec::new();
    let mut start: usize = 0;
    let mut index: u64 = 0;
    assert(bytes@.skip(0) =~= bytes@);
    assert(entries_view(entries@) + spec_chunks_from(bytes@, 0) =~= spec_chunks_from(bytes@, 0));
    while start < bytes.len()
        invariant
            start <= bytes@.len(),
            index <= start,
            entries_view(entries@) + spec_chunks_from(bytes@.skip(start as int), index as nat)
                == spec_chunks_from(bytes@, 0),
        decreases bytes@.len() - start,
    {
        let end = if bytes.len() - start <= HEADER_BYTES_LIMIT {
            bytes.len()
        } else {
            start + HEADER_BYTES_LIMIT
        };
        let mut value: Vec<u8> = Vec::new();
        value.push(59u8);
        let mut p = start;
        while p < end
            invariant
                start <= p <= end <= bytes@.len(),
                value@ == seq![59u8] + bytes@.subrange(start as int, p as int),
            decreases end - p,
        {
            value.push(bytes[p]);
            assert(bytes@.subrange(start as int, p + 1) =~= bytes@.subrange(start as int, p as int).push(bytes@[p as int]));
            p = p + 1;
        }
        let ghost rest = bytes@.skip(start as int);
        let ghost before = entries_view(entries@);
        let name = piece_name(index);
        entries.push((name, value));
        proof {
            assert(entries_view(entries@) =~= before.push((spec_piece_name(index as nat), value@)));
            if rest.len() <= HEADER_BYTES_LIMIT {
                assert(bytes@.subrange(start as int, end as int) =~= rest);
                assert(bytes@.skip(end as int) =~= Seq::<u8>::empty());
            } else {
                assert(bytes@.subrange(start as int, end as int) =~= rest.take(HEADER_BYTES_LIMIT as int));
                assert(rest.skip(HEADER_BYTES_LIMIT as int) =~= bytes@.skip(end as int));
            }
            assert(entries_view(entries@) + spec_chunks_from(bytes@.skip(end as int), (index + 1) as nat)
                =~= before + spec_chunks_from(rest, index as nat));
        }
        start = end;
        index = index + 1;
    }
    assert(bytes@.skip(start as int) =~= Seq::<u8>::empty());
    assert(entries_view(entries@) =~= spec_chunks_from(bytes@, 0));
    Some(HeaderList { entries })
}

/// The pieces a long value is cut into, in order, each at most
/// `HEADER_BYTES_LIMIT` bytes (for a non-empty value).
pub open spec fn spec_chunk_seq(b: Seq<u8>) -> Seq<Seq<u8>>
    decreases b.len(),
{
    if b.len() <= HEADER_BYTES_LIMIT {
        seq![b]
    } else {
        seq![b.take(HEADER_BYTES_LIMIT as int)] + spec_chunk_seq(b.skip(HEADER_BYTES_LIMIT as int))
    }
}

/// Texts written one after the other.
pub open spec fn spec_concat(s: Seq<Seq<u8>>) -> Seq<u8>
    decreases s.len(),
{
    if s.len() == 0 {
        Seq::<u8>::empty()
    } else {
        s[0] + spec_concat(s.drop_first())
    }
}

proof fn lemma_concat_push(s: Seq<Seq<u8>>, x: Seq<u8>)
    ensures
        spec_concat(s.push(x)) == spec_concat(s) + x,
    decreases s.len(),
{
    if s.len() == 0 {
        assert(s.push(x).drop_first() =~= Seq::<Seq<u8>>::empty());
        assert(s.push(x)[0] == x);
        assert(spec_concat(s.push(x).drop_first()) == Seq::<u8>::empty());
        assert(x + Seq::<u8>::empty() =~= x);
        assert(Seq::<u8>::empty() + x =~= x);
    } else {
        assert(s.push(x).drop_first() =~= s.drop_first().push(x));
        assert(s.push(x)[0] == s[0]);
        lemma_concat_push(s.drop_first(), x);
        assert(s[0] + (spec_concat(s.drop_first()) + x) =~= (s[0] + spec_concat(s.drop_first())) + x);
    }
}

/// The shape of the pieces of a non-empty value from the `i`-th on: names
/// counted up from `i`, values the cut pieces behind a `;`.
proof fn lemma_chunks_shape(b: Seq<u8>, i: nat)
    requires
        b.len() > 0,
    ensures
        spec_chunks_from(b, i).len() == spec_chunk_seq(b).len(),
        spec_chunk_seq(b).len() >= 1,
        forall|k: int|
            0 <= k < spec_chunks_from(b, i).len() ==> (#[trigger] spec_chunks_from(b, i)[k]).0 == spec_piece_name(
                (i + k) as nat,
            ) && spec_chunks_from(b, i)[k].1 == seq![59u8] + spec_chunk_seq(b)[k],
    decreases b.len(),
{
    let m = spec_chunks_from(b, i);
    if b.len() > HEADER_BYTES_LIMIT {
        let rest = b.skip(HEADER_BYTES_LIMIT as int);
        lemma_chunks_shape(rest, i + 1);
        let mr = spec_chunks_from(rest, i + 1);
        assert forall|k: int| 0 <= k < m.len() implies (#[trigger] m[k]).0 == spec_piece_name((i + k) as nat)
            && m[k].1 == seq![59u8] + spec_chunk_seq(b)[k] by {
            if k > 0 {
                assert(m[k] == mr[k - 1]);
                assert(spec_chunk_seq(b)[k] == spec_chunk_seq(rest)[k - 1]);
                assert((i + 1 + (k - 1)) as nat == (i + k) as nat);
            }
        }
    }
}

/// The pieces of a text value are text.
proof fn lemma_chunks_visible(b: Seq<u8>)
    requires
        b.len() > 0,
        spec_visible_ascii(b),
    ensures
        forall|k: int| 0 <= k < spec_chunk_seq(b).len() ==> spec_visible_ascii(#[trigger] spec_chunk_seq(b)[k]),
    decreases b.len(),
{
    if b.len() > HEADER_BYTES_LIMIT {
        let rest = b.skip(HEADER_BYTES_LIMIT as int);
        assert(spec_visible_ascii(rest)) by {
            assert forall|i: int| 0 <= i < rest.len() implies ((32 <= #[trigger] rest[i] && rest[i] < 127) || rest[i] == 9) by {
                assert(rest[i] == b[i + HEADER_BYTES_LIMIT]);
            }
        }
        lemma_chunks_visible(rest);
        let cs = spec_chunk_seq(b);
        assert forall|k: int| 0 <= k < cs.len() implies spec_visible_ascii(#[trigger] cs[k]) by {
            if k == 0 {
                let c = b.take(HEADER_BYTES_LIMIT as int);
                assert forall|i: int| 0 <= i < c.len() implies ((32 <= #[trigger] c[i] && c[i] < 127) || c[i] == 9) by {
                    assert(c[i] == b[i]);
                }
            } else {
                assert(cs[k] == spec_chunk_seq(rest)[k - 1]);
            }
        }
    }
}

/// Joining the pieces that splitting a long value gives writes the value's
/// pieces one after the other; where the value is text the join reads every
/// piece without failing.
pub proof fn lemma_join_split(b: Seq<u8>)
    requires
        b.len() > HEADER_BYTES_LIMIT,
    ensures
        spec_join_x_bare_headers(spec_chunks_from(b, 0)) == Ok::<Seq<u8>, ErrorView>(
            spec_concat(spec_chunk_seq(b)),
        ),
        spec_visible_ascii(b) ==> spec_join_ok(spec_chunks_from(b, 0)),
{
    let m = spec_chunks_from(b, 0);
    let cs = spec_chunk_seq(b);
    let n = m.len();
    lemma_chunks_shape(b, 0);
    assert forall|j: int| 0 <= j < n implies spec_header_find(m, spec_piece_name(j as nat)) == Some(j) by {
        assert(m[j].0 == spec_piece_name(j as nat));
        assert forall|k: int| 0 <= k < j implies m[k].0 != spec_piece_name(j as nat) by {
            assert(m[k].0 == spec_piece_name(k as nat));
            if m[k].0 == spec_piece_name(j as nat) {
                lemma_piece_name_injective(k as nat, j as nat);
            }
        }
        crate::headers::lemma_find_is_first(m, spec_piece_name(j as nat), j);
    }
    assert forall|k: int| 0 <= k < n implies m[k].0 != spec_piece_name(n as nat) by {
        assert(m[k].0 == spec_piece_name(k as nat));
        if m[k].0 == spec_piece_name(n as nat) {
            lemma_piece_name_injective(k as nat, n as nat);
        }
    }
    crate::headers::lemma_find_none(m, spec_piece_name(n as nat));
    assert(spec_pieces_present(m, n)) by {
        assert forall|j: nat| j < n implies (#[trigger] spec_header_find(m, spec_piece_name(j))) is Some by {
            assert(spec_header_find(m, spec_piece_name(j as int as nat)) == Some(j as int));
        }
    }
    lemma_count_is(m, n);
    assert forall|j: nat| j < n implies spec_piece(m, j) == seq![59u8] + cs[j as int] by {
        assert(spec_header_find(m, spec_piece_name(j as int as nat)) == Some(j as int));
    }
    assert forall|j: nat| j < spec_piece_count(m) implies !#[trigger] spec_is_bad_piece(m, j) by {
        assert(spec_piece(m, j) == seq![59u8] + cs[j as int]);
    }
    lemma_bad_none(m);
    lemma_joined_is_concat(m, cs, n as nat);
    assert(cs.take(n as int) =~= cs);
    if spec_visible_ascii(b) {
        lemma_chunks_visible(b);
        assert forall|j: nat| j < spec_pieces_read(m) implies spec_visible_ascii(#[trigger] spec_piece(m, j))
            && spec_piece(m, j).len() > 0 by {
            let p = spec_piece(m, j);
            assert(p == seq![59u8] + cs[j as int]);
            assert(spec_visible_ascii(cs[j as int]));
            assert forall|i: int| 0 <= i < p.len() implies ((32 <= #[trigger] p[i] && p[i] < 127) || p[i] == 9) by {
                if i > 0 {
                    assert(p[i] == cs[j as int][i - 1]);
                }
            }
        }
    }
}

proof fn lemma_joined_is_concat(m: HeaderSeq, cs: Seq<Seq<u8>>, k: nat)
    requires
        k <= cs.len(),
        forall|j: nat| j < cs.len() ==> spec_piece(m, j) == seq![59u8] + cs[j as int],
    ensures
        spec_joined(m, k) == spec_concat(cs.take(k as int)),
    decreases k,
{
    if k == 0 {
        assert(cs.take(0) =~= Seq::<Seq<u8>>::empty());
    } else {
        lemma_joined_is_concat(m, cs, (k - 1) as nat);
        assert(cs.take(k as int) =~= cs.take(k - 1).push(cs[k - 1]));
        lemma_concat_push(cs.take(k - 1), cs[k - 1]);
        assert((seq![59u8] + cs[k - 1]).drop_first() =~= cs[k - 1]);
        assert(spec_piece(m, (k - 1) as nat) == seq![59u8] + cs[k - 1]);
    }
}

/// The pieces of a value written one after the other give the value back.
pub proof fn lemma_chunks_concat(b: Seq<u8>)
    requires
        b.len() > 0,
    ensures
        spec_concat(spec_chunk_seq(b)) == b,
    decreases b.len(),
{
    if b.len() > HEADER_BYTES_LIMIT {
        let rest = b.skip(HEADER_BYTES_LIMIT as int);
        lemma_chunks_concat(rest);
        let cs = spec_chunk_seq(b);
        assert(cs.drop_first() =~= spec_chunk_seq(rest));
        assert(cs[0] == b.take(HEADER_BYTES_LIMIT as int));
        assert(b.take(HEADER_BYTES_LIMIT as int) + rest =~= b);
    } else {
        let cs = spec_chunk_seq(b);
        assert(cs.drop_first() =~= Seq::<Seq<u8>>::empty());
        assert(spec_concat(cs.drop_first()) == Seq::<u8>::empty());
        assert(cs[0] == b);
        assert(b + Seq::<u8>::empty() =~= b);
    }
}

} // verus!
