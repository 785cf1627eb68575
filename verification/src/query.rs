//! Byte-level parsing of the loopback redirect request: splitting the
//! request line into tokens, the query string into pairs, and
//! percent-decoding of its components.
//!
//! Everything here is a total function of the input bytes; malformed
//! input yields an empty or partial result, never a panic.

use vstd::prelude::*;

verus! {

/// The two byte classes the parser splits on: `&` between query pairs,
/// and ASCII whitespace between request-line tokens.
#[derive(Clone, Copy, PartialEq, Eq, Structural)]
pub enum Sep {
    Amp,
    Ws,
}

pub open spec fn spec_is_sep(m: Sep, b: u8) -> bool {
    match m {
        Sep::Amp => b == 38,
        Sep::Ws => b == 32 || b == 9 || b == 10 || b == 13,
    }
}

/// Split `s` at every separator byte: `n` separators give `n + 1`
/// segments, empty segments included.
pub open spec fn spec_split(m: Sep, s: Seq<u8>) -> Seq<Seq<u8>>
    decreases s.len(),
{
    if s.len() == 0 {
        seq![Seq::<u8>::empty()]
    } else if spec_is_sep(m, s[0]) {
        seq![Seq::<u8>::empty()] + spec_split(m, s.skip(1))
    } else {
        let rest = spec_split(m, s.skip(1));
        seq![seq![s[0]] + rest[0]] + rest.skip(1)
    }
}

pub proof fn lemma_split_nonempty(m: Sep, s: Seq<u8>)
    ensures
        spec_split(m, s).len() >= 1,
    decreases s.len(),
{
    if s.len() != 0 {
        lemma_split_nonempty(m, s.skip(1));
    }
}

/// The head segment of a split runs to the first separator: if no
/// separator stands before position `k`, and `k` is the length or a
/// separator position, the split is the prefix up to `k` followed by the
/// split of what comes after the separator.
pub proof fn lemma_split_head(m: Sep, s: Seq<u8>, k: int)
    requires
        0 <= k <= s.len(),
        forall|j: int| 0 <= j < k ==> !spec_is_sep(m, s[j]),
        k < s.len() ==> spec_is_sep(m, s[k]),
    ensures
        k < s.len() ==> spec_split(m, s) == seq![s.take(k)] + spec_split(m, s.skip(k + 1)),
        k == s.len() ==> spec_split(m, s) == seq![s],
    decreases k,
{
    lemma_split_nonempty(m, s);
    if k == 0 {
        if s.len() == 0 {
            assert(spec_split(m, s) =~~= seq![s]);
        } else {
            assert(s.take(0) =~= Seq::<u8>::empty());
            assert(s.skip(1) =~= s.skip(1));
            assert(spec_split(m, s) =~~= seq![s.take(0)] + spec_split(m, s.skip(1)));
        }
    } else {
        let t = s.skip(1);
        assert(forall|j: int| 0 <= j < k - 1 ==> t[j] == s[j + 1] && !spec_is_sep(m, t[j]));
        lemma_split_head(m, t, k - 1);
        let rest = spec_split(m, t);
        if k < s.len() {
            assert(rest == seq![t.take(k - 1)] + spec_split(m, t.skip(k)));
            assert(rest[0] == t.take(k - 1));
            assert(seq![s[0]] + t.take(k - 1) =~= s.take(k));
            assert(rest.skip(1) =~~= spec_split(m, t.skip(k)));
            assert(t.skip(k) =~= s.skip(k + 1));
            assert(spec_split(m, s) =~~= seq![s.take(k)] + spec_split(m, s.skip(k + 1)));
        } else {
            assert(rest == seq![t]);
            assert(seq![s[0]] + t =~= s);
            assert(rest.skip(1) =~~= Seq::<Seq<u8>>::empty());
            assert(spec_split(m, s) =~~= seq![s]);
        }
    }
}

/// Index of the first occurrence of `b` in `s`, or `s.len()` if absent.
pub open spec fn spec_find(s: Seq<u8>, b: u8) -> int
    decreases s.len(),
{
    if s.len() == 0 {
        0
    } else if s[0] == b {
        0
    } else {
        1 + spec_find(s.skip(1), b)
    }
}

pub proof fn lemma_find_at(s: Seq<u8>, b: u8, k: int)
    requires
        0 <= k <= s.len(),
        forall|j: int| 0 <= j < k ==> s[j] != b,
        k < s.len() ==> s[k] == b,
    ensures
        spec_find(s, b) == k,
    decreases k,
{
    if k == 0 {
    } else {
        let t = s.skip(1);
        assert(forall|j: int| 0 <= j < k - 1 ==> t[j] == s[j + 1] && t[j] != b);
        lemma_find_at(t, b, k - 1);
    }
}

/// Scan `s` from `from` for the byte `b`; the result is the first
/// position holding `b`, or the length when `b` does not occur there.
pub fn find_from(s: &Vec<u8>, from: usize, b: u8) -> (r: usize)
    requires
        from <= s.len(),
    ensures
        from <= r <= s.len(),
        forall|j: int| from <= j < r ==> s@[j] != b,
        r < s.len() ==> s@[r as int] == b,
        r - from == spec_find(s@.skip(from as int), b),
    decreases s.len() - from,
{
    let mut i: usize = from;
    while i < s.len()
        invariant
            from <= i <= s.len(),
            forall|j: int| from <= j < i ==> s@[j] != b,
        decreases s.len() - i,
    {
        if s[i] == b {
            proof {
                assert(forall|j: int| 0 <= j < i - from ==> s@.skip(from as int)[j] == s@[j + from]);
                lemma_find_at(s@.skip(from as int), b, i - from);
            }
            return i;
        }
        i = i + 1;
    }
    proof {
        assert(forall|j: int| 0 <= j < i - from ==> s@.skip(from as int)[j] == s@[j + from]);
        lemma_find_at(s@.skip(from as int), b, i - from);
    }
    i
}

/// Copy of the byte range `[a, b)` of `s`.
pub fn take_range(s: &Vec<u8>, a: usize, b: usize) -> (r: Vec<u8>)
    requires
        a <= b <= s.len(),
    ensures
        r@ == s@.subrange(a as int, b as int),
{
    let mut out: Vec<u8> = Vec::new();
    let mut i: usize = a;
    while i < b
        invariant
            a <= i <= b <= s.len(),
            out@ =~= s@.subrange(a as int, i as int),
        decreases b - i,
    {
        out.push(s[i]);
        i = i + 1;
    }
    assert(out@ =~= s@.subrange(a as int, b as int));
    out
}

/// Byte-for-byte comparison of two buffers.
pub fn bytes_eq(a: &Vec<u8>, b: &Vec<u8>) -> (r: bool)
    ensures
        r == (a@ == b@),
{
    if a.len() != b.len() {
        return false;
    }
    let mut i: usize = 0;
    while i < a.len()
        invariant
            i <= a.len(),
            a.len() == b.len(),
            forall|j: int| 0 <= j < i ==> a@[j] == b@[j],
        decreases a.len() - i,
    {
        if a[i] != b[i] {
            return false;
        }
        i = i + 1;
    }
    proof {
        assert(a@ =~= b@);
    }
    true
}

pub open spec fn spec_is_hex(b: u8) -> bool {
    (48 <= b <= 57) || (65 <= b <= 70) || (97 <= b <= 102)
}

pub open spec fn spec_hex_val(b: u8) -> u8 {
    if 48 <= b <= 57 {
        (b - 48) as u8
    } else if 65 <= b <= 70 {
        (b - 55) as u8
    } else {
        (b - 87) as u8
    }
}

fn is_hex(b: u8) -> (r: bool)
    ensures
        r == spec_is_hex(b),
{
    (48 <= b && b <= 57) || (65 <= b && b <= 70) || (97 <= b && b <= 102)
}

fn hex_val(b: u8) -> (r: u8)
    requires
        spec_is_hex(b),
    ensures
        r == spec_hex_val(b),
{
    if b <= 57 {
        b - 48
    } else if b <= 70 {
        b - 55
    } else {
        b - 87
    }
}

/// Percent-decoding as the query parser applies it to each component:
/// `%XY` with two hex digits becomes the byte `16 * X + Y`, `+` becomes a
/// space, every other byte stands for itself. A `%` not followed by two
/// hex digits is kept literally.
pub open spec fn spec_pct_decode(s: Seq<u8>) -> Seq<u8>
    decreases s.len(),
{
    if s.len() == 0 {
        Seq::<u8>::empty()
    } else if s[0] == 37 && s.len() >= 3 && spec_is_hex(s[1]) && spec_is_hex(s[2]) {
        seq![(spec_hex_val(s[1]) * 16 + spec_hex_val(s[2])) as u8] + spec_pct_decode(s.skip(3))
    } else if s[0] == 43 {
        seq![32u8] + spec_pct_decode(s.skip(1))
    } else {
        seq![s[0]] + spec_pct_decode(s.skip(1))
    }
}

pub fn pct_decode(s: &Vec<u8>) -> (r: Vec<u8>)
    ensures
        r@ == spec_pct_decode(s@),
{
    let mut out: Vec<u8> = Vec::new();
    let mut i: usize = 0;
    proof {
        assert(s@.skip(0) =~= s@);
    }
    while i < s.len()
        invariant
            i <= s.len(),
            out@ + spec_pct_decode(s@.skip(i as int)) == spec_pct_decode(s@),
        decreases s.len() - i,
    {
        let ghost rem = s@.skip(i as int);
        proof {
            assert(rem[0] == s@[i as int]);
            assert(forall|j: int| 0 <= j < rem.len() ==> rem[j] == s@[j + i]);
        }
        if s[i] == 37 && s.len() - i >= 3 && is_hex(s[i + 1]) && is_hex(s[i + 2]) {
            let d = hex_val(s[i + 1]) * 16 + hex_val(s[i + 2]);
            out.push(d);
            proof {
                assert(rem.skip(3) =~= s@.skip(i + 3));
                assert(spec_pct_decode(rem) == seq![d] + spec_pct_decode(s@.skip(i + 3)));
                assert(out@ + spec_pct_decode(s@.skip(i + 3)) =~= (out@.drop_last()
                    + spec_pct_decode(rem)));
            }
            i = i + 3;
        } else {
            let d: u8 = if s[i] == 43 {
                32
            } else {
                s[i]
            };
            out.push(d);
            proof {
                assert(rem.skip(1) =~= s@.skip(i + 1));
                assert(spec_pct_decode(rem) == seq![d] + spec_pct_decode(s@.skip(i + 1)));
                assert(out@ + spec_pct_decode(s@.skip(i + 1)) =~= (out@.drop_last()
                    + spec_pct_decode(rem)));
            }
            i = i + 1;
        }
    }
    proof {
        assert(s@.skip(s@.len() as int) =~= Seq::<u8>::empty());
        assert(out@ + Seq::<u8>::empty() =~= out@);
    }
    out
}

/// The pair a nonempty query segment stands for: key up to the first
/// `=`, value after it, both percent-decoded; a segment without `=` is a
/// key with an empty value.
pub open spec fn spec_pair_of(seg: Seq<u8>) -> (Seq<u8>, Seq<u8>) {
    let p = spec_find(seg, 61);
    if p < seg.len() {
        (spec_pct_decode(seg.take(p)), spec_pct_decode(seg.skip(p + 1)))
    } else {
        (spec_pct_decode(seg), Seq::<u8>::empty())
    }
}

pub open spec fn spec_pairs_of_segs(segs: Seq<Seq<u8>>) -> Seq<(Seq<u8>, Seq<u8>)>
    decreases segs.len(),
{
    if segs.len() == 0 {
        Seq::<(Seq<u8>, Seq<u8>)>::empty()
    } else {
        (if segs[0].len() > 0 {
            seq![spec_pair_of(segs[0])]
        } else {
            Seq::<(Seq<u8>, Seq<u8>)>::empty()
        }) + spec_pairs_of_segs(segs.skip(1))
    }
}

/// The key/value pairs of a query string, in order of appearance.
pub open spec fn spec_pairs(q: Seq<u8>) -> Seq<(Seq<u8>, Seq<u8>)> {
    spec_pairs_of_segs(spec_split(Sep::Amp, q))
}

/// The value of the first pair whose key is `key`, if any.
pub open spec fn spec_lookup(ps: Seq<(Seq<u8>, Seq<u8>)>, key: Seq<u8>) -> Option<Seq<u8>>
    decreases ps.len(),
{
    if ps.len() == 0 {
        None
    } else if ps[0].0 == key {
        Some(ps[0].1)
    } else {
        spec_lookup(ps.skip(1), key)
    }
}

pub open spec fn spec_query_lookup(q: Seq<u8>, key: Seq<u8>) -> Option<Seq<u8>> {
    spec_lookup(spec_pairs(q), key)
}

/// Look `key` up in the query string `q`: the decoded value of the first
/// pair whose decoded key equals `key`.
pub fn query_lookup(q: &Vec<u8>, key: &Vec<u8>) -> (r: Option<Vec<u8>>)
    ensures
        match r {
            Some(v) => spec_query_lookup(q@, key@) == Some(v@),
            None => spec_query_lookup(q@, key@) is None,
        },
{
    let mut i: usize = 0;
    proof {
        assert(q@.skip(0) =~= q@);
    }
    loop
        invariant
            i <= q.len(),
            spec_query_lookup(q@, key@) == spec_lookup(
                spec_pairs_of_segs(spec_split(Sep::Amp, q@.skip(i as int))),
                key@,
            ),
        decreases q.len() - i,
    {
        if i >= q.len() {
            proof {
                let rem = q@.skip(i as int);
                assert(rem =~= Seq::<u8>::empty());
                let segs = spec_split(Sep::Amp, rem);
                assert(segs == seq![Seq::<u8>::empty()]);
                assert(segs.skip(1) =~~= Seq::<Seq<u8>>::empty());
                assert(spec_pairs_of_segs(Seq::<Seq<u8>>::empty()) =~= Seq::<(
                    Seq<u8>,
                    Seq<u8>,
                )>::empty());
                assert(spec_pairs_of_segs(segs) =~= Seq::<(Seq<u8>, Seq<u8>)>::empty());
            }
            return None;
        }
        let j = find_from(q, i, 38);
        let ghost rem = q@.skip(i as int);
        proof {
            assert(forall|t: int| 0 <= t < rem.len() ==> rem[t] == q@[t + i]);
            assert(forall|t: int| 0 <= t < j - i ==> !spec_is_sep(Sep::Amp, rem[t]));
            if j < q.len() {
                assert(spec_is_sep(Sep::Amp, rem[j - i]));
            }
            lemma_split_head(Sep::Amp, rem, j - i);
        }
        if j > i {
            let seg = take_range(q, i, j);
            proof {
                assert(seg@ =~= rem.take(j - i));
            }
            let p = find_from(&seg, 0, 61);
            proof {
                assert(seg@.skip(0) =~= seg@);
            }
            let keypart = take_range(&seg, 0, p);
            proof {
                assert(keypart@ =~= seg@.take(p as int));
            }
            let dkey = pct_decode(&keypart);
            let ghost segs = spec_split(Sep::Amp, rem);
            let ghost restsegs = if j < q.len() {
                spec_split(Sep::Amp, rem.skip(j - i + 1))
            } else {
                Seq::<Seq<u8>>::empty()
            };
            proof {
                if j < q.len() {
                    assert(segs == seq![rem.take(j - i)] + restsegs);
                    assert(segs[0] == seg@);
                    assert(segs.skip(1) =~~= restsegs);
                } else {
                    assert(segs == seq![rem]);
                    assert(rem.take(j - i) =~= rem);
                    assert(segs[0] == seg@);
                    assert(segs.skip(1) =~~= restsegs);
                }
                assert(spec_pairs_of_segs(segs) == seq![spec_pair_of(seg@)]
                    + spec_pairs_of_segs(restsegs));
                assert(spec_pair_of(seg@).0 == dkey@);
            }
            if bytes_eq(&dkey, key) {
                let val: Vec<u8> = if p < seg.len() {
                    let vpart = take_range(&seg, p + 1, seg.len());
                    proof {
                        assert(vpart@ =~= seg@.skip(p + 1));
                    }
                    pct_decode(&vpart)
                } else {
                    Vec::new()
                };
                proof {
                    let ps = spec_pairs_of_segs(segs);
                    assert(ps[0] == spec_pair_of(seg@));
                    assert(ps[0].0 == key@);
                    assert(spec_lookup(ps, key@) == Some(ps[0].1));
                    assert(ps[0].1 == val@);
                }
                return Some(val);
            }
            proof {
                let ps = spec_pairs_of_segs(segs);
                assert(ps[0] == spec_pair_of(seg@));
                assert(ps[0].0 != key@);
                assert(spec_lookup(ps, key@) == spec_lookup(ps.skip(1), key@));
                assert(ps.skip(1) =~~= spec_pairs_of_segs(restsegs));
            }
            if j == q.len() {
                proof {
                    assert(spec_pairs_of_segs(Seq::<Seq<u8>>::empty()) =~= Seq::<(
                        Seq<u8>,
                        Seq<u8>,
                    )>::empty());
                }
                return None;
            }
            proof {
                assert(rem.skip(j - i + 1) =~= q@.skip(j + 1));
            }
            i = j + 1;
        } else {
            proof {
                let segs = spec_split(Sep::Amp, rem);
                let restsegs = spec_split(Sep::Amp, rem.skip(1));
                assert(spec_is_sep(Sep::Amp, rem[0]));
                assert(segs == seq![Seq::<u8>::empty()] + restsegs);
                assert(segs[0].len() == 0);
                assert(segs.skip(1) =~~= restsegs);
                assert(spec_pairs_of_segs(segs) == spec_pairs_of_segs(restsegs));
                assert(rem.skip(1) =~= q@.skip(i + 1));
            }
            i = i + 1;
        }
    }
}

/// The whitespace-separated tokens of the request line.
pub open spec fn spec_tokens(s: Seq<u8>) -> Seq<Seq<u8>> {
    spec_split(Sep::Ws, s).filter(|t: Seq<u8>| t.len() > 0)
}

proof fn lemma_filter_one(t: Seq<u8>)
    ensures
        (seq![t]).filter(|t: Seq<u8>| t.len() > 0) == (if t.len() > 0 {
            seq![t]
        } else {
            Seq::<Seq<u8>>::empty()
        }),
{
    reveal_with_fuel(Seq::filter, 2);
    assert(seq![t].drop_last() =~~= Seq::<Seq<u8>>::empty());
    if t.len() > 0 {
        assert(Seq::<Seq<u8>>::empty().push(t) =~~= seq![t]);
    }
}

proof fn lemma_tokens_skip_ws(s: Seq<u8>, k: int)
    requires
        0 <= k <= s.len(),
        forall|j: int| 0 <= j < k ==> spec_is_sep(Sep::Ws, s[j]),
    ensures
        spec_tokens(s) == spec_tokens(s.skip(k)),
    decreases k,
{
    if k == 0 {
        assert(s.skip(0) =~= s);
    } else {
        let segs = spec_split(Sep::Ws, s);
        let rest = spec_split(Sep::Ws, s.skip(1));
        assert(segs == seq![Seq::<u8>::empty()] + rest);
        Seq::filter_distributes_over_add(
            seq![Seq::<u8>::empty()],
            rest,
            |t: Seq<u8>| t.len() > 0,
        );
        lemma_filter_one(Seq::<u8>::empty());
        assert(spec_tokens(s) =~~= spec_tokens(s.skip(1)));
        let t = s.skip(1);
        assert(forall|j: int| 0 <= j < k - 1 ==> t[j] == s[j + 1] && spec_is_sep(Sep::Ws, t[j]));
        lemma_tokens_skip_ws(t, k - 1);
        assert(t.skip(k - 1) =~= s.skip(k));
    }
}

proof fn lemma_tokens_head(s: Seq<u8>, k: int)
    requires
        0 < k <= s.len(),
        forall|j: int| 0 <= j < k ==> !spec_is_sep(Sep::Ws, s[j]),
        k < s.len() ==> spec_is_sep(Sep::Ws, s[k]),
    ensures
        k < s.len() ==> spec_tokens(s) == seq![s.take(k)] + spec_tokens(s.skip(k + 1)),
        k == s.len() ==> spec_tokens(s) == seq![s],
{
    lemma_split_head(Sep::Ws, s, k);
    if k < s.len() {
        Seq::filter_distributes_over_add(
            seq![s.take(k)],
            spec_split(Sep::Ws, s.skip(k + 1)),
            |t: Seq<u8>| t.len() > 0,
        );
        lemma_filter_one(s.take(k));
        assert(spec_tokens(s) =~~= seq![s.take(k)] + spec_tokens(s.skip(k + 1)));
    } else {
        lemma_filter_one(s);
        assert(spec_tokens(s) =~~= seq![s]);
    }
}

proof fn lemma_tokens_empty()
    ensures
        spec_tokens(Seq::<u8>::empty()) == Seq::<Seq<u8>>::empty(),
{
    lemma_filter_one(Seq::<u8>::empty());
    assert(spec_split(Sep::Ws, Seq::<u8>::empty()) == seq![Seq::<u8>::empty()]);
}

/// The request target of an HTTP request line: its second
/// whitespace-separated token.
pub open spec fn spec_request_target(line: Seq<u8>) -> Option<Seq<u8>> {
    let toks = spec_tokens(line);
    if toks.len() >= 2 {
        Some(toks[1])
    } else {
        None
    }
}

fn is_ws(b: u8) -> (r: bool)
    ensures
        r == spec_is_sep(Sep::Ws, b),
{
    b == 32 || b == 9 || b == 10 || b == 13
}

fn skip_ws(s: &Vec<u8>, from: usize) -> (r: usize)
    requires
        from <= s.len(),
    ensures
        from <= r <= s.len(),
        forall|j: int| from <= j < r ==> spec_is_sep(Sep::Ws, s@[j]),
        r < s.len() ==> !spec_is_sep(Sep::Ws, s@[r as int]),
    decreases s.len() - from,
{
    let mut i: usize = from;
    while i < s.len()
        invariant
            from <= i <= s.len(),
            forall|j: int| from <= j < i ==> spec_is_sep(Sep::Ws, s@[j]),
        decreases s.len() - i,
    {
        if !is_ws(s[i]) {
            return i;
        }
        i = i + 1;
    }
    i
}

fn scan_token(s: &Vec<u8>, from: usize) -> (r: usize)
    requires
        from <= s.len(),
    ensures
        from <= r <= s.len(),
        forall|j: int| from <= j < r ==> !spec_is_sep(Sep::Ws, s@[j]),
        r < s.len() ==> spec_is_sep(Sep::Ws, s@[r as int]),
    decreases s.len() - from,
{
    let mut i: usize = from;
    while i < s.len()
        invariant
            from <= i <= s.len(),
            forall|j: int| from <= j < i ==> !spec_is_sep(Sep::Ws, s@[j]),
        decreases s.len() - i,
    {
        if is_ws(s[i]) {
            return i;
        }
        i = i + 1;
    }
    i
}

/// The second whitespace-separated token of `line`, if it has one.
pub fn second_token(line: &Vec<u8>) -> (r: Option<Vec<u8>>)
    ensures
        match r {
            Some(v) => spec_request_target(line@) == Some(v@),
            None => spec_request_target(line@) is None,
        },
{
    let a0 = skip_ws(line, 0);
    proof {
        lemma_tokens_skip_ws(line@, a0 as int);
    }
    if a0 == line.len() {
        proof {
            assert(line@.skip(a0 as int) =~= Seq::<u8>::empty());
            lemma_tokens_empty();
        }
        return None;
    }
    let e0 = scan_token(line, a0);
    let ghost s0 = line@.skip(a0 as int);
    proof {
        assert(forall|t: int| 0 <= t < s0.len() ==> s0[t] == line@[t + a0]);
        assert(e0 > a0);
        lemma_tokens_head(s0, e0 - a0);
    }
    if e0 == line.len() {
        proof {
            assert(spec_tokens(line@).len() == 1);
        }
        return None;
    }
    let ghost s1 = s0.skip(e0 - a0 + 1);
    proof {
        assert(s1 =~= line@.skip(e0 + 1));
    }
    let a1 = skip_ws(line, e0 + 1);
    proof {
        let t = line@.skip(e0 + 1);
        assert(forall|j: int| 0 <= j < a1 - (e0 + 1) ==> t[j] == line@[j + e0 + 1]);
        lemma_tokens_skip_ws(t, a1 - (e0 + 1));
        assert(t.skip(a1 - (e0 + 1)) =~= line@.skip(a1 as int));
    }
    if a1 == line.len() {
        proof {
            assert(line@.skip(a1 as int) =~= Seq::<u8>::empty());
            lemma_tokens_empty();
            assert(spec_tokens(line@).len() == 1);
        }
        return None;
    }
    let e1 = scan_token(line, a1);
    let ghost s2 = line@.skip(a1 as int);
    proof {
        assert(forall|t: int| 0 <= t < s2.len() ==> s2[t] == line@[t + a1]);
        assert(e1 > a1);
        lemma_tokens_head(s2, e1 - a1);
    }
    let t2 = take_range(line, a1, e1);
    proof {
        assert(t2@ =~= s2.take(e1 - a1));
        let toks = spec_tokens(line@);
        assert(toks == seq![s0.take(e0 - a0)] + spec_tokens(s2));
        assert(toks.len() >= 2);
        assert(toks[1] == spec_tokens(s2)[0]);
        assert(spec_tokens(s2)[0] == t2@);
    }
    Some(t2)
}

/// The query of a request target: the bytes after the first `?`, cut at
/// the first following `#`; a target without `?` has an empty query.
pub open spec fn spec_query_of_target(t: Seq<u8>) -> Seq<u8> {
    let p = spec_find(t, 63);
    if p < t.len() {
        let rest = t.skip(p + 1);
        rest.take(spec_find(rest, 35))
    } else {
        Seq::<u8>::empty()
    }
}

/// The query string carried by an HTTP request line; empty when the line
/// has no second token or the target has no query.
pub open spec fn spec_query_of_line(line: Seq<u8>) -> Seq<u8> {
    match spec_request_target(line) {
        Some(t) => spec_query_of_target(t),
        None => Seq::<u8>::empty(),
    }
}

/// Extract the query string from a raw HTTP request line.
pub fn query_of_line(line: &Vec<u8>) -> (r: Vec<u8>)
    ensures
        r@ == spec_query_of_line(line@),
{
    match second_token(line) {
        None => Vec::new(),
        Some(t) => {
            let p = find_from(&t, 0, 63);
            proof {
                assert(t@.skip(0) =~= t@);
            }
            if p == t.len() {
                Vec::new()
            } else {
                let rest = take_range(&t, p + 1, t.len());
                proof {
                    assert(rest@ =~= t@.skip(p + 1));
                }
                let h = find_from(&rest, 0, 35);
                proof {
                    assert(rest@.skip(0) =~= rest@);
                }
                take_range(&rest, 0, h)
            }
        },
    }
}

/// Append `src` to `dst`.
pub fn append_bytes(dst: &mut Vec<u8>, src: &Vec<u8>)
    ensures
        final(dst)@ == old(dst)@ + src@,
{
    let mut i: usize = 0;
    proof {
        assert(dst@ =~= dst@ + src@.take(0));
    }
    while i < src.len()
        invariant
            i <= src.len(),
            dst@ == old(dst)@ + src@.take(i as int),
        decreases src.len() - i,
    {
        dst.push(src[i]);
        proof {
            assert(old(dst)@ + src@.take(i + 1) =~= (old(dst)@ + src@.take(i as int)).push(
                src@[i as int],
            ));
        }
        i = i + 1;
    }
    proof {
        assert(src@.take(src@.len() as int) =~= src@);
    }
}

} // verus!
