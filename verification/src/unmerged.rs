//! The unmerged index of a conflicted merge, read from
//! `git -c core.quotepath=off ls-files -u -z`: one entry per path with the
//! stages Git kept (base 1, current 2, incoming 3), sorted by path bytes.
//! A malformed record fails the whole read.

use vstd::prelude::*;
use crate::error::{is_error, AppError, ErrorCode, RecoveryAction};
use crate::merge::{lossy_string, merge_failed, utf8_lossy, UnmergedEntry};

verus! {

// ---------------------------------------------------------------------------
// The order of paths
// ---------------------------------------------------------------------------

/// Strict lexicographic order of byte strings, as `<[u8] as Ord>` orders
/// them.
pub open spec fn bytes_lt(a: Seq<u8>, b: Seq<u8>) -> bool
    decreases a.len(),
{
    if a.len() == 0 {
        b.len() > 0
    } else if b.len() == 0 {
        false
    } else if a[0] != b[0] {
        a[0] < b[0]
    } else {
        bytes_lt(a.drop_first(), b.drop_first())
    }
}

pub proof fn lemma_bytes_lt_irreflexive(a: Seq<u8>)
    ensures
        !bytes_lt(a, a),
    decreases a.len(),
{
    if a.len() > 0 {
        lemma_bytes_lt_irreflexive(a.drop_first());
    }
}

pub proof fn lemma_bytes_lt_total(a: Seq<u8>, b: Seq<u8>)
    ensures
        a == b || bytes_lt(a, b) || bytes_lt(b, a),
    decreases a.len(),
{
    if a.len() == 0 && b.len() == 0 {
        assert(a =~= b);
    }
    if a.len() > 0 && b.len() > 0 && a[0] == b[0] {
        lemma_bytes_lt_total(a.drop_first(), b.drop_first());
        if a.drop_first() == b.drop_first() {
            assert(a.drop_first().len() == b.drop_first().len());
            assert(a.len() == b.len());
            assert forall|i: int| 0 <= i < a.len() implies a[i] == b[i] by {
                if i > 0 {
                    assert(a[i] == a.drop_first()[i - 1]);
                    assert(b[i] == b.drop_first()[i - 1]);
                }
            }
            assert(a =~= b);
        }
    }
}

pub proof fn lemma_bytes_lt_transitive(a: Seq<u8>, b: Seq<u8>, c: Seq<u8>)
    requires
        bytes_lt(a, b),
        bytes_lt(b, c),
    ensures
        bytes_lt(a, c),
    decreases a.len(),
{
    if a.len() > 0 && b.len() > 0 && c.len() > 0 && a[0] == b[0] && b[0] == c[0] {
        lemma_bytes_lt_transitive(a.drop_first(), b.drop_first(), c.drop_first());
    }
}

/// `a < b` for byte strings.
pub fn path_lt(a: &[u8], b: &[u8]) -> (r: bool)
    ensures
        r == bytes_lt(a@, b@),
{
    let mut i: usize = 0;
    assert(a@.skip(0) =~= a@);
    assert(b@.skip(0) =~= b@);
    while i < a.len() && i < b.len() && a[i] == b[i]
        invariant
            i <= a@.len(),
            i <= b@.len(),
            bytes_lt(a@, b@) == bytes_lt(a@.skip(i as int), b@.skip(i as int)),
        decreases a.len() - i,
    {
        proof {
            let sa = a@.skip(i as int);
            let sb = b@.skip(i as int);
            assert(sa.drop_first() =~= a@.skip(i + 1));
            assert(sb.drop_first() =~= b@.skip(i + 1));
            assert(sa[0] == sb[0]);
        }
        i += 1;
    }
    if i == a.len() {
        i < b.len()
    } else if i == b.len() {
        false
    } else {
        assert(a@.skip(i as int)[0] == a@[i as int]);
        assert(b@.skip(i as int)[0] == b@[i as int]);
        a[i] < b[i]
    }
}

// ---------------------------------------------------------------------------
// Records
// ---------------------------------------------------------------------------

/// The index of the first `x` in `b`, or `b.len()` when there is none.
pub open spec fn first_byte(b: Seq<u8>, x: u8) -> nat
    decreases b.len(),
{
    if b.len() == 0 {
        0
    } else if b[0] == x {
        0
    } else {
        1 + first_byte(b.drop_first(), x)
    }
}

proof fn lemma_first_byte(b: Seq<u8>, x: u8, i: int)
    requires
        0 <= i <= b.len(),
        forall|k: int| 0 <= k < i ==> b[k] != x,
        i == b.len() || b[i] == x,
    ensures
        first_byte(b, x) == i,
    decreases i,
{
    if i > 0 {
        let t = b.drop_first();
        assert forall|k: int| 0 <= k < i - 1 implies t[k] != x by {
            assert(t[k] == b[k + 1]);
        }
        if i < b.len() {
            assert(t[i - 1] == b[i]);
        }
        lemma_first_byte(t, x, i - 1);
    }
}

pub open spec fn is_digit(c: u8) -> bool {
    48 <= c <= 57
}

/// The decimal value of a string of digits.
pub open spec fn digits_value(d: Seq<u8>) -> nat
    decreases d.len(),
{
    if d.len() == 0 {
        0
    } else {
        digits_value(d.drop_last()) * 10 + (d.last() - 48) as nat
    }
}

pub open spec fn all_digits(d: Seq<u8>) -> bool {
    forall|i: int| 0 <= i < d.len() ==> is_digit(#[trigger] d[i])
}

/// The stage field as `str::parse::<usize>` reads it (an optional `+`,
/// then decimal digits), when that is 1, 2 or 3.
pub open spec fn stage_of(f: Seq<u8>) -> Option<int> {
    let d = if f.len() > 0 && f[0] == 43 {
        f.drop_first()
    } else {
        f
    };
    if d.len() > 0 && all_digits(d) && 1 <= digits_value(d) <= 3 {
        Some(digits_value(d) as int)
    } else {
        None
    }
}

/// One record, `<mode> SP <oid> SP <stage> TAB <path>`, as
/// `(path, stage, mode, oid)`; `None` when it is malformed.
pub open spec fn record_of(rec: Seq<u8>) -> Option<(Seq<u8>, int, Seq<u8>, Seq<u8>)> {
    let t = first_byte(rec, 9) as int;
    let meta = rec.take(t);
    let a = first_byte(meta, 32) as int;
    let rest = meta.skip(a + 1);
    let c = first_byte(rest, 32) as int;
    let stage = rest.skip(c + 1);
    if t >= rec.len() || a >= meta.len() || c >= rest.len() || first_byte(stage, 32) < stage.len() {
        None
    } else {
        match stage_of(stage) {
            Some(s) => Some((rec.skip(t + 1), s, meta.take(a), rest.take(c))),
            None => None,
        }
    }
}

/// The records of the NUL-separated output, empty ones skipped; `None`
/// when any record is malformed.
pub open spec fn records_of(b: Seq<u8>) -> Option<Seq<(Seq<u8>, int, Seq<u8>, Seq<u8>)>>
    decreases b.len(),
{
    if b.len() == 0 {
        Some(Seq::empty())
    } else {
        let z = first_byte(b, 0) as int;
        let rest = if z < b.len() {
            b.skip(z + 1)
        } else {
            Seq::<u8>::empty()
        };
        let tail = records_of(rest);
        if z == 0 {
            tail
        } else {
            match record_of(b.take(z)) {
                Some(r) => match tail {
                    Some(rs) => Some(seq![r] + rs),
                    None => None,
                },
                None => None,
            }
        }
    }
}

// ---------------------------------------------------------------------------
// Entries
// ---------------------------------------------------------------------------

/// Some record names path `p`.
pub open spec fn occurs(recs: Seq<(Seq<u8>, int, Seq<u8>, Seq<u8>)>, p: Seq<u8>) -> bool {
    exists|k: int| 0 <= k < recs.len() && (#[trigger] recs[k]).0 == p
}

/// The mode and object id, decoded, of the last record for path `p` and
/// stage `s`.
pub open spec fn last_stage(recs: Seq<(Seq<u8>, int, Seq<u8>, Seq<u8>)>, p: Seq<u8>, s: int) -> Option<
    (Seq<char>, Seq<char>),
>
    decreases recs.len(),
{
    if recs.len() == 0 {
        None
    } else if recs.last().0 == p && recs.last().1 == s {
        Some((utf8_lossy(recs.last().2), utf8_lossy(recs.last().3)))
    } else {
        last_stage(recs.drop_last(), p, s)
    }
}

pub open spec fn stage_view(st: Option<(String, String)>) -> Option<(Seq<char>, Seq<char>)> {
    match st {
        Some(x) => Some((x.0@, x.1@)),
        None => None,
    }
}

pub open spec fn has_path(es: Seq<UnmergedEntry>, p: Seq<u8>) -> bool {
    exists|i: int| 0 <= i < es.len() && (#[trigger] es[i]).path@ == p
}

/// `es` holds one entry per path named by the records, sorted by path;
/// each stage slot holds what the last record for that path and stage
/// said, and slot 0 stays empty.
pub open spec fn entries_of(es: Seq<UnmergedEntry>, recs: Seq<(Seq<u8>, int, Seq<u8>, Seq<u8>)>) -> bool {
    &&& forall|i: int, j: int|
        #![trigger es[i], es[j]]
        0 <= i < j < es.len() ==> bytes_lt(es[i].path@, es[j].path@)
    &&& forall|i: int, s: int|
        0 <= i < es.len() && 0 <= s < 4 ==> stage_view(#[trigger] es[i].stages@[s]) == last_stage(
            recs,
            es[i].path@,
            s,
        )
    &&& forall|i: int| 0 <= i < es.len() ==> occurs(recs, (#[trigger] es[i]).path@)
    &&& forall|p: Seq<u8>| occurs(recs, p) ==> has_path(es, p)
}

pub open spec fn stages_in_range(recs: Seq<(Seq<u8>, int, Seq<u8>, Seq<u8>)>) -> bool {
    forall|k: int| 0 <= k < recs.len() ==> 1 <= (#[trigger] recs[k]).1 <= 3
}

proof fn lemma_absent(recs: Seq<(Seq<u8>, int, Seq<u8>, Seq<u8>)>, p: Seq<u8>, s: int)
    requires
        !occurs(recs, p),
    ensures
        last_stage(recs, p, s) is None,
    decreases recs.len(),
{
    if recs.len() > 0 {
        let k = recs.len() - 1;
        assert(recs[k] == recs.last());
        let d = recs.drop_last();
        assert(!occurs(d, p)) by {
            if occurs(d, p) {
                let w = choose|w: int| 0 <= w < d.len() && (#[trigger] d[w]).0 == p;
                assert(recs[w] == d[w]);
            }
        }
        lemma_absent(d, p, s);
    }
}

proof fn lemma_no_stage_zero(recs: Seq<(Seq<u8>, int, Seq<u8>, Seq<u8>)>, p: Seq<u8>)
    requires
        stages_in_range(recs),
    ensures
        last_stage(recs, p, 0) is None,
    decreases recs.len(),
{
    if recs.len() > 0 {
        let k = recs.len() - 1;
        assert(recs[k] == recs.last());
        let d = recs.drop_last();
        assert forall|w: int| 0 <= w < d.len() implies 1 <= (#[trigger] d[w]).1 <= 3 by {
            assert(recs[w] == d[w]);
        }
        lemma_no_stage_zero(d, p);
    }
}

proof fn lemma_push(
    recs: Seq<(Seq<u8>, int, Seq<u8>, Seq<u8>)>,
    r: (Seq<u8>, int, Seq<u8>, Seq<u8>),
)
    ensures
        forall|p: Seq<u8>, s: int|
            #[trigger] last_stage(recs.push(r), p, s) == if r.0 == p && r.1 == s {
                Some((utf8_lossy(r.2), utf8_lossy(r.3)))
            } else {
                last_stage(recs, p, s)
            },
        forall|p: Seq<u8>| #[trigger] occurs(recs.push(r), p) == (occurs(recs, p) || r.0 == p),
{
    let n = recs.push(r);
    assert(n.drop_last() =~= recs);
    assert(n.last() == r);
    assert forall|p: Seq<u8>| #[trigger] occurs(n, p) == (occurs(recs, p) || r.0 == p) by {
        if occurs(recs, p) {
            let w = choose|w: int| 0 <= w < recs.len() && (#[trigger] recs[w]).0 == p;
            assert(n[w] == recs[w]);
        }
        if r.0 == p {
            assert(n[recs.len() as int] == r);
        }
        if occurs(n, p) && r.0 != p {
            let w = choose|w: int| 0 <= w < n.len() && (#[trigger] n[w]).0 == p;
            assert(w < recs.len());
            assert(n[w] == recs[w]);
        }
    }
}

// ---------------------------------------------------------------------------
// Reading
// ---------------------------------------------------------------------------

/// The first index in `from..to` that holds `x`, or `to`.
fn find_byte(b: &[u8], x: u8, from: usize, to: usize) -> (r: usize)
    requires
        from <= to <= b@.len(),
    ensures
        from <= r <= to,
        forall|k: int| from <= k < r ==> b@[k] != x,
        r == to || b@[r as int] == x,
        first_byte(b@.subrange(from as int, to as int), x) == r - from,
{
    let mut i: usize = from;
    while i < to && b[i] != x
        invariant
            from <= i <= to <= b@.len(),
            forall|k: int| from <= k < i ==> b@[k] != x,
        decreases to - i,
    {
        i += 1;
    }
    proof {
        let sub = b@.subrange(from as int, to as int);
        assert forall|k: int| 0 <= k < i - from implies sub[k] != x by {
            assert(sub[k] == b@[from + k]);
        }
        if i < to {
            assert(sub[i - from] == b@[i as int]);
        }
        lemma_first_byte(sub, x, i - from);
    }
    i
}

/// `stage_of` of `b[lo..hi]`.
fn parse_stage(b: &[u8], lo: usize, hi: usize) -> (r: Option<usize>)
    requires
        lo <= hi <= b@.len(),
    ensures
        match stage_of(b@.subrange(lo as int, hi as int)) {
            Some(s) => r == Some(s as usize),
            None => r is None,
        },
{
    let ghost f = b@.subrange(lo as int, hi as int);
    let mut i: usize = lo;
    if i < hi && b[i] == 43 {
        i += 1;
    }
    assert(b@.subrange(i as int, hi as int) =~= if f.len() > 0 && f[0] == 43 {
        f.drop_first()
    } else {
        f
    });
    if i == hi {
        return None;
    }
    let mut v: usize = 0;
    let mut k: usize = i;
    assert(b@.subrange(i as int, i as int) =~= Seq::<u8>::empty());
    while k < hi
        invariant
            lo <= i <= k <= hi <= b@.len(),
            f == b@.subrange(lo as int, hi as int),
            b@.subrange(i as int, hi as int) == (if f.len() > 0 && f[0] == 43 {
                f.drop_first()
            } else {
                f
            }),
            v <= 4,
            v == if digits_value(b@.subrange(i as int, k as int)) < 4 {
                digits_value(b@.subrange(i as int, k as int))
            } else {
                4
            },
            forall|m: int| i <= m < k ==> is_digit(b@[m]),
        decreases hi - k,
    {
        let c = b[k];
        if c < 48 || c > 57 {
            proof {
                let d = b@.subrange(i as int, hi as int);
                assert(d[k - i] == c);
                assert(!is_digit(d[k - i]));
                let dd = if f.len() > 0 && f[0] == 43 {
                    f.drop_first()
                } else {
                    f
                };
                assert(dd == d);
                assert(!all_digits(dd));
            }
            return None;
        }
        proof {
            let d = b@.subrange(i as int, k + 1);
            assert(d.drop_last() =~= b@.subrange(i as int, k as int));
            assert(d.last() == c);
        }
        let next = v * 10 + (c - 48) as usize;
        v = if next < 4 {
            next
        } else {
            4
        };
        k += 1;
    }
    proof {
        let d = b@.subrange(i as int, hi as int);
        assert forall|m: int| 0 <= m < d.len() implies is_digit(#[trigger] d[m]) by {
            assert(d[m] == b@[i + m]);
        }
    }
    if 1 <= v && v <= 3 {
        Some(v)
    } else {
        None
    }
}

/// One record of `b[lo..hi]`, with its mode and object id decoded.
#[verifier::rlimit(50)]
fn parse_record(b: &[u8], lo: usize, hi: usize) -> (r: Option<(Vec<u8>, usize, String, String)>)
    requires
        lo <= hi <= b@.len(),
    ensures
        match record_of(b@.subrange(lo as int, hi as int)) {
            Some(x) => r matches Some(y) && y.0@ == x.0 && y.1 == x.1 && y.2@ == utf8_lossy(x.2)
                && y.3@ == utf8_lossy(x.3),
            None => r is None,
        },
{
    let ghost rec = b@.subrange(lo as int, hi as int);
    let t = find_byte(b, 9, lo, hi);
    if t == hi {
        return None;
    }
    let ghost meta = rec.take(t - lo);
    assert(meta =~= b@.subrange(lo as int, t as int));
    let a = find_byte(b, 32, lo, t);
    if a == t {
        return None;
    }
    let ghost rest = meta.skip(a - lo + 1);
    assert(rest =~= b@.subrange(a + 1, t as int));
    let c = find_byte(b, 32, a + 1, t);
    if c == t {
        return None;
    }
    let ghost stage = rest.skip(c - (a + 1) + 1);
    assert(stage =~= b@.subrange(c + 1, t as int));
    let d = find_byte(b, 32, c + 1, t);
    if d < t {
        return None;
    }
    let s = match parse_stage(b, c + 1, t) {
        Some(s) => s,
        None => {
            return None;
        },
    };
    let mode = lossy_string(vstd::slice::slice_subrange(b, lo, a));
    let oid = lossy_string(vstd::slice::slice_subrange(b, a + 1, c));
    let path = vstd::slice::slice_to_vec(vstd::slice::slice_subrange(b, t + 1, hi));
    assert(rec.skip(t - lo + 1) =~= b@.subrange(t + 1, hi as int));
    assert(meta.take(a - lo) =~= b@.subrange(lo as int, a as int));
    assert(rest.take(c - (a + 1)) =~= b@.subrange(a + 1, c as int));
    Some((path, s, mode, oid))
}

/// The unmerged entries list each path once: two different positions hold
/// different paths.
pub proof fn lemma_distinct_paths(es: Seq<UnmergedEntry>, recs: Seq<(Seq<u8>, int, Seq<u8>, Seq<u8>)>, i: int, j: int)
    requires
        entries_of(es, recs),
        0 <= i < es.len(),
        0 <= j < es.len(),
        i != j,
    ensures
        es[i].path@ != es[j].path@,
{
    if i < j {
        assert(bytes_lt(es[i].path@, es[j].path@));
    } else {
        assert(bytes_lt(es[j].path@, es[i].path@));
    }
    lemma_bytes_lt_irreflexive(es[i].path@);
}

proof fn lemma_update_ok(
    es: Seq<UnmergedEntry>,
    recs: Seq<(Seq<u8>, int, Seq<u8>, Seq<u8>)>,
    r: (Seq<u8>, int, Seq<u8>, Seq<u8>),
    k: int,
    e: UnmergedEntry,
)
    requires
        entries_of(es, recs),
        0 <= k < es.len(),
        es[k].path@ == r.0,
        e.path@ == r.0,
        forall|s: int|
            0 <= s < 4 ==> stage_view(#[trigger] e.stages@[s]) == if s == r.1 {
                Some((utf8_lossy(r.2), utf8_lossy(r.3)))
            } else {
                stage_view(es[k].stages@[s])
            },
    ensures
        entries_of(es.update(k, e), recs.push(r)),
{
    let n = es.update(k, e);
    let m = recs.push(r);
    lemma_push(recs, r);
    assert forall|i: int, j: int| #![trigger n[i], n[j]] 0 <= i < j < n.len() implies bytes_lt(
        n[i].path@,
        n[j].path@,
    ) by {
        assert(n[i].path@ == es[i].path@);
        assert(n[j].path@ == es[j].path@);
        assert(bytes_lt(es[i].path@, es[j].path@));
    }
    assert forall|i: int, s: int| 0 <= i < n.len() && 0 <= s < 4 implies stage_view(
        #[trigger] n[i].stages@[s],
    ) == last_stage(m, n[i].path@, s) by {
        if i == k {
            assert(stage_view(e.stages@[s]) == if s == r.1 {
                Some((utf8_lossy(r.2), utf8_lossy(r.3)))
            } else {
                stage_view(es[k].stages@[s])
            });
            assert(stage_view(es[k].stages@[s]) == last_stage(recs, es[k].path@, s));
        } else {
            lemma_distinct_paths(es, recs, i, k);
            assert(n[i] == es[i]);
            assert(stage_view(es[i].stages@[s]) == last_stage(recs, es[i].path@, s));
        }
    }
    assert forall|i: int| 0 <= i < n.len() implies occurs(m, (#[trigger] n[i]).path@) by {
        assert(n[i].path@ == es[i].path@);
        assert(occurs(recs, es[i].path@));
    }
    assert forall|q: Seq<u8>| occurs(m, q) implies has_path(n, q) by {
        if q == r.0 {
            assert(n[k].path@ == q);
        } else {
            assert(occurs(recs, q));
            assert(has_path(es, q));
            let w = choose|w: int| 0 <= w < es.len() && (#[trigger] es[w]).path@ == q;
            assert(n[w].path@ == es[w].path@);
        }
    }
}

proof fn lemma_insert_ok(
    es: Seq<UnmergedEntry>,
    recs: Seq<(Seq<u8>, int, Seq<u8>, Seq<u8>)>,
    r: (Seq<u8>, int, Seq<u8>, Seq<u8>),
    k: int,
    e: UnmergedEntry,
)
    requires
        entries_of(es, recs),
        stages_in_range(recs),
        1 <= r.1 <= 3,
        0 <= k <= es.len(),
        forall|j: int| 0 <= j < k ==> bytes_lt((#[trigger] es[j]).path@, r.0),
        k < es.len() ==> bytes_lt(r.0, es[k].path@),
        e.path@ == r.0,
        forall|s: int|
            0 <= s < 4 ==> stage_view(#[trigger] e.stages@[s]) == if s == r.1 {
                Some((utf8_lossy(r.2), utf8_lossy(r.3)))
            } else {
                None::<(Seq<char>, Seq<char>)>
            },
    ensures
        entries_of(es.insert(k, e), recs.push(r)),
{
    let n = es.insert(k, e);
    let m = recs.push(r);
    lemma_push(recs, r);
    // Every old path after position `k` is above the new one.
    assert forall|j: int| k <= j < es.len() implies bytes_lt(r.0, (#[trigger] es[j]).path@) by {
        if j > k {
            assert(bytes_lt(es[k].path@, es[j].path@));
            lemma_bytes_lt_transitive(r.0, es[k].path@, es[j].path@);
        }
    }
    // So the new path is not among the old ones.
    assert forall|j: int| 0 <= j < es.len() implies (#[trigger] es[j]).path@ != r.0 by {
        lemma_bytes_lt_irreflexive(r.0);
    }
    assert(!occurs(recs, r.0)) by {
        if occurs(recs, r.0) {
            assert(has_path(es, r.0));
            let w = choose|w: int| 0 <= w < es.len() && (#[trigger] es[w]).path@ == r.0;
        }
    }
    assert forall|i: int| 0 <= i < n.len() implies (#[trigger] n[i]) == if i < k {
        es[i]
    } else if i == k {
        e
    } else {
        es[i - 1]
    } by {}
    assert forall|i: int, j: int| #![trigger n[i], n[j]] 0 <= i < j < n.len() implies bytes_lt(
        n[i].path@,
        n[j].path@,
    ) by {
        if j < k {
            assert(bytes_lt(es[i].path@, es[j].path@));
        } else if j == k {
        } else if i < k {
            assert(bytes_lt(es[i].path@, r.0));
            assert(bytes_lt(r.0, es[j - 1].path@));
            lemma_bytes_lt_transitive(es[i].path@, r.0, es[j - 1].path@);
        } else if i == k {
        } else {
            assert(bytes_lt(es[i - 1].path@, es[j - 1].path@));
        }
    }
    assert forall|i: int, s: int| 0 <= i < n.len() && 0 <= s < 4 implies stage_view(
        #[trigger] n[i].stages@[s],
    ) == last_stage(m, n[i].path@, s) by {
        if i == k {
            lemma_absent(recs, r.0, s);
        } else {
            let o = if i < k {
                i
            } else {
                i - 1
            };
            assert(n[i] == es[o]);
            assert(stage_view(es[o].stages@[s]) == last_stage(recs, es[o].path@, s));
        }
    }
    assert forall|i: int| 0 <= i < n.len() implies occurs(m, (#[trigger] n[i]).path@) by {
        if i != k {
            let o = if i < k {
                i
            } else {
                i - 1
            };
            assert(n[i] == es[o]);
            assert(occurs(recs, es[o].path@));
        }
    }
    assert forall|q: Seq<u8>| occurs(m, q) implies has_path(n, q) by {
        if q == r.0 {
            assert(n[k].path@ == q);
        } else {
            assert(occurs(recs, q));
            assert(has_path(es, q));
            let w = choose|w: int| 0 <= w < es.len() && (#[trigger] es[w]).path@ == q;
            if w < k {
                assert(n[w] == es[w]);
            } else {
                assert(n[w + 1] == es[w]);
            }
        }
    }
}

/// Fold one record into the sorted entries: a known path takes the stage,
/// a new path is inserted in order.
fn add_record(
    entries: &mut Vec<UnmergedEntry>,
    path: Vec<u8>,
    stage: usize,
    mode: String,
    oid: String,
    Ghost(recs): Ghost<Seq<(Seq<u8>, int, Seq<u8>, Seq<u8>)>>,
    Ghost(r): Ghost<(Seq<u8>, int, Seq<u8>, Seq<u8>)>,
)
    requires
        entries_of(old(entries)@, recs),
        stages_in_range(recs),
        r.0 == path@,
        r.1 == stage as int,
        1 <= stage <= 3,
        mode@ == utf8_lossy(r.2),
        oid@ == utf8_lossy(r.3),
    ensures
        entries_of(final(entries)@, recs.push(r)),
{
    let ghost es = entries@;
    let mut k: usize = 0;
    while k < entries.len() && path_lt(entries[k].path.as_slice(), path.as_slice())
        invariant
            k <= entries@.len(),
            entries@ == es,
            forall|j: int| 0 <= j < k ==> bytes_lt((#[trigger] es[j]).path@, path@),
        decreases entries.len() - k,
    {
        k += 1;
    }
    if k < entries.len() && crate::stage::bytes_eq(entries[k].path.as_slice(), path.as_slice()) {
        let mut e = entries.remove(k);
        let ghost before = e.stages@;
        e.stages[stage] = Some((mode, oid));
        proof {
            assert(e.stages@ == before.update(stage as int, Some((mode, oid))));
            lemma_update_ok(es, recs, r, k as int, e);
            assert(es.remove(k as int).insert(k as int, e) =~= es.update(k as int, e));
        }
        entries.insert(k, e);
    } else {
        proof {
            if k < es.len() {
                lemma_bytes_lt_total(es[k as int].path@, path@);
            }
        }
        let mut stages: [Option<(String, String)>; 4] = [None, None, None, None];
        stages[stage] = Some((mode, oid));
        let e = UnmergedEntry { path, stages };
        proof {
            lemma_insert_ok(es, recs, r, k as int, e);
        }
        entries.insert(k, e);
    }
}

/// The records already read, followed by what the rest of the output
/// gives.
pub open spec fn join_records(
    acc: Seq<(Seq<u8>, int, Seq<u8>, Seq<u8>)>,
    tail: Option<Seq<(Seq<u8>, int, Seq<u8>, Seq<u8>)>>,
) -> Option<Seq<(Seq<u8>, int, Seq<u8>, Seq<u8>)>> {
    match tail {
        Some(rs) => Some(acc + rs),
        None => None,
    }
}

/// The unmerged entries from the output of `git -c core.quotepath=off
/// ls-files -u -z`. A failed command or a malformed record is Git's
/// failure; otherwise there is one entry per path, sorted by path bytes.
pub fn read_unmerged(success: bool, stdout: &[u8]) -> (r: Result<Vec<UnmergedEntry>, AppError>)
    ensures
        !success ==> (r matches Err(e) && is_error(
            e,
            ErrorCode::GIT_ERROR,
            "Git could not finish the merge operation"@,
            RecoveryAction::Refresh,
            true,
        )),
        success ==> match records_of(stdout@) {
            Some(recs) => r matches Ok(es) && entries_of(es@, recs),
            None => r matches Err(e) && is_error(
                e,
                ErrorCode::GIT_ERROR,
                "Git could not finish the merge operation"@,
                RecoveryAction::Refresh,
                true,
            ),
        },
{
    if !success {
        return Err(merge_failed());
    }
    let mut entries: Vec<UnmergedEntry> = Vec::new();
    let mut start: usize = 0;
    let ghost mut acc: Seq<(Seq<u8>, int, Seq<u8>, Seq<u8>)> = Seq::empty();
    assert(stdout@.skip(0) =~= stdout@);
    while start < stdout.len()
        invariant
            start <= stdout@.len(),
            records_of(stdout@) == join_records(acc, records_of(stdout@.skip(start as int))),
            entries_of(entries@, acc),
            stages_in_range(acc),
        decreases stdout.len() - start,
    {
        let j = find_byte(stdout, 0, start, stdout.len());
        let next: usize = if j < stdout.len() {
            j + 1
        } else {
            stdout.len()
        };
        let ghost s = stdout@.skip(start as int);
        proof {
            assert(s =~= stdout@.subrange(start as int, stdout.len() as int));
            let z = j - start;
            let rest = if z < s.len() {
                s.skip(z + 1)
            } else {
                Seq::<u8>::empty()
            };
            assert(rest =~= stdout@.skip(next as int));
            assert(s.take(z) =~= stdout@.subrange(start as int, j as int));
        }
        if j > start {
            match parse_record(stdout, start, j) {
                None => {
                    return Err(merge_failed());
                },
                Some(x) => {
                    let (path, stage, mode, oid) = x;
                    let ghost r = match record_of(stdout@.subrange(start as int, j as int)) {
                        Some(v) => v,
                        None => arbitrary(),
                    };
                    add_record(&mut entries, path, stage, mode, oid, Ghost(acc), Ghost(r));
                    proof {
                        match records_of(stdout@.skip(next as int)) {
                            Some(rs) => {
                                assert(acc + (seq![r] + rs) =~= acc.push(r) + rs);
                            },
                            None => {},
                        }
                        assert forall|k: int| 0 <= k < acc.push(r).len() implies 1 <= (
                        #[trigger] acc.push(r)[k]).1 <= 3 by {
                            if k < acc.len() {
                                assert(acc.push(r)[k] == acc[k]);
                            }
                        }
                        acc = acc.push(r);
                    }
                },
            }
        }
        start = next;
    }
    proof {
        assert(stdout@.skip(stdout.len() as int) =~= Seq::<u8>::empty());
        assert(acc + Seq::<(Seq<u8>, int, Seq<u8>, Seq<u8>)>::empty() =~= acc);
    }
    Ok(entries)
}

} // verus!
