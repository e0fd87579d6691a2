//! Line-oriented reading of Git's text output: `str::lines`, the trimmed
//! non-blank lines, and "is any line exactly this name".

use vstd::prelude::*;
use crate::text::{find_char, first_where, is_char, slice_of, split_once, trim, trim_ws};

verus! {

/// `str::split('\n')` without the empty piece after a final newline.
#[verifier::opaque]
pub open spec fn line_pieces(s: Seq<char>) -> Seq<Seq<char>>
    decreases s.len(),
{
    if s.len() == 0 {
        Seq::empty()
    } else {
        match first_where(s, is_char('\n')) {
            Some(i) => if 0 <= i < s.len() {
                seq![s.take(i)] + line_pieces(s.skip(i + 1))
            } else {
                seq![s]
            },
            None => seq![s],
        }
    }
}

/// A line with its trailing carriage return removed.
pub open spec fn strip_cr(l: Seq<char>) -> Seq<char> {
    if l.len() > 0 && l.last() == '\r' {
        l.drop_last()
    } else {
        l
    }
}

/// `str::lines`.
pub open spec fn lines_of(s: Seq<char>) -> Seq<Seq<char>> {
    line_pieces(s).map_values(|l: Seq<char>| strip_cr(l))
}

pub open spec fn view_lines(v: Seq<Vec<char>>) -> Seq<Seq<char>> {
    v.map_values(|l: Vec<char>| l@)
}

/// The trimmed lines that are not blank, in order.
pub open spec fn nonblank_trimmed(ls: Seq<Seq<char>>) -> Seq<Seq<char>>
    decreases ls.len(),
{
    if ls.len() == 0 {
        Seq::empty()
    } else {
        let p = nonblank_trimmed(ls.drop_last());
        let t = trim(ls.last());
        if t.len() == 0 {
            p
        } else {
            p.push(t)
        }
    }
}

/// `s.lines().map(str::trim).filter(|l| !l.is_empty())`.
pub open spec fn trimmed_lines(s: Seq<char>) -> Seq<Seq<char>> {
    nonblank_trimmed(lines_of(s))
}

/// `s.lines().any(|line| line.trim() == x)`.
pub open spec fn any_line_is(s: Seq<char>, x: Seq<char>) -> bool {
    exists|i: int| 0 <= i < lines_of(s).len() && trim(#[trigger] lines_of(s)[i]) == x
}

proof fn lemma_pieces_step(s: Seq<char>, start: int, j: int)
    requires
        0 <= start,
        start + j < s.len(),
        0 <= j,
        s[start + j] == '\n',
        forall|k: int| start <= k < start + j ==> s[k] != '\n',
    ensures
        line_pieces(s.skip(start)) == seq![s.subrange(start, start + j)] + line_pieces(
            s.skip(start + j + 1),
        ),
{
    let rest = s.skip(start);
    assert forall|k: int| 0 <= k < j implies !is_char('\n')(#[trigger] rest[k]) by {
        assert(rest[k] == s[start + k]);
    }
    crate::text::lemma_first_where(rest, is_char('\n'), j);
    assert(rest.skip(j + 1) =~= s.skip(start + j + 1));
    assert(rest.take(j) =~= s.subrange(start, start + j));
    reveal(line_pieces);
}

proof fn lemma_pieces_last(s: Seq<char>, start: int)
    requires
        0 <= start < s.len(),
        forall|k: int| start <= k < s.len() ==> s[k] != '\n',
    ensures
        line_pieces(s.skip(start)) == seq![s.skip(start)],
{
    let rest = s.skip(start);
    assert(!exists|i: int| 0 <= i < rest.len() && is_char('\n')(rest[i])) by {
        assert forall|i: int| 0 <= i < rest.len() implies !is_char('\n')(#[trigger] rest[i]) by {
            assert(rest[i] == s[start + i]);
        }
    }
    reveal(line_pieces);
}

proof fn lemma_pieces_empty(s: Seq<char>)
    ensures
        line_pieces(s.skip(s.len() as int)) == Seq::<Seq<char>>::empty(),
{
    assert(s.skip(s.len() as int) =~= Seq::<char>::empty());
    reveal(line_pieces);
}

fn strip_cr_vec(v: Vec<char>) -> (r: Vec<char>)
    ensures
        r@ == strip_cr(v@),
{
    let mut v = v;
    if v.len() > 0 && v[v.len() - 1] == '\r' {
        v.pop();
    }
    v
}

pub open spec fn view_pieces(v: Seq<Vec<char>>) -> Seq<Seq<char>> {
    v.map_values(|l: Vec<char>| l@)
}

/// The pieces of `s` between newlines (`line_pieces`), each as a vector.
pub fn pieces_vec(s: &Vec<char>) -> (r: Vec<Vec<char>>)
    ensures
        view_pieces(r@) == line_pieces(s@),
{
    let mut out: Vec<Vec<char>> = Vec::new();
    let mut start: usize = 0;
    proof {
        assert(view_pieces(out@) =~= Seq::<Seq<char>>::empty());
        assert(s@.skip(0) =~= s@);
    }
    while start < s.len()
        invariant
            start <= s.len(),
            view_pieces(out@) + line_pieces(s@.skip(start as int)) == line_pieces(s@),
        decreases s.len() - start,
    {
        let rest = slice_of(s, start, s.len());
        let ghost before = out@;
        match find_char(&rest, '\n') {
            Some(j) => {
                let line = slice_of(&rest, 0, j);
                proof {
                    assert forall|k: int| start <= k < start + j implies s@[k] != '\n' by {
                        assert(rest@[k - start] == s@[k]);
                    }
                    assert(rest@[j as int] == s@[start + j]);
                    lemma_pieces_step(s@, start as int, j as int);
                    assert(line@ =~= s@.subrange(start as int, start + j));
                }
                out.push(line);
                start = start + j + 1;
                proof {
                    assert(view_pieces(out@) =~= view_pieces(before).push(line@));
                }
            },
            None => {
                proof {
                    assert forall|k: int| start <= k < s@.len() implies s@[k] != '\n' by {
                        assert(rest@[k - start] == s@[k]);
                    }
                    lemma_pieces_last(s@, start as int);
                    lemma_pieces_empty(s@);
                    assert(rest@ =~= s@.skip(start as int));
                }
                let n = s.len();
                out.push(rest);
                start = n;
                proof {
                    assert(view_pieces(out@) =~= view_pieces(before).push(rest@));
                }
            },
        }
    }
    proof {
        lemma_pieces_empty(s@);
        assert(view_pieces(out@) + Seq::<Seq<char>>::empty() =~= view_pieces(out@));
    }
    out
}

/// `str::lines`, each line as its own vector.
pub fn lines_vec(s: &Vec<char>) -> (r: Vec<Vec<char>>)
    ensures
        view_lines(r@) == lines_of(s@),
{
    let ps = pieces_vec(s);
    let mut out: Vec<Vec<char>> = Vec::new();
    let mut i: usize = 0;
    while i < ps.len()
        invariant
            i <= ps@.len(),
            view_pieces(ps@) == line_pieces(s@),
            out@.len() == i,
            forall|k: int| 0 <= k < i ==> (#[trigger] out@[k])@ == strip_cr(line_pieces(s@)[k]),
        decreases ps.len() - i,
    {
        let l = slice_of(&ps[i], 0, ps[i].len());
        assert(l@ =~= ps@[i as int]@);
        assert(line_pieces(s@)[i as int] == ps@[i as int]@);
        out.push(strip_cr_vec(l));
        i += 1;
    }
    assert(view_lines(out@) =~= lines_of(s@));
    out
}

/// The trimmed, non-blank lines of `s`.
pub fn trimmed_lines_vec(s: &Vec<char>) -> (r: Vec<Vec<char>>)
    ensures
        view_lines(r@) == trimmed_lines(s@),
{
    let ls = lines_vec(s);
    let ghost all = view_lines(ls@);
    let mut out: Vec<Vec<char>> = Vec::new();
    let mut i: usize = 0;
    proof {
        assert(all.take(0) =~= Seq::<Seq<char>>::empty());
        assert(view_lines(out@) =~= Seq::<Seq<char>>::empty());
    }
    while i < ls.len()
        invariant
            i <= ls.len(),
            all == view_lines(ls@),
            all == lines_of(s@),
            view_lines(out@) == nonblank_trimmed(all.take(i as int)),
        decreases ls.len() - i,
    {
        let t = trim_ws(&ls[i]);
        proof {
            assert(all.take(i + 1).drop_last() =~= all.take(i as int));
            assert(all.take(i + 1).last() == ls@[i as int]@);
        }
        if t.len() > 0 {
            let ghost before = out@;
            out.push(t);
            proof {
                assert(view_lines(out@) =~= view_lines(before).push(trim(all[i as int])));
            }
        }
        i += 1;
    }
    proof {
        assert(all.take(ls.len() as int) =~= all);
    }
    out
}

/// Whether some line of `s`, trimmed, equals `x`.
pub fn any_line_equals(s: &Vec<char>, x: &Vec<char>) -> (r: bool)
    ensures
        r == any_line_is(s@, x@),
{
    let ls = lines_vec(s);
    let mut i: usize = 0;
    while i < ls.len()
        invariant
            i <= ls.len(),
            view_lines(ls@) == lines_of(s@),
            forall|k: int| 0 <= k < i ==> trim(#[trigger] lines_of(s@)[k]) != x@,
        decreases ls.len() - i,
    {
        let t = trim_ws(&ls[i]);
        assert(lines_of(s@)[i as int] == ls@[i as int]@);
        if crate::text::seq_eq(&t, x) {
            return true;
        }
        i += 1;
    }
    false
}

} // verus!
