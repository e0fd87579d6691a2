//! History reads: paged history, search and commit details.
//!
//! Page cursors are opaque `{session}:{offset}` strings over a pinned
//! topology snapshot, so consecutive pages never duplicate or skip rows
//! while refs move.

use vstd::prelude::*;
use crate::text::{occurs_at, string_views, starts_with};
use crate::domain::{CommitFileChange, CommitRow, HistoryPage, RefItem, SearchResults};
use crate::error::{bad_request_str, is_error, AppError, ErrorCode, RecoveryAction, RequestId};
use crate::num::{dec, dec_string, lemma_dec_digits, parse_usize, parse_usize_spec};
use crate::text::{
    chars_of, concat3, contains_seq, contains_vec, has_prefix, last_where, is_char, rsplit_once,
    rsplit_once_char, str_eq, str_exceeds, string_lit, string_of, utf8_len,
};

verus! {

pub const MAX_LIMIT: usize = 200;

pub fn check_limit(limit: usize) -> (r: Result<usize, AppError>)
    ensures
        1 <= limit <= MAX_LIMIT ==> r == Ok::<usize, AppError>(limit),
        !(1 <= limit <= MAX_LIMIT) ==> (r matches Err(e) && is_error(
            e,
            ErrorCode::INVALID_ARGUMENT,
            "limit must be 1..=200"@,
            RecoveryAction::InspectState,
            false,
        )),
{
    if limit == 0 || limit > MAX_LIMIT {
        return Err(bad_request_str("limit must be 1..=200"));
    }
    Ok(limit)
}

// ---------------------------------------------------------------------------
// Cursors
// ---------------------------------------------------------------------------

/// `{session}:{offset}`.
pub open spec fn cursor_text(session_id: Seq<char>, offset: nat) -> Seq<char> {
    session_id + ":"@ + dec(offset)
}

/// The session id before the last `:` (non-empty) and the offset after it.
pub open spec fn cursor_parts(cursor: Seq<char>) -> Option<(Seq<char>, usize)> {
    match rsplit_once(cursor, ':') {
        Some((id, off)) => if id.len() > 0 {
            match parse_usize_spec(off) {
                Some(n) => Some((id, n)),
                None => None,
            }
        } else {
            None
        },
        None => None,
    }
}

pub fn cursor_for(session_id: &str, offset: usize) -> (r: String)
    ensures
        r@ == cursor_text(session_id@, offset as nat),
{
    let n = dec_string(offset as u64);
    concat3(session_id, ":", n.as_str())
}

pub fn parse_cursor(cursor: &str) -> (r: Result<(String, usize), AppError>)
    ensures
        match cursor_parts(cursor@) {
            Some(p) => r matches Ok(q) && q.0@ == p.0 && q.1 == p.1,
            None => r matches Err(e) && is_error(
                e,
                ErrorCode::INVALID_ARGUMENT,
                "Invalid page cursor"@,
                RecoveryAction::InspectState,
                false,
            ),
        },
{
    let v = chars_of(cursor);
    match rsplit_once_char(&v, ':') {
        None => Err(bad_request_str("Invalid page cursor")),
        Some((id, off)) => {
            if id.len() == 0 {
                return Err(bad_request_str("Invalid page cursor"));
            }
            match parse_usize(&off) {
                Some(n) => Ok((string_of(id.as_slice()), n)),
                None => Err(bad_request_str("Invalid page cursor")),
            }
        },
    }
}

/// A cursor handed out for a non-empty session id reads back as the same
/// session and offset.
pub proof fn lemma_cursor_roundtrip(session_id: Seq<char>, offset: usize)
    requires
        session_id.len() > 0,
    ensures
        cursor_parts(cursor_text(session_id, offset as nat)) == Some((session_id, offset)),
{
    let d = dec(offset as nat);
    let c = cursor_text(session_id, offset as nat);
    lemma_dec_digits(offset as nat);
    reveal_strlit(":");
    let k = session_id.len() as int;
    assert(c == session_id + seq![':'] + d);
    assert(c[k] == ':');
    assert forall|j: int| k < j < c.len() implies !is_char(':')(#[trigger] c[j]) by {
        assert(c[j] == d[j - k - 1]);
        assert(crate::text::is_ascii_digit(d[j - k - 1]));
    }
    crate::text::lemma_last_where(c, is_char(':'), k);
    assert(c.take(k) =~= session_id);
    assert(c.skip(k + 1) =~= d);
    assert(crate::num::unsigned_body(d) == d);
}

// ---------------------------------------------------------------------------
// Scopes
// ---------------------------------------------------------------------------

#[derive(Debug, Clone)]
pub struct HistoryScope {
    /// `allRefs`, `head` or `ref`.
    pub scope_type: String,
    pub ref_id: Option<String>,
}

/// The first ref with this `ref_id`.
pub open spec fn ref_with_id(refs: Seq<RefItem>, id: Seq<char>) -> Option<int> {
    if exists|i: int| 0 <= i < refs.len() && refs[i].ref_id@ == id {
        Some(
            choose|i: int|
                0 <= i < refs.len() && refs[i].ref_id@ == id && forall|k: int|
                    0 <= k < i ==> (#[trigger] refs[k]).ref_id@ != id,
        )
    } else {
        None
    }
}

pub proof fn lemma_ref_with_id(refs: Seq<RefItem>, id: Seq<char>, i: int)
    requires
        0 <= i < refs.len(),
        refs[i].ref_id@ == id,
        forall|k: int| 0 <= k < i ==> (#[trigger] refs[k]).ref_id@ != id,
    ensures
        ref_with_id(refs, id) == Some(i),
{
    let w = choose|j: int|
        0 <= j < refs.len() && refs[j].ref_id@ == id && forall|k: int|
            0 <= k < j ==> (#[trigger] refs[k]).ref_id@ != id;
    assert(0 <= w < refs.len() && refs[w].ref_id@ == id);
    if w < i {
        assert(refs[w].ref_id@ != id);
    }
    if i < w {
        assert(refs[i].ref_id@ != id);
    }
}

pub open spec fn ref_oids(refs: Seq<RefItem>) -> Seq<Seq<char>> {
    refs.map_values(|r: RefItem| r.oid@)
}

fn find_ref_by_id(refs: &[RefItem], id: &str) -> (r: Option<usize>)
    ensures
        match r {
            Some(i) => i < refs@.len() && ref_with_id(refs@, id@) == Some(i as int),
            None => ref_with_id(refs@, id@) is None,
        },
{
    let mut i: usize = 0;
    while i < refs.len()
        invariant
            i <= refs@.len(),
            forall|k: int| 0 <= k < i ==> (#[trigger] refs@[k]).ref_id@ != id@,
        decreases refs.len() - i,
    {
        if str_eq(refs[i].ref_id.as_str(), id) {
            proof {
                lemma_ref_with_id(refs@, id@, i as int);
            }
            return Some(i);
        }
        i += 1;
    }
    None
}

/// The walk's starting commits for a scope: every ref tip (plus HEAD when
/// it is not among them), HEAD alone (none when unborn), or one ref.
/// `head` is the trimmed output of a successful `git rev-parse HEAD`.
pub fn tips_for_scope(scope: &HistoryScope, refs: &[RefItem], head: Option<&str>) -> (r: Result<
    Vec<String>,
    AppError,
>)
    ensures
        scope.scope_type@ == "allRefs"@ ==> (r matches Ok(t) && string_views(t@) == (match head {
            Some(h) => if h@.len() > 0 && !ref_oids(refs@).contains(h@) {
                ref_oids(refs@).push(h@)
            } else {
                ref_oids(refs@)
            },
            None => ref_oids(refs@),
        })),
        scope.scope_type@ == "head"@ ==> (r matches Ok(t) && string_views(t@) == (match head {
            Some(h) => if h@.len() > 0 {
                seq![h@]
            } else {
                Seq::empty()
            },
            None => Seq::empty(),
        })),
        scope.scope_type@ == "ref"@ ==> match scope.ref_id {
            None => r matches Err(e) && is_error(
                e,
                ErrorCode::INVALID_ARGUMENT,
                "ref scope requires refId"@,
                RecoveryAction::InspectState,
                false,
            ),
            Some(id) => match ref_with_id(refs@, id@) {
                Some(i) => r matches Ok(t) && string_views(t@) == seq![refs@[i].oid@],
                None => r matches Err(e) && is_error(
                    e,
                    ErrorCode::REF_INVALID,
                    "Unknown ref"@,
                    RecoveryAction::Refresh,
                    true,
                ),
            },
        },
        scope.scope_type@ != "allRefs"@ && scope.scope_type@ != "head"@ && scope.scope_type@
            != "ref"@ ==> (r matches Err(e) && is_error(
            e,
            ErrorCode::INVALID_ARGUMENT,
            "Unknown history scope"@,
            RecoveryAction::InspectState,
            false,
        )),
{
    proof {
        reveal_strlit("allRefs");
        reveal_strlit("head");
        reveal_strlit("ref");
        assert("allRefs"@[0] != "head"@[0] && "allRefs"@[0] != "ref"@[0] && "head"@[0] != "ref"@[0]);
        assert("allRefs"@ != "head"@ && "allRefs"@ != "ref"@ && "head"@ != "ref"@);
    }
    let kind = scope.scope_type.as_str();
    if str_eq(kind, "allRefs") {
        let mut tips: Vec<String> = Vec::new();
        let mut seen = false;
        let mut i: usize = 0;
        while i < refs.len()
            invariant
                i <= refs@.len(),
                string_views(tips@) == ref_oids(refs@).take(i as int),
                seen == (match head {
                    Some(h) => ref_oids(refs@).take(i as int).contains(h@),
                    None => false,
                }),
            decreases refs.len() - i,
        {
            let o = refs[i].oid.clone();
            let ghost before = tips@;
            proof {
                assert(ref_oids(refs@).take(i + 1) =~= ref_oids(refs@).take(i as int).push(
                    refs@[i as int].oid@,
                ));
            }
            match head {
                Some(h) => {
                    if str_eq(o.as_str(), h) {
                        seen = true;
                    }
                    proof {
                        let pre = ref_oids(refs@).take(i as int);
                        let post = ref_oids(refs@).take(i + 1);
                        assert(post.contains(h@) == (pre.contains(h@) || refs@[i as int].oid@ == h@)) by {
                            if post.contains(h@) {
                                let w = choose|w: int| 0 <= w < post.len() && post[w] == h@;
                                if w < i {
                                    assert(pre[w] == h@);
                                }
                            }
                            if pre.contains(h@) {
                                let w = choose|w: int| 0 <= w < pre.len() && pre[w] == h@;
                                assert(post[w] == h@);
                            }
                            if refs@[i as int].oid@ == h@ {
                                assert(post[i as int] == h@);
                            }
                        }
                    }
                },
                None => {},
            }
            tips.push(o);
            proof {
                assert(string_views(tips@) =~= string_views(before).push(refs@[i as int].oid@));
            }
            i += 1;
        }
        assert(ref_oids(refs@).take(refs@.len() as int) =~= ref_oids(refs@));
        match head {
            Some(h) => {
                if !h.is_empty() && !seen {
                    let ghost before = tips@;
                    tips.push(string_lit(h));
                    assert(string_views(tips@) =~= string_views(before).push(h@));
                }
            },
            None => {},
        }
        return Ok(tips);
    }
    if str_eq(kind, "head") {
        let mut tips: Vec<String> = Vec::new();
        match head {
            Some(h) => {
                if !h.is_empty() {
                    tips.push(string_lit(h));
                    assert(string_views(tips@) =~= seq![h@]);
                } else {
                    assert(string_views(tips@) =~= Seq::<Seq<char>>::empty());
                }
            },
            None => {
                assert(string_views(tips@) =~= Seq::<Seq<char>>::empty());
            },
        }
        return Ok(tips);
    }
    if str_eq(kind, "ref") {
        let wanted = match &scope.ref_id {
            Some(w) => w.as_str(),
            None => {
                return Err(bad_request_str("ref scope requires refId"));
            },
        };
        match find_ref_by_id(refs, wanted) {
            Some(i) => {
                let mut tips: Vec<String> = Vec::new();
                tips.push(refs[i].oid.clone());
                assert(string_views(tips@) =~= seq![refs@[i as int].oid@]);
                return Ok(tips);
            },
            None => {},
        }
        return Err(
            AppError::new(
                ErrorCode::REF_INVALID,
                string_lit("Unknown ref"),
                RecoveryAction::Refresh,
                true,
            ),
        );
    }
    Err(bad_request_str("Unknown history scope"))
}

// ---------------------------------------------------------------------------
// Rows
// ---------------------------------------------------------------------------

/// One commit of the pinned topology walk.
#[derive(Debug, Clone, PartialEq, Eq)]
pub struct TopoRow {
    pub oid: String,
    pub parents: Vec<String>,
    pub boundary: bool,
}

/// Metadata of one commit as `git log` printed it.
#[derive(Debug, Clone, PartialEq, Eq)]
pub struct CommitMeta {
    pub oid: String,
    pub parents: Vec<String>,
    pub subject: String,
    pub body: String,
    pub author_name: String,
    pub authored_at: String,
    pub committed_at: String,
}

/// The ref ids pointing at `oid`, in listing order.
pub open spec fn refs_at(refs: Seq<RefItem>, oid: Seq<char>) -> Seq<Seq<char>>
    decreases refs.len(),
{
    if refs.len() == 0 {
        Seq::empty()
    } else {
        let p = refs_at(refs.drop_last(), oid);
        if refs.last().oid@ == oid {
            p.push(refs.last().ref_id@)
        } else {
            p
        }
    }
}

/// The metadata a lookup by oid finds: the last one listed for that oid.
pub open spec fn meta_at(metas: Seq<CommitMeta>, oid: Seq<char>) -> Option<int> {
    if exists|i: int| 0 <= i < metas.len() && metas[i].oid@ == oid {
        Some(
            choose|i: int|
                0 <= i < metas.len() && metas[i].oid@ == oid && forall|k: int|
                    i < k < metas.len() ==> (#[trigger] metas[k]).oid@ != oid,
        )
    } else {
        None
    }
}

/// A commit with metadata is found: its lookup names an entry for it.
proof fn lemma_meta_found(metas: Seq<CommitMeta>, oid: Seq<char>, k: int)
    requires
        0 <= k < metas.len(),
        metas[k].oid@ == oid,
    ensures
        meta_at(metas, oid) is Some,
        0 <= meta_at(metas, oid)->0 < metas.len(),
        metas[meta_at(metas, oid)->0].oid@ == oid,
    decreases metas.len() - k,
{
    if exists|k2: int| k < k2 < metas.len() && (#[trigger] metas[k2]).oid@ == oid {
        let k2 = choose|k2: int| k < k2 < metas.len() && (#[trigger] metas[k2]).oid@ == oid;
        lemma_meta_found(metas, oid, k2);
    } else {
        lemma_meta_at(metas, oid, k);
    }
}

proof fn lemma_meta_at(metas: Seq<CommitMeta>, oid: Seq<char>, i: int)
    requires
        0 <= i < metas.len(),
        metas[i].oid@ == oid,
        forall|k: int| i < k < metas.len() ==> (#[trigger] metas[k]).oid@ != oid,
    ensures
        meta_at(metas, oid) == Some(i),
{
    let w = choose|j: int|
        0 <= j < metas.len() && metas[j].oid@ == oid && forall|k: int|
            j < k < metas.len() ==> (#[trigger] metas[k]).oid@ != oid;
    assert(0 <= w < metas.len() && metas[w].oid@ == oid);
    if w < i {
        assert(metas[i].oid@ != oid);
    }
    if i < w {
        assert(metas[w].oid@ != oid);
    }
}

fn find_meta(metas: &[CommitMeta], oid: &str) -> (r: Option<usize>)
    ensures
        match r {
            Some(i) => i < metas@.len() && meta_at(metas@, oid@) == Some(i as int),
            None => meta_at(metas@, oid@) is None,
        },
{
    let mut i: usize = metas.len();
    while i > 0
        invariant
            i <= metas@.len(),
            forall|k: int| i <= k < metas@.len() ==> (#[trigger] metas@[k]).oid@ != oid@,
        decreases i,
    {
        if str_eq(metas[i - 1].oid.as_str(), oid) {
            proof {
                lemma_meta_at(metas@, oid@, i - 1);
            }
            return Some(i - 1);
        }
        i -= 1;
    }
    None
}

fn copy_strings(v: &Vec<String>) -> (r: Vec<String>)
    ensures
        r@ == v@,
{
    let mut r: Vec<String> = Vec::new();
    let mut i: usize = 0;
    while i < v.len()
        invariant
            i <= v@.len(),
            r@ == v@.take(i as int),
        decreases v.len() - i,
    {
        r.push(v[i].clone());
        i += 1;
        assert(r@ =~= v@.take(i as int));
    }
    assert(v@.take(v@.len() as int) =~= v@);
    r
}

/// The ref ids at `oid`.
pub fn refs_for_oid(refs: &[RefItem], oid: &str) -> (r: Vec<String>)
    ensures
        string_views(r@) == refs_at(refs@, oid@),
{
    let mut out: Vec<String> = Vec::new();
    let mut i: usize = 0;
    while i < refs.len()
        invariant
            i <= refs@.len(),
            string_views(out@) == refs_at(refs@.take(i as int), oid@),
        decreases refs.len() - i,
    {
        proof {
            assert(refs@.take(i + 1).drop_last() =~= refs@.take(i as int));
        }
        if str_eq(refs[i].oid.as_str(), oid) {
            let ghost before = out@;
            out.push(refs[i].ref_id.clone());
            assert(string_views(out@) =~= string_views(before).push(refs@[i as int].ref_id@));
        }
        i += 1;
    }
    assert(refs@.take(refs@.len() as int) =~= refs@);
    out
}

/// `r` is the history row of topology row `t` with metadata `m`.
pub open spec fn row_matches(r: CommitRow, t: TopoRow, m: CommitMeta, refs: Seq<RefItem>) -> bool {
    &&& r.oid == t.oid
    &&& r.parents@ == t.parents@
    &&& r.subject == m.subject
    &&& r.author_name == m.author_name
    &&& r.authored_at == m.authored_at
    &&& r.committed_at == m.committed_at
    &&& string_views(r.refs@) == refs_at(refs, t.oid@)
    &&& r.boundary == t.boundary
}

/// The row for one topology entry; `None` when no metadata was read for it.
pub fn row_for(topo: &TopoRow, metas: &[CommitMeta], refs: &[RefItem]) -> (r: Option<CommitRow>)
    ensures
        match meta_at(metas@, topo.oid@) {
            None => r is None,
            Some(i) => r matches Some(row) && row_matches(row, *topo, metas@[i], refs@),
        },
{
    let i = match find_meta(metas, topo.oid.as_str()) {
        Some(i) => i,
        None => {
            return None;
        },
    };
    let m = &metas[i];
    Some(
        CommitRow {
            oid: topo.oid.clone(),
            parents: copy_strings(&topo.parents),
            subject: m.subject.clone(),
            author_name: m.author_name.clone(),
            authored_at: m.authored_at.clone(),
            committed_at: m.committed_at.clone(),
            refs: refs_for_oid(refs, topo.oid.as_str()),
            boundary: topo.boundary,
        },
    )
}

/// Indices in `lo..hi` of `rows` whose oid has metadata, in order.
pub open spec fn with_meta(rows: Seq<TopoRow>, metas: Seq<CommitMeta>, lo: int, hi: int) -> Seq<int>
    decreases hi - lo,
{
    if hi <= lo {
        Seq::empty()
    } else {
        let p = with_meta(rows, metas, lo, hi - 1);
        if meta_at(metas, rows[hi - 1].oid@) is Some {
            p.push(hi - 1)
        } else {
            p
        }
    }
}

/// `row` is the history row of `topo[k]`.
pub open spec fn row_at(
    row: CommitRow,
    topo: Seq<TopoRow>,
    metas: Seq<CommitMeta>,
    refs: Seq<RefItem>,
    k: int,
) -> bool {
    meta_at(metas, topo[k].oid@) matches Some(m) && row_matches(row, topo[k], metas[m], refs)
}

/// `rows` are the history rows of `topo[lo..hi]`, those without metadata
/// left out.
pub open spec fn rows_of(
    rows: Seq<CommitRow>,
    topo: Seq<TopoRow>,
    metas: Seq<CommitMeta>,
    refs: Seq<RefItem>,
    lo: int,
    hi: int,
) -> bool {
    let idx = with_meta(topo, metas, lo, hi);
    &&& rows.len() == idx.len()
    &&& forall|j: int| 0 <= j < idx.len() ==> row_at(#[trigger] rows[j], topo, metas, refs, idx[j])
}

pub proof fn lemma_with_meta_bounds(topo: Seq<TopoRow>, metas: Seq<CommitMeta>, lo: int, hi: int, j: int)
    requires
        0 <= j < with_meta(topo, metas, lo, hi).len(),
    ensures
        lo <= with_meta(topo, metas, lo, hi)[j] < hi,
    decreases hi - lo,
{
    if hi > lo {
        let p = with_meta(topo, metas, lo, hi - 1);
        if j < p.len() {
            lemma_with_meta_bounds(topo, metas, lo, hi - 1, j);
        }
    }
}

pub fn rows_in(topo: &[TopoRow], lo: usize, hi: usize, metas: &[CommitMeta], refs: &[RefItem]) -> (r:
    Vec<CommitRow>)
    requires
        lo <= hi <= topo@.len(),
    ensures
        rows_of(r@, topo@, metas@, refs@, lo as int, hi as int),
{
    let mut out: Vec<CommitRow> = Vec::new();
    let mut i: usize = lo;
    let ghost mut idx: Seq<int> = Seq::empty();
    while i < hi
        invariant
            lo <= i <= hi <= topo@.len(),
            idx == with_meta(topo@, metas@, lo as int, i as int),
            out@.len() == idx.len(),
            forall|j: int|
                0 <= j < idx.len() ==> row_at(#[trigger] out@[j], topo@, metas@, refs@, idx[j]),
        decreases hi - i,
    {
        let ghost before = out@;
        match row_for(&topo[i], metas, refs) {
            Some(row) => {
                out.push(row);
                proof {
                    let old_idx = idx;
                    idx = idx.push(i as int);
                    assert forall|j: int| 0 <= j < idx.len() implies row_at(
                        #[trigger] out@[j],
                        topo@,
                        metas@,
                        refs@,
                        idx[j],
                    ) by {
                        if j < old_idx.len() {
                            assert(out@[j] == before[j]);
                            assert(idx[j] == old_idx[j]);
                        }
                    }
                }
            },
            None => {},
        }
        i += 1;
    }
    out
}

// ---------------------------------------------------------------------------
// Pages
// ---------------------------------------------------------------------------

/// Where a page that starts at `offset` stops.
pub open spec fn page_end(offset: int, limit: int, total: int) -> int {
    if offset + limit < total {
        offset + limit
    } else {
        total
    }
}

/// A cursor names a cached session of this repository and an offset
/// within its topology.
pub fn check_cursor_target(
    cached_repo_id: &str,
    repo_id: &str,
    offset: usize,
    topo_len: usize,
) -> (r: Result<(), AppError>)
    ensures
        cached_repo_id@ != repo_id@ ==> (r matches Err(e) && is_error(
            e,
            ErrorCode::INVALID_ARGUMENT,
            "History cursor belongs to another repository"@,
            RecoveryAction::Refresh,
            false,
        )),
        cached_repo_id@ == repo_id@ && offset > topo_len ==> (r matches Err(e) && is_error(
            e,
            ErrorCode::INVALID_ARGUMENT,
            "Page cursor is out of range"@,
            RecoveryAction::InspectState,
            false,
        )),
        cached_repo_id@ == repo_id@ && offset <= topo_len ==> r is Ok,
{
    if !str_eq(cached_repo_id, repo_id) {
        return Err(
            AppError::new(
                ErrorCode::INVALID_ARGUMENT,
                string_lit("History cursor belongs to another repository"),
                RecoveryAction::Refresh,
                false,
            ),
        );
    }
    if offset > topo_len {
        return Err(bad_request_str("Page cursor is out of range"));
    }
    Ok(())
}

/// The cursor names no cached history session.
pub fn unknown_history_session() -> (e: AppError)
    ensures
        is_error(
            e,
            ErrorCode::INVALID_ARGUMENT,
            "Unknown or expired history session; query again"@,
            RecoveryAction::Refresh,
            false,
        ),
{
    AppError::new(
        ErrorCode::INVALID_ARGUMENT,
        string_lit("Unknown or expired history session; query again"),
        RecoveryAction::Refresh,
        false,
    )
}

/// One page of a pinned history session: the rows from `offset` up to
/// `limit` further, a cursor to the next page while rows remain, and the
/// truncation flag on the final page only.
pub fn history_page_of(
    session_id: &str,
    topo: &[TopoRow],
    truncated: bool,
    offset: usize,
    limit: usize,
    metas: &[CommitMeta],
    refs: &[RefItem],
) -> (r: HistoryPage)
    requires
        offset <= topo@.len(),
        1 <= limit <= MAX_LIMIT,
    ensures
        ({
            let end = page_end(offset as int, limit as int, topo@.len() as int);
            &&& r.history_session_id@ == session_id@
            &&& rows_of(r.rows@, topo@, metas@, refs@, offset as int, end)
            &&& (if end < topo@.len() {
                r.next_cursor matches Some(c) && c@ == cursor_text(session_id@, end as nat)
            } else {
                r.next_cursor is None
            })
            &&& r.truncated == (truncated && end >= topo@.len())
        }),
{
    let end: usize = if limit < topo.len() - offset {
        offset + limit
    } else {
        topo.len()
    };
    let rows = rows_in(topo, offset, end, metas, refs);
    HistoryPage {
        history_session_id: string_lit(session_id),
        next_cursor: if end < topo.len() {
            Some(cursor_for(session_id, end))
        } else {
            None
        },
        truncated: truncated && end >= topo.len(),
        rows,
    }
}

/// Paging never duplicates or skips: the next page's cursor reads back as
/// this session at exactly the offset where this page stopped, every offset
/// stays within the topology, and each page moves forward.
pub proof fn lemma_pages_continue(session_id: Seq<char>, offset: usize, limit: usize, total: usize)
    requires
        session_id.len() > 0,
        offset <= total,
        1 <= limit,
    ensures
        ({
            let end = page_end(offset as int, limit as int, total as int);
            &&& offset <= end <= total
            &&& end < total ==> end > offset && cursor_parts(cursor_text(session_id, end as nat))
                == Some((session_id, end as usize))
        }),
{
    let end = page_end(offset as int, limit as int, total as int);
    if end < total {
        lemma_cursor_roundtrip(session_id, end as usize);
    }
}

/// Where page `k` of a walk starts when every page asks for `limit` rows
/// of `total`: the first at 0, each next one where the last stopped.
pub open spec fn walk_offset(limit: int, total: int, k: nat) -> int
    decreases k,
{
    if k == 0 {
        0
    } else {
        page_end(walk_offset(limit, total, (k - 1) as nat), limit, total)
    }
}

/// How many pages a walk of `total` rows takes at `limit` rows a page.
pub open spec fn pages_in(limit: int, total: int) -> nat {
    ((total + limit - 1) / limit) as nat
}

/// The rows of successive pages, end to end.
pub open spec fn joined_pages(pages: Seq<Seq<CommitRow>>) -> Seq<CommitRow>
    decreases pages.len(),
{
    if pages.len() == 0 {
        Seq::empty()
    } else {
        joined_pages(pages.drop_last()) + pages.last()
    }
}

/// Page `k` starts at `k * limit`, or at the end once that is past it.
pub proof fn lemma_walk_offset(limit: int, total: int, k: nat)
    requires
        1 <= limit,
        0 <= total,
    ensures
        walk_offset(limit, total, k) == (if k * limit < total {
            k * limit
        } else {
            total
        }),
    decreases k,
{
    if k == 0 {
        assert(k * limit == 0) by (nonlinear_arith)
            requires
                k == 0,
        ;
    } else {
        let m = (k - 1) as nat;
        lemma_walk_offset(limit, total, m);
        assert(m * limit + limit == k * limit && m * limit <= k * limit) by (nonlinear_arith)
            requires
                m + 1 == k,
                limit >= 1,
        ;
    }
}

/// The walk ends: each of its `pages_in` pages starts before the end and
/// stops further on, and the page after the last would start at the end,
/// so the last page is the one without a next cursor.
pub proof fn lemma_walk_ends(limit: int, total: int)
    requires
        1 <= limit,
        0 <= total,
    ensures
        walk_offset(limit, total, pages_in(limit, total)) == total,
        forall|k: nat|
            k < pages_in(limit, total) ==> #[trigger] walk_offset(limit, total, k) < walk_offset(
                limit,
                total,
                k + 1,
            ) && walk_offset(limit, total, k) < total,
{
    let n = pages_in(limit, total);
    assert(n * limit >= total && n * limit < total + limit) by (nonlinear_arith)
        requires
            limit >= 1,
            total >= 0,
            n == (total + limit - 1) / limit,
    ;
    lemma_walk_offset(limit, total, n);
    assert forall|k: nat| k < n implies #[trigger] walk_offset(limit, total, k) < walk_offset(
        limit,
        total,
        k + 1,
    ) && walk_offset(limit, total, k) < total by {
        lemma_walk_offset(limit, total, k);
        lemma_walk_offset(limit, total, k + 1);
        assert(k * limit < total && (k + 1) * limit == k * limit + limit) by (nonlinear_arith)
            requires
                k < n,
                n * limit < total + limit,
                limit >= 1,
        ;
    }
}

/// The rows with metadata of `lo..hi` are those of `lo..mid` then those of
/// `mid..hi`.
pub proof fn lemma_with_meta_split(topo: Seq<TopoRow>, metas: Seq<CommitMeta>, lo: int, mid: int, hi: int)
    requires
        lo <= mid <= hi,
    ensures
        with_meta(topo, metas, lo, hi) == with_meta(topo, metas, lo, mid) + with_meta(topo, metas, mid, hi),
    decreases hi - mid,
{
    if hi == mid {
        assert(with_meta(topo, metas, mid, hi) =~= Seq::<int>::empty());
        assert(with_meta(topo, metas, lo, mid) + with_meta(topo, metas, mid, hi) =~= with_meta(
            topo,
            metas,
            lo,
            mid,
        ));
    } else {
        lemma_with_meta_split(topo, metas, lo, mid, hi - 1);
        let a = with_meta(topo, metas, lo, mid);
        let b = with_meta(topo, metas, mid, hi - 1);
        if meta_at(metas, topo[hi - 1].oid@) is Some {
            assert((a + b).push(hi - 1) =~= a + b.push(hi - 1));
        }
    }
}

/// Two runs of history rows over adjacent ranges make the run over both.
pub proof fn lemma_rows_join(
    a: Seq<CommitRow>,
    b: Seq<CommitRow>,
    topo: Seq<TopoRow>,
    metas: Seq<CommitMeta>,
    refs: Seq<RefItem>,
    lo: int,
    mid: int,
    hi: int,
)
    requires
        lo <= mid <= hi,
        rows_of(a, topo, metas, refs, lo, mid),
        rows_of(b, topo, metas, refs, mid, hi),
    ensures
        rows_of(a + b, topo, metas, refs, lo, hi),
{
    lemma_with_meta_split(topo, metas, lo, mid, hi);
    let i1 = with_meta(topo, metas, lo, mid);
    let i2 = with_meta(topo, metas, mid, hi);
    let idx = with_meta(topo, metas, lo, hi);
    assert forall|j: int| 0 <= j < idx.len() implies row_at(#[trigger] (a + b)[j], topo, metas, refs, idx[j]) by {
        if j < i1.len() {
            assert((a + b)[j] == a[j]);
            assert(idx[j] == i1[j]);
        } else {
            assert((a + b)[j] == b[j - a.len()]);
            assert(idx[j] == i2[j - i1.len()]);
            assert(row_at(b[j - i1.len()], topo, metas, refs, i2[j - i1.len()]));
        }
    }
}

proof fn lemma_walk_prefix(
    pages: Seq<Seq<CommitRow>>,
    topo: Seq<TopoRow>,
    metas: Seq<CommitMeta>,
    refs: Seq<RefItem>,
    limit: int,
    n: nat,
)
    requires
        1 <= limit,
        n <= pages.len(),
        forall|k: int|
            0 <= k < pages.len() ==> rows_of(
                #[trigger] pages[k],
                topo,
                metas,
                refs,
                walk_offset(limit, topo.len() as int, k as nat),
                walk_offset(limit, topo.len() as int, (k + 1) as nat),
            ),
    ensures
        rows_of(joined_pages(pages.take(n as int)), topo, metas, refs, 0, walk_offset(limit, topo.len() as int, n)),
        0 <= walk_offset(limit, topo.len() as int, n) <= topo.len(),
    decreases n,
{
    let total = topo.len() as int;
    lemma_walk_offset(limit, total, n);
    assert(n * limit >= 0) by (nonlinear_arith)
        requires
            limit >= 1,
    ;
    if n == 0 {
        assert(joined_pages(pages.take(0)) =~= Seq::<CommitRow>::empty());
        assert(with_meta(topo, metas, 0, 0) =~= Seq::<int>::empty());
    } else {
        let m = (n - 1) as nat;
        lemma_walk_prefix(pages, topo, metas, refs, limit, m);
        lemma_walk_offset(limit, total, m);
        assert(m * limit <= n * limit) by (nonlinear_arith)
            requires
                limit >= 1,
                m + 1 == n,
        ;
        assert(pages.take(n as int).drop_last() =~= pages.take(m as int));
        assert(pages.take(n as int).last() == pages[m as int]);
        assert(rows_of(pages[m as int], topo, metas, refs, walk_offset(limit, total, m), walk_offset(limit, total, n)));
        lemma_rows_join(
            joined_pages(pages.take(m as int)),
            pages[m as int],
            topo,
            metas,
            refs,
            0,
            walk_offset(limit, total, m),
            walk_offset(limit, total, n),
        );
    }
}

/// Following the cursors from the first page to the last reads every row
/// of the pinned walk exactly once, in topological order: the pages that
/// `history_page_of` gives at the offsets the cursors name, put end to end,
/// are the history rows of the whole walk.
pub proof fn lemma_walk_reads_everything(
    pages: Seq<Seq<CommitRow>>,
    topo: Seq<TopoRow>,
    metas: Seq<CommitMeta>,
    refs: Seq<RefItem>,
    limit: int,
)
    requires
        1 <= limit,
        pages.len() == pages_in(limit, topo.len() as int),
        forall|k: int|
            0 <= k < pages.len() ==> rows_of(
                #[trigger] pages[k],
                topo,
                metas,
                refs,
                walk_offset(limit, topo.len() as int, k as nat),
                walk_offset(limit, topo.len() as int, (k + 1) as nat),
            ),
    ensures
        rows_of(joined_pages(pages), topo, metas, refs, 0, topo.len() as int),
{
    lemma_walk_ends(limit, topo.len() as int);
    lemma_walk_prefix(pages, topo, metas, refs, limit, pages.len());
    assert(pages.take(pages.len() as int) =~= pages);
}

// ---------------------------------------------------------------------------
// Search
// ---------------------------------------------------------------------------

/// What `str::to_lowercase` makes of a string.
pub uninterp spec fn unicode_lower(s: Seq<char>) -> Seq<char>;

/// `str::to_lowercase`: the Unicode lowercase mapping. Claimed: the result
/// is the name `unicode_lower` of the input, and on ASCII input it is the
/// ASCII lowering of each char (as std documents for ASCII).
#[verifier::external_body]
pub(crate) fn to_lowercase(s: &str) -> (r: String)
    ensures
        r@ == unicode_lower(s@),
        crate::text::all_ascii(s@) ==> r@ == crate::text::lower_seq(s@),
{
    s.to_lowercase()
}

pub fn check_search_query(query: &str) -> (r: Result<(), AppError>)
    ensures
        r is Ok <==> query@.len() > 0 && utf8_len(query@) <= 500,
        r matches Err(e) ==> is_error(
            e,
            ErrorCode::INVALID_ARGUMENT,
            "Search query must be 1..=500 characters"@,
            RecoveryAction::InspectState,
            false,
        ),
{
    if query.is_empty() || str_exceeds(query, 500) {
        return Err(bad_request_str("Search query must be 1..=500 characters"));
    }
    Ok(())
}

/// A commit matches when the lowercased needle occurs in its lowercased
/// subject or author, or starts its lowercased oid.
pub open spec fn row_hits(t: TopoRow, metas: Seq<CommitMeta>, needle: Seq<char>) -> bool {
    match meta_at(metas, t.oid@) {
        Some(i) => contains_seq(unicode_lower(metas[i].subject@), needle) || contains_seq(
            unicode_lower(metas[i].author_name@),
            needle,
        ) || starts_with(unicode_lower(t.oid@), needle),
        None => false,
    }
}

/// No stretch of `hay` spells `needle`.
pub open spec fn occurs_nowhere(hay: Seq<char>, needle: Seq<char>) -> bool {
    forall|j: int|
        0 <= j && j + needle.len() <= hay.len() ==> #[trigger] hay.subrange(j, j + needle.len())
            != needle
}

/// The search rule for one commit, in plain terms: only a commit with
/// metadata can match; one whose lowercased subject and author both lack
/// the (lowercased) query matches only when its lowercased oid begins with
/// the query, not when the query merely occurs somewhere inside the oid;
/// and a commit with metadata whose lowercased oid begins with the query
/// always matches.
pub proof fn lemma_search_matches_oid_by_prefix(t: TopoRow, metas: Seq<CommitMeta>, needle: Seq<char>)
    ensures
        row_hits(t, metas, needle) ==> exists|k: int| 0 <= k < metas.len() && #[trigger] metas[k].oid@ == t.oid@,
        (forall|k: int|
            0 <= k < metas.len() && #[trigger] metas[k].oid@ == t.oid@ ==> occurs_nowhere(
                unicode_lower(metas[k].subject@),
                needle,
            ) && occurs_nowhere(unicode_lower(metas[k].author_name@), needle)) && row_hits(t, metas, needle) ==> needle.len() <= unicode_lower(t.oid@).len()
            && unicode_lower(t.oid@).subrange(0, needle.len() as int) == needle,
        (exists|k: int| 0 <= k < metas.len() && #[trigger] metas[k].oid@ == t.oid@) && needle.len()
            <= unicode_lower(t.oid@).len() && unicode_lower(t.oid@).subrange(0, needle.len() as int)
            == needle ==> row_hits(t, metas, needle),
        (exists|k: int| 0 <= k < metas.len() && #[trigger] metas[k].oid@ == t.oid@) && (forall|k: int|
            0 <= k < metas.len() && #[trigger] metas[k].oid@ == t.oid@ ==> !occurs_nowhere(
                unicode_lower(metas[k].subject@),
                needle,
            )) ==> row_hits(t, metas, needle),
        (exists|k: int| 0 <= k < metas.len() && #[trigger] metas[k].oid@ == t.oid@) && (forall|k: int|
            0 <= k < metas.len() && #[trigger] metas[k].oid@ == t.oid@ ==> !occurs_nowhere(
                unicode_lower(metas[k].author_name@),
                needle,
            )) ==> row_hits(t, metas, needle),
{
    let lo = unicode_lower(t.oid@);
    if exists|k: int| 0 <= k < metas.len() && #[trigger] metas[k].oid@ == t.oid@ {
        let k = choose|k: int| 0 <= k < metas.len() && #[trigger] metas[k].oid@ == t.oid@;
        lemma_meta_found(metas, t.oid@, k);
        let i = meta_at(metas, t.oid@)->0;
        assert(0 <= i < metas.len() && metas[i].oid@ == t.oid@);
        if needle.len() <= lo.len() && lo.subrange(0, needle.len() as int) == needle {
            assert(lo.take(needle.len() as int) =~= lo.subrange(0, needle.len() as int));
        }
        let si = unicode_lower(metas[i].subject@);
        let ai = unicode_lower(metas[i].author_name@);
        if !occurs_nowhere(si, needle) {
            let j = choose|j: int|
                !(0 <= j && j + needle.len() <= si.len() ==> #[trigger] si.subrange(j, j + needle.len())
                    != needle);
            assert(occurs_at(si, needle, j));
        }
        if !occurs_nowhere(ai, needle) {
            let j = choose|j: int|
                !(0 <= j && j + needle.len() <= ai.len() ==> #[trigger] ai.subrange(j, j + needle.len())
                    != needle);
            assert(occurs_at(ai, needle, j));
        }
        if forall|k: int|
            0 <= k < metas.len() && #[trigger] metas[k].oid@ == t.oid@ ==> occurs_nowhere(
                unicode_lower(metas[k].subject@),
                needle,
            ) && occurs_nowhere(unicode_lower(metas[k].author_name@), needle) {
            let s = unicode_lower(metas[i].subject@);
            let a = unicode_lower(metas[i].author_name@);
            assert(!contains_seq(s, needle)) by {
                if contains_seq(s, needle) {
                    let j = choose|j: int| occurs_at(s, needle, j);
                    assert(metas[i].oid@ == t.oid@);
                }
            }
            assert(!contains_seq(a, needle)) by {
                if contains_seq(a, needle) {
                    let j = choose|j: int| occurs_at(a, needle, j);
                    assert(metas[i].oid@ == t.oid@);
                }
            }
            if row_hits(t, metas, needle) {
                assert(starts_with(lo, needle));
                assert(lo.take(needle.len() as int) =~= lo.subrange(0, needle.len() as int));
            }
        }
    }
}

/// Indices of the matching rows, in walk order.
pub open spec fn hits(topo: Seq<TopoRow>, metas: Seq<CommitMeta>, needle: Seq<char>) -> Seq<int>
    decreases topo.len(),
{
    if topo.len() == 0 {
        Seq::empty()
    } else {
        let p = hits(topo.drop_last(), metas, needle);
        if row_hits(topo.last(), metas, needle) {
            p.push(topo.len() - 1)
        } else {
            p
        }
    }
}

fn row_is_hit(t: &TopoRow, metas: &[CommitMeta], needle: &Vec<char>) -> (r: bool)
    ensures
        r == row_hits(*t, metas@, needle@),
{
    match find_meta(metas, t.oid.as_str()) {
        None => false,
        Some(i) => {
            let s = chars_of(to_lowercase(metas[i].subject.as_str()).as_str());
            if contains_vec(&s, needle) {
                return true;
            }
            let a = chars_of(to_lowercase(metas[i].author_name.as_str()).as_str());
            if contains_vec(&a, needle) {
                return true;
            }
            let o = chars_of(to_lowercase(t.oid.as_str()).as_str());
            has_prefix(&o, needle)
        },
    }
}

fn search_hits(topo: &[TopoRow], metas: &[CommitMeta], needle: &Vec<char>) -> (r: Vec<usize>)
    ensures
        r@.len() == hits(topo@, metas@, needle@).len(),
        forall|j: int|
            0 <= j < r@.len() ==> r@[j] as int == #[trigger] hits(topo@, metas@, needle@)[j],
        forall|j: int| 0 <= j < r@.len() ==> r@[j] < topo@.len(),
{
    let mut out: Vec<usize> = Vec::new();
    let mut i: usize = 0;
    while i < topo.len()
        invariant
            i <= topo@.len(),
            out@.len() == hits(topo@.take(i as int), metas@, needle@).len(),
            forall|j: int|
                0 <= j < out@.len() ==> out@[j] as int == #[trigger] hits(
                    topo@.take(i as int),
                    metas@,
                    needle@,
                )[j],
            forall|j: int| 0 <= j < out@.len() ==> out@[j] < i,
        decreases topo.len() - i,
    {
        proof {
            assert(topo@.take(i + 1).drop_last() =~= topo@.take(i as int));
            assert(topo@.take(i + 1).last() == topo@[i as int]);
        }
        if row_is_hit(&topo[i], metas, needle) {
            out.push(i);
        }
        i += 1;
    }
    assert(topo@.take(topo@.len() as int) =~= topo@);
    out
}

/// One page of search results over a fresh walk: the matches from `offset`
/// on, `limit` at most; the cursor is offset-only (`search:{end}`).
pub fn search_page_of(
    topo: &[TopoRow],
    truncated: bool,
    query: &str,
    offset: usize,
    limit: usize,
    metas: &[CommitMeta],
    refs: &[RefItem],
) -> (r: Result<SearchResults, AppError>)
    requires
        1 <= limit <= MAX_LIMIT,
    ensures
        ({
            let hs = hits(topo@, metas@, unicode_lower(query@));
            if offset > hs.len() {
                r matches Err(e) && is_error(
                    e,
                    ErrorCode::INVALID_ARGUMENT,
                    "Page cursor is out of range"@,
                    RecoveryAction::InspectState,
                    false,
                )
            } else {
                let end = page_end(offset as int, limit as int, hs.len() as int);
                r matches Ok(s) && s.rows@.len() == end - offset && (forall|j: int|
                    0 <= j < s.rows@.len() ==> row_at(
                        #[trigger] s.rows@[j],
                        topo@,
                        metas@,
                        refs@,
                        hs[offset + j],
                    )) && (if end < hs.len() {
                    s.next_cursor matches Some(c) && c@ == cursor_text("search"@, end as nat)
                } else {
                    s.next_cursor is None
                }) && s.incomplete == truncated
            }
        }),
{
    let needle = chars_of(to_lowercase(query).as_str());
    let matched = search_hits(topo, metas, &needle);
    let ghost hs = hits(topo@, metas@, unicode_lower(query@));
    if offset > matched.len() {
        return Err(bad_request_str("Page cursor is out of range"));
    }
    let end: usize = if limit < matched.len() - offset {
        offset + limit
    } else {
        matched.len()
    };
    let mut rows: Vec<CommitRow> = Vec::new();
    let mut i: usize = offset;
    while i < end
        invariant
            offset <= i <= end <= matched@.len(),
            matched@.len() == hs.len(),
            forall|j: int| 0 <= j < matched@.len() ==> matched@[j] as int == #[trigger] hs[j],
            forall|j: int| 0 <= j < matched@.len() ==> matched@[j] < topo@.len(),
            hs == hits(topo@, metas@, unicode_lower(query@)),
            rows@.len() == i - offset,
            forall|j: int|
                0 <= j < rows@.len() ==> row_at(#[trigger] rows@[j], topo@, metas@, refs@, hs[offset + j]),
        decreases end - i,
    {
        let k = matched[i];
        assert(k as int == hs[i as int]);
        proof {
            lemma_hits_hit(topo@, metas@, unicode_lower(query@), i as int);
        }
        match row_for(&topo[k], metas, refs) {
            Some(row) => {
                let ghost before = rows@;
                rows.push(row);
                assert forall|j: int| 0 <= j < rows@.len() implies row_at(
                    #[trigger] rows@[j],
                    topo@,
                    metas@,
                    refs@,
                    hs[offset + j],
                ) by {
                    if j < before.len() {
                        assert(rows@[j] == before[j]);
                    }
                }
            },
            None => {
                assert(false);
            },
        }
        i += 1;
    }
    Ok(
        SearchResults {
            rows,
            next_cursor: if end < matched.len() {
                Some(cursor_for("search", end))
            } else {
                None
            },
            incomplete: truncated,
        },
    )
}

/// Every index that the search lists is a row of the walk that matches.
pub proof fn lemma_hits_hit(topo: Seq<TopoRow>, metas: Seq<CommitMeta>, needle: Seq<char>, j: int)
    requires
        0 <= j < hits(topo, metas, needle).len(),
    ensures
        0 <= hits(topo, metas, needle)[j] < topo.len(),
        row_hits(topo[hits(topo, metas, needle)[j]], metas, needle),
    decreases topo.len(),
{
    if topo.len() > 0 {
        let p = hits(topo.drop_last(), metas, needle);
        if j < p.len() {
            lemma_hits_hit(topo.drop_last(), metas, needle, j);
            assert(topo.drop_last()[p[j]] == topo[p[j]]);
        }
    }
}

/// Every row of the walk that matches is listed by the search, once, and
/// the listing keeps walk order.
pub proof fn lemma_hit_listed(topo: Seq<TopoRow>, metas: Seq<CommitMeta>, needle: Seq<char>, j: int)
    requires
        0 <= j < topo.len(),
        row_hits(topo[j], metas, needle),
    ensures
        hits(topo, metas, needle).contains(j),
    decreases topo.len(),
{
    let p = hits(topo.drop_last(), metas, needle);
    if j == topo.len() - 1 {
        assert(hits(topo, metas, needle) == p.push(j));
        assert(hits(topo, metas, needle)[p.len() as int] == j);
    } else {
        assert(topo.drop_last()[j] == topo[j]);
        lemma_hit_listed(topo.drop_last(), metas, needle, j);
        let k = choose|k: int| 0 <= k < p.len() && p[k] == j;
        let h = hits(topo, metas, needle);
        assert(h[k] == j);
    }
}

/// The search lists rows in walk order, each at most once.
pub proof fn lemma_hits_ordered(topo: Seq<TopoRow>, metas: Seq<CommitMeta>, needle: Seq<char>)
    ensures
        forall|a: int, b: int|
            0 <= a < b < hits(topo, metas, needle).len() ==> #[trigger] hits(topo, metas, needle)[a]
                < #[trigger] hits(topo, metas, needle)[b],
    decreases topo.len(),
{
    if topo.len() > 0 {
        let p = hits(topo.drop_last(), metas, needle);
        lemma_hits_ordered(topo.drop_last(), metas, needle);
        let h = hits(topo, metas, needle);
        assert forall|a: int, b: int| 0 <= a < b < h.len() implies #[trigger] h[a] < #[trigger] h[b] by {
            if b < p.len() {
                assert(h[a] == p[a] && h[b] == p[b]);
            } else {
                lemma_hits_hit(topo.drop_last(), metas, needle, a);
                assert(h[a] == p[a]);
                assert(h[b] == topo.len() - 1);
            }
        }
    }
}

// ---------------------------------------------------------------------------
// Commit details
// ---------------------------------------------------------------------------

pub fn unknown_commit() -> (e: AppError)
    ensures
        is_error(e, ErrorCode::REF_INVALID, "Unknown commit"@, RecoveryAction::Refresh, true),
{
    AppError::new(ErrorCode::REF_INVALID, string_lit("Unknown commit"), RecoveryAction::Refresh, true)
}

/// `git rev-parse HEAD` could not run for a `head` scope.
pub fn head_unresolved() -> (e: AppError)
    ensures
        is_error(
            e,
            ErrorCode::GIT_ERROR,
            "Failed to resolve HEAD"@,
            RecoveryAction::Refresh,
            true,
        ),
{
    AppError::new(
        ErrorCode::GIT_ERROR,
        string_lit("Failed to resolve HEAD"),
        RecoveryAction::Refresh,
        true,
    )
}

#[derive(Debug)]
pub struct RepoContext {
    pub request_id: RequestId,
    pub repo_id: String,
}

#[derive(Debug)]
pub struct HistoryPageRequest {
    pub request_id: RequestId,
    pub repo_id: String,
    pub scope: HistoryScope,
    pub cursor: Option<String>,
    pub limit: usize,
}

#[derive(Debug)]
pub struct HistorySearchRequest {
    pub request_id: RequestId,
    pub repo_id: String,
    pub scope: HistoryScope,
    pub query: String,
    pub cursor: Option<String>,
    pub limit: usize,
}

#[derive(Debug)]
pub struct CommitDetailsRequest {
    pub request_id: RequestId,
    pub repo_id: String,
    pub oid: String,
    pub parent_index: Option<usize>,
}

} // verus!
