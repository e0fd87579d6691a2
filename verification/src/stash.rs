//! Stash list, save and apply.
//!
//! Tracked-only by default; untracked files enter only with an explicit
//! flag. Entries are identified by oid: `stash@{n}` is resolved right
//! before acting and checked against the oid the UI saw, so a reorder
//! fails closed. Pop is apply-then-drop, the drop only after a clean apply
//! and only when it took the applied entry; a conflict keeps the stash.

use vstd::prelude::*;
use crate::text::{string_views};
use crate::domain::RepoSnapshot;
use crate::error::{bad_request_str, is_error, stale_state, AppError, ErrorCode, RecoveryAction, RequestId};
use crate::lines::{line_pieces, pieces_vec, view_pieces};
use crate::num::{parse_u64, parse_u64_spec, parse_usize, parse_usize_spec};
use crate::text::{
    all_digits, chars_of, every_digit, split_once, split_once_char, str_eq, string_lit, string_of,
    strip_prefix, strip_prefix_vec, strip_suffix, strip_suffix_vec, utf8_len, utf8_len_exceeds,
};

verus! {

/// One stash entry. `stash_id` is the display index (`stash@{n}`); `oid`
/// is the identity the UI hands back so reorder races fail closed.
#[derive(Debug, Clone, PartialEq, Eq)]
pub struct StashEntry {
    pub stash_id: String,
    pub oid: String,
    pub label: String,
    pub created_at: u64,
}

#[derive(Debug, Clone, PartialEq, Eq)]
pub struct StashSaveResult {
    pub oid: Option<String>,
    pub snapshot: RepoSnapshot,
    pub no_change: bool,
}

#[derive(Debug, Clone, PartialEq, Eq)]
pub struct StashApplyResult {
    pub snapshot: RepoSnapshot,
    /// The entry is still in the stash list (conflict, apply mode, or a pop
    /// whose drop failed).
    pub retained: bool,
    /// The apply left unmerged entries behind.
    pub conflicted: bool,
    /// Set only for the partial pop: apply succeeded, drop did not.
    pub drop_error: Option<AppError>,
}

#[derive(Debug, Clone, Copy, PartialEq, Eq, Structural)]
pub enum StashApplyMode {
    Apply,
    Pop,
}

#[derive(Debug)]
pub struct StashListRequest {
    pub request_id: RequestId,
    pub repo_id: String,
}

#[derive(Debug)]
pub struct StashSaveRequest {
    pub request_id: RequestId,
    pub repo_id: String,
    pub expected_version: u64,
    pub message: String,
    pub include_untracked: bool,
}

#[derive(Debug)]
pub struct StashApplyRequest {
    pub request_id: RequestId,
    pub repo_id: String,
    pub expected_version: u64,
    pub stash_id: String,
    pub expected_oid: String,
    pub mode: StashApplyMode,
}

pub fn stash_failed() -> (e: AppError)
    ensures
        is_error(
            e,
            ErrorCode::GIT_ERROR,
            "Git could not finish the stash operation"@,
            RecoveryAction::Refresh,
            true,
        ),
{
    AppError::new(
        ErrorCode::GIT_ERROR,
        string_lit("Git could not finish the stash operation"),
        RecoveryAction::Refresh,
        true,
    )
}

pub fn bad_stash_id() -> (e: AppError)
    ensures
        is_error(
            e,
            ErrorCode::INVALID_ARGUMENT,
            "Unknown stash entry; refresh the stash list and retry"@,
            RecoveryAction::InspectState,
            false,
        ),
{
    bad_request_str("Unknown stash entry; refresh the stash list and retry")
}

/// The `n` of `stash@{n}`: ASCII digits only, and a value that fits.
pub open spec fn stash_index_of(id: Seq<char>) -> Option<usize> {
    match strip_prefix(id, "stash@{"@) {
        None => None,
        Some(r) => match strip_suffix(r, "}"@) {
            None => None,
            Some(inner) => if inner.len() > 0 && all_digits(inner) {
                parse_usize_spec(inner)
            } else {
                None
            },
        },
    }
}

/// `stash@{n}` shape check; the oid check happens at action time.
pub fn parse_stash_index(stash_id: &str) -> (r: Option<usize>)
    ensures
        r == stash_index_of(stash_id@),
{
    let v = chars_of(stash_id);
    let r = match strip_prefix_vec(&v, &chars_of("stash@{")) {
        None => {
            return None;
        },
        Some(r) => r,
    };
    let inner = match strip_suffix_vec(&r, &chars_of("}")) {
        None => {
            return None;
        },
        Some(i) => i,
    };
    if inner.len() == 0 || !every_digit(&inner) {
        return None;
    }
    parse_usize(&inner)
}

/// A `git stash list --format=%gd%x00%H%x00%ct%x00%gs` record: id, oid,
/// creation time (0 when unreadable) and subject. Records with a bad id or
/// an oid under 7 bytes are skipped.
pub open spec fn stash_record(rec: Seq<char>) -> Option<(Seq<char>, Seq<char>, u64, Seq<char>)> {
    match split_once(rec, '\0') {
        None => None,
        Some((id, r1)) => match split_once(r1, '\0') {
            None => None,
            Some((oid, r2)) => match split_once(r2, '\0') {
                None => None,
                Some((created, label)) => if stash_index_of(id) is Some && utf8_len(oid) >= 7 {
                    Some(
                        (
                            id,
                            oid,
                            match parse_u64_spec(created) {
                                Some(n) => n,
                                None => 0,
                            },
                            label,
                        ),
                    )
                } else {
                    None
                },
            },
        },
    }
}

/// The entries of the records, in order.
pub open spec fn stash_entries(recs: Seq<Seq<char>>) -> Seq<(Seq<char>, Seq<char>, u64, Seq<char>)>
    decreases recs.len(),
{
    if recs.len() == 0 {
        Seq::empty()
    } else {
        let p = stash_entries(recs.drop_last());
        match stash_record(recs.last()) {
            Some(e) => p.push(e),
            None => p,
        }
    }
}

pub open spec fn entry_view(e: StashEntry) -> (Seq<char>, Seq<char>, u64, Seq<char>) {
    (e.stash_id@, e.oid@, e.created_at, e.label@)
}

fn parse_stash_record(rec: &Vec<char>) -> (r: Option<StashEntry>)
    ensures
        match stash_record(rec@) {
            Some(e) => r matches Some(x) && entry_view(x) == e,
            None => r is None,
        },
{
    let (id, r1) = match split_once_char(rec, '\0') {
        None => {
            return None;
        },
        Some(p) => p,
    };
    let (oid, r2) = match split_once_char(&r1, '\0') {
        None => {
            return None;
        },
        Some(p) => p,
    };
    let (created, label) = match split_once_char(&r2, '\0') {
        None => {
            return None;
        },
        Some(p) => p,
    };
    let ids = string_of(id.as_slice());
    if parse_stash_index(ids.as_str()).is_none() || !utf8_len_exceeds(&oid, 6) {
        return None;
    }
    let created_at: u64 = match parse_u64(&created) {
        Some(n) => n,
        None => 0,
    };
    Some(
        StashEntry {
            stash_id: ids,
            oid: string_of(oid.as_slice()),
            label: string_of(label.as_slice()),
            created_at,
        },
    )
}

/// The stash list from the text of `git stash list`, one record per line;
/// a multi-line subject only appends records that do not parse.
pub fn parse_stash_list(stdout: &str) -> (r: Vec<StashEntry>)
    ensures
        r@.map_values(|e: StashEntry| entry_view(e)) == stash_entries(line_pieces(stdout@)),
{
    let recs = pieces_vec(&chars_of(stdout));
    let ghost all = line_pieces(stdout@);
    let mut out: Vec<StashEntry> = Vec::new();
    let mut i: usize = 0;
    while i < recs.len()
        invariant
            i <= recs@.len(),
            view_pieces(recs@) == all,
            out@.map_values(|e: StashEntry| entry_view(e)) == stash_entries(all.take(i as int)),
        decreases recs.len() - i,
    {
        proof {
            assert(all.take(i + 1).drop_last() =~= all.take(i as int));
            assert(all.take(i + 1).last() == recs@[i as int]@);
        }
        let ghost before = out@;
        if recs[i].len() > 0 {
            match parse_stash_record(&recs[i]) {
                Some(e) => {
                    out.push(e);
                    assert(out@.map_values(|e: StashEntry| entry_view(e)) =~= before.map_values(
                        |e: StashEntry| entry_view(e),
                    ).push(entry_view(out@[out@.len() - 1])));
                },
                None => {},
            }
        } else {
            assert(recs@[i as int]@ =~= Seq::<char>::empty());
            assert(stash_record(Seq::<char>::empty()) is None) by {
                assert(crate::text::first_where(Seq::<char>::empty(), crate::text::is_char('\0')) is None);
            }
        }
        i += 1;
    }
    assert(all.take(recs@.len() as int) =~= all);
    out
}

// ---------------------------------------------------------------------------
// Save
// ---------------------------------------------------------------------------

pub fn check_stash_message(message: &str) -> (r: Result<(), AppError>)
    ensures
        r is Ok <==> message@.len() <= 500,
        r matches Err(e) ==> is_error(
            e,
            ErrorCode::INVALID_ARGUMENT,
            "Stash message must be 500 characters or fewer"@,
            RecoveryAction::InspectState,
            false,
        ),
{
    if chars_of(message).len() > 500 {
        return Err(bad_request_str("Stash message must be 500 characters or fewer"));
    }
    Ok(())
}

/// There is something `stash push` would take: tracked or staged changes,
/// or untracked files when they were asked for.
pub open spec fn stashable(tracked_clean: bool, index_clean: bool, untracked_listed: bool, include_untracked: bool) -> bool {
    !tracked_clean || !index_clean || (include_untracked && untracked_listed)
}

/// Staged changes alone are something to stash, whatever the worktree and
/// the untracked files say; so are unstaged changes to tracked files, and
/// listed untracked files when they were asked for. A clean worktree and
/// index with no untracked files to take leave nothing to stash.
pub proof fn lemma_stash_needs_a_change(
    tracked_clean: bool,
    index_clean: bool,
    untracked_listed: bool,
    include_untracked: bool,
)
    ensures
        !index_clean ==> stashable(tracked_clean, index_clean, untracked_listed, include_untracked),
        !tracked_clean ==> stashable(tracked_clean, index_clean, untracked_listed, include_untracked),
        include_untracked && untracked_listed ==> stashable(
            tracked_clean,
            index_clean,
            untracked_listed,
            include_untracked,
        ),
        tracked_clean && index_clean && !untracked_listed ==> !stashable(
            tracked_clean,
            index_clean,
            untracked_listed,
            include_untracked,
        ),
        tracked_clean && index_clean && !include_untracked ==> !stashable(
            tracked_clean,
            index_clean,
            untracked_listed,
            include_untracked,
        ),
{
}

pub fn worktree_dirty(
    tracked_clean: bool,
    index_clean: bool,
    untracked_listed: bool,
    include_untracked: bool,
) -> (r: bool)
    ensures
        r == stashable(tracked_clean, index_clean, untracked_listed, include_untracked),
{
    !tracked_clean || !index_clean || (include_untracked && untracked_listed)
}

/// `git stash push [-m <message>] [--include-untracked]`; never `--all`, so
/// ignored files stay out.
pub fn stash_push_argv(message: &str, include_untracked: bool) -> (r: Vec<String>)
    ensures
        string_views(r@) == seq!["stash"@, "push"@] + (if message@.len() > 0 {
            seq!["-m"@, message@]
        } else {
            Seq::empty()
        }) + (if include_untracked {
            seq!["--include-untracked"@]
        } else {
            Seq::empty()
        }),
{
    let mut argv: Vec<String> = Vec::new();
    argv.push(string_lit("stash"));
    argv.push(string_lit("push"));
    if !message.is_empty() {
        argv.push(string_lit("-m"));
        argv.push(string_lit(message));
    }
    if include_untracked {
        argv.push(string_lit("--include-untracked"));
    }
    assert(string_views(argv@) =~= seq!["stash"@, "push"@] + (if message@.len() > 0 {
        seq!["-m"@, message@]
    } else {
        Seq::empty()
    }) + (if include_untracked {
        seq!["--include-untracked"@]
    } else {
        Seq::empty()
    }));
    argv
}

// ---------------------------------------------------------------------------
// Apply and pop
// ---------------------------------------------------------------------------

/// The entry still resolves to the oid the UI saw.
pub fn check_stash_identity(actual: Option<&str>, expected_oid: &str) -> (r: Result<(), AppError>)
    ensures
        r is Ok <==> (actual matches Some(a) && a@ == expected_oid@),
        r matches Err(e) ==> is_error(
            e,
            ErrorCode::STALE_STATE,
            "The repository changed under you; refresh and retry"@,
            RecoveryAction::Refresh,
            false,
        ),
{
    match actual {
        Some(a) => {
            if str_eq(a, expected_oid) {
                return Ok(());
            }
            Err(stale_state())
        },
        None => Err(stale_state()),
    }
}

/// A failed `git stash apply`: with unmerged entries it is a conflict that
/// keeps the stash (`Ok(())`, the state turns `StashConflict`), otherwise a
/// plain failure.
pub fn apply_failure(unmerged: bool) -> (r: Result<(), AppError>)
    ensures
        r is Ok <==> unmerged,
        r matches Err(e) ==> is_error(
            e,
            ErrorCode::GIT_ERROR,
            "Git could not finish the stash operation"@,
            RecoveryAction::Refresh,
            true,
        ),
{
    if unmerged {
        Ok(())
    } else {
        Err(stash_failed())
    }
}

pub open spec fn lists_oid(entries: Seq<StashEntry>, oid: Seq<char>) -> bool {
    exists|i: int| 0 <= i < entries.len() && (#[trigger] entries[i]).oid@ == oid
}

/// After a clean apply: whether the entry stays, and the partial-pop error
/// when a pop's drop failed or did not take the applied entry.
pub fn after_apply(
    mode: StashApplyMode,
    drop_ok: bool,
    remaining: &[StashEntry],
    expected_oid: &str,
) -> (r: (bool, Option<AppError>))
    ensures
        mode == StashApplyMode::Apply ==> r.0 && r.1 is None,
        mode == StashApplyMode::Pop ==> {
            let failed = !drop_ok || lists_oid(remaining@, expected_oid@);
            &&& r.0 == failed
            &&& (failed ==> (r.1 matches Some(e) && is_error(
                e,
                ErrorCode::GIT_ERROR,
                "Stash applied, but dropping the entry failed; it was kept"@,
                RecoveryAction::Refresh,
                true,
            )))
            &&& (!failed ==> r.1 is None)
        },
{
    if mode == StashApplyMode::Apply {
        return (true, None);
    }
    let mut still = false;
    let mut i: usize = 0;
    while i < remaining.len()
        invariant
            i <= remaining@.len(),
            still == exists|k: int| 0 <= k < i && (#[trigger] remaining@[k]).oid@ == expected_oid@,
        decreases remaining.len() - i,
    {
        if str_eq(remaining[i].oid.as_str(), expected_oid) {
            still = true;
        }
        i += 1;
    }
    if !drop_ok || still {
        return (
            true,
            Some(
                AppError::new(
                    ErrorCode::GIT_ERROR,
                    string_lit("Stash applied, but dropping the entry failed; it was kept"),
                    RecoveryAction::Refresh,
                    true,
                ),
            ),
        );
    }
    (false, None)
}

} // verus!
