//! Merges and the conflict inspector.
//!
//! A merge starts only from a branch HEAD with a tracked-clean worktree, no
//! merge in flight, and an exact ref or commit as source; `--no-ff
//! --no-commit` always stops for review. Conflicts are read from the
//! unmerged index stages (base 1, current 2, incoming 3); a missing stage
//! is valid and never synthesized. Whole-file accept covers regular text
//! conflicts only; symlinks, submodules, binaries and unusual modes get
//! external guidance. Abort is offered only for merges the app started.

use vstd::prelude::*;
use crate::text::{starts_with};
use crate::domain::RepoSnapshot;
use crate::error::{bad_request_str, is_error, stale_state, AppError, ErrorCode, RecoveryAction, RequestId};
use crate::num::{dec, dec_string, hex_fixed, hex_fixed_chars};
use crate::text::{
    all_hex, chars_of, concat2, concat3, is_whitespace, seq_eq, str_eq, str_exceeds, string_lit,
    string_of, trim, trim_str, utf8_len,
};

verus! {

pub const MAX_SUBJECT_CHARS: usize = 500;

pub const MAX_BODY_BYTES: usize = 65536;

pub const PREVIEW_CAP_BYTES: usize = 32768;

// ---------------------------------------------------------------------------
// Bytes that Git hands back
// ---------------------------------------------------------------------------

/// What `String::from_utf8_lossy` makes of a byte string.
pub uninterp spec fn utf8_lossy(bytes: Seq<u8>) -> Seq<char>;

pub open spec fn all_ascii(bytes: Seq<u8>) -> bool {
    forall|i: int| 0 <= i < bytes.len() ==> (#[trigger] bytes[i]) < 128
}

pub open spec fn ascii_chars(bytes: Seq<u8>) -> Seq<char> {
    bytes.map_values(|b: u8| b as char)
}

/// `String::from_utf8_lossy(bytes).into_owned()`: the bytes decoded as
/// UTF-8 with every invalid sequence replaced by U+FFFD. Claimed: the
/// result is the name `utf8_lossy` of the bytes, and ASCII bytes (valid
/// UTF-8) decode to the same chars.
#[verifier::external_body]
pub(crate) fn lossy_string(bytes: &[u8]) -> (r: String)
    ensures
        r@ == utf8_lossy(bytes@),
        all_ascii(bytes@) ==> r@ == ascii_chars(bytes@),
{
    String::from_utf8_lossy(bytes).into_owned()
}

/// The merge module's own Git failure.
pub fn merge_failed() -> (e: AppError)
    ensures
        is_error(
            e,
            ErrorCode::GIT_ERROR,
            "Git could not finish the merge operation"@,
            RecoveryAction::Refresh,
            true,
        ),
{
    AppError::new(
        ErrorCode::GIT_ERROR,
        string_lit("Git could not finish the merge operation"),
        RecoveryAction::Refresh,
        true,
    )
}

// ---------------------------------------------------------------------------
// Unmerged index entries
// ---------------------------------------------------------------------------

/// One conflicted path with its surviving stages: `(mode, oid)` for stages
/// 1..=3, `None` for an absent stage. Slot 0 is unused.
#[derive(Debug, Clone, PartialEq, Eq)]
pub struct UnmergedEntry {
    pub path: Vec<u8>,
    pub stages: [Option<(String, String)>; 4],
}

impl UnmergedEntry {
    /// Which of stages 1..=3 survived (slot 0 is always `false`).
    pub fn present(&self) -> (r: [bool; 4])
        ensures
            r@ == seq![
                false,
                self.stages@[1] is Some,
                self.stages@[2] is Some,
                self.stages@[3] is Some,
            ],
    {
        let r = [false, self.stages[1].is_some(), self.stages[2].is_some(), self.stages[3].is_some()];
        assert(r@ =~= seq![
            false,
            self.stages@[1] is Some,
            self.stages@[2] is Some,
            self.stages@[3] is Some,
        ]);
        r
    }
}

pub fn is_binary(bytes: &[u8]) -> (r: bool)
    ensures
        r == bytes@.contains(0u8),
{
    let mut i: usize = 0;
    while i < bytes.len()
        invariant
            i <= bytes@.len(),
            forall|k: int| 0 <= k < i ==> bytes@[k] != 0u8,
        decreases bytes.len() - i,
    {
        if bytes[i] == 0 {
            assert(bytes@[i as int] == 0u8);
            return true;
        }
        i += 1;
    }
    false
}

/// Some stage (slot 0 included) has mode `m`.
pub open spec fn has_mode(e: UnmergedEntry, m: Seq<char>) -> bool {
    exists|i: int| 0 <= i < 4 && ((#[trigger] e.stages@[i]) matches Some(p) && p.0@ == m)
}

/// Some stage has a mode outside the regular-file family `100…`.
pub open spec fn has_odd_mode(e: UnmergedEntry) -> bool {
    exists|i: int|
        0 <= i < 4 && ((#[trigger] e.stages@[i]) matches Some(p) && !starts_with(p.0@, "100"@))
}

pub open spec fn some_binary(t: Seq<Option<bool>>) -> bool {
    t.contains(Some(false))
}

/// The classification of a conflict: kind, whether the app can resolve it
/// whole-file, and the external guidance when it cannot.
pub open spec fn conflict_kind(e: UnmergedEntry, stage_text: Seq<Option<bool>>) -> (
    Seq<char>,
    bool,
    Seq<char>,
) {
    let p1 = e.stages@[1] is Some;
    let p2 = e.stages@[2] is Some;
    let p3 = e.stages@[3] is Some;
    if has_mode(e, "120000"@) {
        (
            "symlink"@,
            false,
            "Symlink conflicts need an external tool: inspect both targets, fix the link, then mark resolved."@,
        )
    } else if has_mode(e, "160000"@) {
        (
            "submodule"@,
            false,
            "Submodule conflicts need an external tool: pick the commit inside the submodule, then mark resolved."@,
        )
    } else if has_odd_mode(e) {
        (
            "unsupported"@,
            false,
            "Unusual file modes collided here; resolve this file outside the app, then mark resolved."@,
        )
    } else if some_binary(stage_text) {
        (
            "binary"@,
            false,
            "Binary files cannot be merged line-wise: keep one side with an external tool (or craft the bytes), then mark resolved."@,
        )
    } else if !p1 && p2 && p3 {
        ("text"@, true, Seq::empty())
    } else if p1 {
        if !p2 || !p3 {
            ("modifyDelete"@, true, Seq::empty())
        } else {
            ("text"@, true, Seq::empty())
        }
    } else {
        (
            "unsupported"@,
            false,
            "Missing base with an unusual stage mix; resolve outside the app, then mark resolved."@,
        )
    }
}

/// Every stage that is present carries a regular-file mode: six characters
/// beginning with `100` (such as `100644` or `100755`).
pub open spec fn regular_modes(e: UnmergedEntry) -> bool {
    forall|i: int|
        0 <= i < 4 ==> ((#[trigger] e.stages@[i]) matches Some(p) ==> p.0@.len() == 6 && p.0@[0]
            == '1' && p.0@[1] == '0' && p.0@[2] == '0')
}

/// A conflict between regular files, none of whose sides is binary, can be
/// resolved whole-file in the app, and its kind follows the stages alone:
/// both sides added the file with no base (add/add) or both sides changed a
/// base give a text conflict; a base that one side deleted gives a
/// modify/delete conflict. Nothing guides the user outside the app then.
/// With no base and at most one side, the stage mix is left to an outside
/// tool.
pub proof fn lemma_regular_conflict_kind(e: UnmergedEntry, stage_text: Seq<Option<bool>>)
    requires
        regular_modes(e),
        forall|k: int| 0 <= k < stage_text.len() ==> stage_text[k] != Some(false),
    ensures
        !(e.stages@[1] is Some) && e.stages@[2] is Some && e.stages@[3] is Some ==> conflict_kind(e, stage_text) == ("text"@, true, Seq::<char>::empty()),
        e.stages@[1] is Some && e.stages@[2] is Some && e.stages@[3] is Some ==> conflict_kind(e, stage_text)
            == ("text"@, true, Seq::<char>::empty()),
        e.stages@[1] is Some && !(e.stages@[2] is Some && e.stages@[3] is Some) ==> conflict_kind(
            e,
            stage_text,
        ) == ("modifyDelete"@, true, Seq::<char>::empty()),
        !(e.stages@[1] is Some) && !(e.stages@[2] is Some && e.stages@[3] is Some) ==> conflict_kind(
            e,
            stage_text,
        ).0 == "unsupported"@ && !conflict_kind(e, stage_text).1,
{
    reveal_strlit("120000");
    reveal_strlit("160000");
    reveal_strlit("100");
    assert(!has_mode(e, "120000"@)) by {
        if has_mode(e, "120000"@) {
            let i = choose|i: int|
                0 <= i < 4 && ((#[trigger] e.stages@[i]) matches Some(p) && p.0@ == "120000"@);
            assert(e.stages@[i] is Some);
            let p = e.stages@[i]->0;
            assert(p.0@[1] == '2');
        }
    }
    assert(!has_mode(e, "160000"@)) by {
        if has_mode(e, "160000"@) {
            let i = choose|i: int|
                0 <= i < 4 && ((#[trigger] e.stages@[i]) matches Some(p) && p.0@ == "160000"@);
            assert(e.stages@[i] is Some);
            let p = e.stages@[i]->0;
            assert(p.0@[1] == '6');
        }
    }
    assert(!has_odd_mode(e)) by {
        if has_odd_mode(e) {
            let i = choose|i: int|
                0 <= i < 4 && ((#[trigger] e.stages@[i]) matches Some(p) && !starts_with(
                    p.0@,
                    "100"@,
                ));
            assert(e.stages@[i] is Some);
            let p = e.stages@[i]->0;
            assert(p.0@.take(3) =~= "100"@);
        }
    }
    assert(!some_binary(stage_text)) by {
        if stage_text.contains(Some(false)) {
            let k = choose|k: int| 0 <= k < stage_text.len() && stage_text[k] == Some(false);
        }
    }
}

/// The mode of stage `i`, when that stage is present.
pub open spec fn stage_mode(e: UnmergedEntry, i: int) -> Option<Seq<char>> {
    match e.stages@[i] {
        Some(p) => Some(p.0@),
        None => None,
    }
}

/// What the app leaves to an outside tool: a symlink on any side makes a
/// symlink conflict; a submodule (and no symlink) a submodule conflict; a
/// side of regular files holding binary content a binary conflict. Such a
/// conflict is never resolvable in the app, and whatever the kind, the
/// conflict carries guidance for the outside tool exactly when the app
/// cannot resolve it.
pub proof fn lemma_conflict_kind_outside_app(e: UnmergedEntry, stage_text: Seq<Option<bool>>)
    ensures
        (exists|i: int| 0 <= i < 4 && #[trigger] stage_mode(e, i) == Some("120000"@)) ==> conflict_kind(e, stage_text).0 == "symlink"@ && !conflict_kind(e, stage_text).1,
        (forall|i: int| 0 <= i < 4 ==> #[trigger] stage_mode(e, i) != Some("120000"@)) && (exists|i: int|
            0 <= i < 4 && #[trigger] stage_mode(e, i) == Some("160000"@)) ==> conflict_kind(e, stage_text).0 == "submodule"@ && !conflict_kind(e, stage_text).1,
        regular_modes(e) && (exists|k: int| 0 <= k < stage_text.len() && stage_text[k] == Some(false))
            ==> conflict_kind(e, stage_text).0 == "binary"@ && !conflict_kind(e, stage_text).1,
        conflict_kind(e, stage_text).1 <==> conflict_kind(e, stage_text).2.len() == 0,
{
    reveal_strlit("120000");
    reveal_strlit("160000");
    reveal_strlit("100");
    if regular_modes(e) {
        assert(!has_mode(e, "120000"@)) by {
            if has_mode(e, "120000"@) {
                let i = choose|i: int|
                    0 <= i < 4 && ((#[trigger] e.stages@[i]) matches Some(p) && p.0@ == "120000"@);
                assert(e.stages@[i] is Some);
                let p = e.stages@[i]->0;
                assert(p.0@[1] == '2');
            }
        }
        assert(!has_mode(e, "160000"@)) by {
            if has_mode(e, "160000"@) {
                let i = choose|i: int|
                    0 <= i < 4 && ((#[trigger] e.stages@[i]) matches Some(p) && p.0@ == "160000"@);
                assert(e.stages@[i] is Some);
                let p = e.stages@[i]->0;
                assert(p.0@[1] == '6');
            }
        }
        assert(!has_odd_mode(e)) by {
            if has_odd_mode(e) {
                let i = choose|i: int|
                    0 <= i < 4 && ((#[trigger] e.stages@[i]) matches Some(p) && !starts_with(
                        p.0@,
                        "100"@,
                    ));
                assert(e.stages@[i] is Some);
                let p = e.stages@[i]->0;
                assert(p.0@.take(3) =~= "100"@);
            }
        }
        if exists|k: int| 0 <= k < stage_text.len() && stage_text[k] == Some(false) {
            let k = choose|k: int| 0 <= k < stage_text.len() && stage_text[k] == Some(false);
            assert(stage_text.contains(Some(false)));
        }
    }
    if exists|i: int| 0 <= i < 4 && #[trigger] stage_mode(e, i) == Some("120000"@) {
        let i = choose|i: int| 0 <= i < 4 && #[trigger] stage_mode(e, i) == Some("120000"@);
        assert(e.stages@[i] is Some);
        assert(has_mode(e, "120000"@));
    } else {
        assert forall|i: int| 0 <= i < 4 implies !((#[trigger] e.stages@[i]) matches Some(p) && p.0@
            == "120000"@) by {
            assert(stage_mode(e, i) != Some("120000"@));
        }
        if exists|i: int| 0 <= i < 4 && #[trigger] stage_mode(e, i) == Some("160000"@) {
            let i = choose|i: int| 0 <= i < 4 && #[trigger] stage_mode(e, i) == Some("160000"@);
            assert(e.stages@[i] is Some);
            assert(has_mode(e, "160000"@));
        }
    }
    reveal_strlit(
        "Symlink conflicts need an external tool: inspect both targets, fix the link, then mark resolved.",
    );
    reveal_strlit(
        "Submodule conflicts need an external tool: pick the commit inside the submodule, then mark resolved.",
    );
    reveal_strlit(
        "Unusual file modes collided here; resolve this file outside the app, then mark resolved.",
    );
    reveal_strlit(
        "Binary files cannot be merged line-wise: keep one side with an external tool (or craft the bytes), then mark resolved.",
    );
    reveal_strlit(
        "Missing base with an unusual stage mix; resolve outside the app, then mark resolved.",
    );
}

fn mode_is(e: &UnmergedEntry, m: &str) -> (r: bool)
    ensures
        r == has_mode(*e, m@),
{
    let mut i: usize = 0;
    while i < 4
        invariant
            i <= 4,
            forall|k: int| 0 <= k < i ==> !((#[trigger] e.stages@[k]) matches Some(p) && p.0@ == m@),
        decreases 4 - i,
    {
        match &e.stages[i] {
            Some(p) => {
                if str_eq(p.0.as_str(), m) {
                    assert(e.stages@[i as int] matches Some(q) && q.0@ == m@);
                    return true;
                }
            },
            None => {},
        }
        i += 1;
    }
    false
}

fn odd_mode(e: &UnmergedEntry) -> (r: bool)
    ensures
        r == has_odd_mode(*e),
{
    let mut i: usize = 0;
    let pre = chars_of("100");
    while i < 4
        invariant
            i <= 4,
            pre@ == "100"@,
            forall|k: int|
                0 <= k < i ==> !((#[trigger] e.stages@[k]) matches Some(p) && !starts_with(
                    p.0@,
                    "100"@,
                )),
        decreases 4 - i,
    {
        match &e.stages[i] {
            Some(p) => {
                let m = chars_of(p.0.as_str());
                if !crate::text::has_prefix(&m, &pre) {
                    assert(e.stages@[i as int] matches Some(q) && !starts_with(q.0@, "100"@));
                    return true;
                }
            },
            None => {},
        }
        i += 1;
    }
    false
}

fn any_binary_stage(t: &[Option<bool>]) -> (r: bool)
    ensures
        r == some_binary(t@),
{
    let mut i: usize = 0;
    while i < t.len()
        invariant
            i <= t@.len(),
            forall|k: int| 0 <= k < i ==> t@[k] != Some(false),
        decreases t.len() - i,
    {
        if let Some(false) = t[i] {
            assert(t@[i as int] == Some(false));
            return true;
        }
        i += 1;
    }
    false
}

pub fn kind_of(entry: &UnmergedEntry, stage_text: &[Option<bool>]) -> (r: (&'static str, bool, String))
    ensures
        (r.0@, r.1, r.2@) == conflict_kind(*entry, stage_text@),
{
    if mode_is(entry, "120000") {
        return (
            "symlink",
            false,
            string_lit(
                "Symlink conflicts need an external tool: inspect both targets, fix the link, then mark resolved.",
            ),
        );
    }
    if mode_is(entry, "160000") {
        return (
            "submodule",
            false,
            string_lit(
                "Submodule conflicts need an external tool: pick the commit inside the submodule, then mark resolved.",
            ),
        );
    }
    if odd_mode(entry) {
        return (
            "unsupported",
            false,
            string_lit(
                "Unusual file modes collided here; resolve this file outside the app, then mark resolved.",
            ),
        );
    }
    if any_binary_stage(stage_text) {
        return (
            "binary",
            false,
            string_lit(
                "Binary files cannot be merged line-wise: keep one side with an external tool (or craft the bytes), then mark resolved.",
            ),
        );
    }
    let present = entry.present();
    if !present[1] && present[2] && present[3] {
        return ("text", true, String::new());
    }
    if present[1] {
        if !present[2] || !present[3] {
            return ("modifyDelete", true, String::new());
        }
        return ("text", true, String::new());
    }
    (
        "unsupported",
        false,
        string_lit(
            "Missing base with an unusual stage mix; resolve outside the app, then mark resolved.",
        ),
    )
}

// ---------------------------------------------------------------------------
// Working-file fingerprint
// ---------------------------------------------------------------------------

pub open spec fn fnv_prime() -> u64 {
    0x100000001b3
}

pub open spec fn wrap_mul(x: u64, y: u64) -> u64 {
    ((x as nat * y as nat) % 0x1_0000_0000_0000_0000nat) as u64
}

/// FNV-1a over the bytes.
pub open spec fn fnv1a(bytes: Seq<u8>) -> u64
    decreases bytes.len(),
{
    if bytes.len() == 0 {
        0xcbf29ce484222325
    } else {
        wrap_mul(fnv1a(bytes.drop_last()) ^ (bytes.last() as u64), fnv_prime())
    }
}

/// The hash, with the length mixed in last.
pub open spec fn fingerprint_hash(bytes: Seq<u8>) -> u64 {
    wrap_mul(fnv1a(bytes) ^ (bytes.len() as u64), fnv_prime())
}

/// `{hash:016x}:{len}`: a cheap change detector, not a security hash.
pub open spec fn fingerprint_text(bytes: Seq<u8>) -> Seq<char> {
    hex_fixed(fingerprint_hash(bytes) as nat, 16, false) + ":"@ + dec(bytes.len())
}

pub fn fingerprint(bytes: &[u8]) -> (r: String)
    ensures
        r@ == fingerprint_text(bytes@),
{
    let mut hash: u64 = 0xcbf29ce484222325;
    let mut i: usize = 0;
    while i < bytes.len()
        invariant
            i <= bytes@.len(),
            hash == fnv1a(bytes@.take(i as int)),
        decreases bytes.len() - i,
    {
        proof {
            assert(bytes@.take(i + 1).drop_last() =~= bytes@.take(i as int));
        }
        hash = hash ^ (bytes[i] as u64);
        hash = hash.wrapping_mul(0x100000001b3);
        i += 1;
    }
    assert(bytes@.take(bytes.len() as int) =~= bytes@);
    hash = hash ^ (bytes.len() as u64);
    hash = hash.wrapping_mul(0x100000001b3);
    let h = hex_fixed_chars(hash, 16, false);
    let hs = string_of(h.as_slice());
    let n = dec_string(bytes.len() as u64);
    concat3(hs.as_str(), ":", n.as_str())
}

// ---------------------------------------------------------------------------
// Previews and labels
// ---------------------------------------------------------------------------

#[derive(Debug, Clone, PartialEq, Eq)]
pub struct StagePreview {
    /// Lossy text of the stage blob, truncated at the preview cap.
    pub text: String,
    pub truncated: bool,
}

/// The first 32 KiB of a stage blob as lossy text.
pub fn preview_of(bytes: &[u8]) -> (r: StagePreview)
    ensures
        r.truncated == (bytes@.len() > PREVIEW_CAP_BYTES),
        r.text@ == utf8_lossy(
            if r.truncated {
                bytes@.take(PREVIEW_CAP_BYTES as int)
            } else {
                bytes@
            },
        ),
{
    let truncated = bytes.len() > PREVIEW_CAP_BYTES;
    let text = if truncated {
        let slice = vstd::slice::slice_subrange(bytes, 0, PREVIEW_CAP_BYTES);
        assert(slice@ =~= bytes@.take(PREVIEW_CAP_BYTES as int));
        lossy_string(slice)
    } else {
        lossy_string(bytes)
    };
    StagePreview { text, truncated }
}

/// The bookkeeping of a merge the app started, kept outside the repository.
#[derive(Debug, Clone, PartialEq, Eq)]
pub struct MergeRecord {
    pub pre_head: String,
    pub source_oid: String,
    pub source_label: String,
    pub current_label: String,
}

/// An owned copy of an optional merge record.
pub fn copy_merge_record_opt(r: &Option<MergeRecord>) -> (c: Option<MergeRecord>)
    ensures
        c == *r,
{
    match r {
        Some(m) => Some(
            MergeRecord {
                pre_head: m.pre_head.clone(),
                source_oid: m.source_oid.clone(),
                source_label: m.source_label.clone(),
                current_label: m.current_label.clone(),
            },
        ),
        None => None,
    }
}

/// The labels of the two sides: from the merge record, else the fallback
/// name and `incoming`.
pub fn side_labels(record: Option<&MergeRecord>, fallback_current: &str) -> (r: (String, String))
    ensures
        match record {
            Some(m) => r.0@ == m.current_label@ && r.1@ == m.source_label@,
            None => r.0@ == fallback_current@ && r.1@ == "incoming"@,
        },
{
    match record {
        Some(m) => (m.current_label.clone(), m.source_label.clone()),
        None => (string_lit(fallback_current), string_lit("incoming")),
    }
}

// ---------------------------------------------------------------------------
// Wire types
// ---------------------------------------------------------------------------

#[derive(Debug, Clone, PartialEq, Eq)]
pub struct ConflictFile {
    pub path_id: String,
    pub display_path: String,
    /// "text" | "addAdd" | "modifyDelete" | "binary" | "symlink" |
    /// "submodule" | "unsupported".
    pub kind: String,
    pub has_base: bool,
    pub has_current: bool,
    pub has_incoming: bool,
    pub supported: bool,
    pub support_reason: Option<String>,
}

#[derive(Debug, Clone, PartialEq, Eq)]
pub struct ConflictList {
    pub files: Vec<ConflictFile>,
    pub can_complete: bool,
    pub can_abort: bool,
    pub abort_reason: Option<String>,
}

#[derive(Debug, Clone, PartialEq, Eq)]
pub struct ConflictPreview {
    pub path_id: String,
    pub display_path: String,
    pub base: Option<StagePreview>,
    pub current: Option<StagePreview>,
    pub incoming: Option<StagePreview>,
    pub working_fingerprint: String,
    pub supported_actions: Vec<String>,
    pub support_reason: Option<String>,
    pub current_label: String,
    pub incoming_label: String,
}

#[derive(Debug, Clone, PartialEq, Eq)]
pub struct MergeStartResult {
    pub snapshot: RepoSnapshot,
    pub conflicted: bool,
    pub already_up_to_date: bool,
}

#[derive(Debug, Clone, PartialEq, Eq)]
pub struct MergeCompleteResult {
    pub oid: String,
    pub snapshot: RepoSnapshot,
}

#[derive(Debug, Clone, PartialEq, Eq)]
pub struct ConflictAcceptResult {
    pub snapshot: RepoSnapshot,
    pub working_fingerprint: String,
}

/// How a conflicted path is marked resolved.
#[derive(Debug, Clone, Copy, PartialEq, Eq, Structural)]
pub enum MarkResolution {
    WorkingFile,
    Deletion,
}

#[derive(Debug)]
pub struct MergeContext {
    pub request_id: RequestId,
    pub repo_id: String,
}

#[derive(Debug)]
pub struct MergeStartRequest {
    pub request_id: RequestId,
    pub repo_id: String,
    pub expected_version: u64,
    pub source_ref_id: String,
    pub confirmed_target_oid: String,
}

#[derive(Debug)]
pub struct MergeCompleteRequest {
    pub request_id: RequestId,
    pub repo_id: String,
    pub expected_version: u64,
    pub subject: String,
    pub body: String,
    pub staged_reviewed: bool,
    pub confirmed_head_oid: String,
}

#[derive(Debug)]
pub struct MergeAbortRequest {
    pub request_id: RequestId,
    pub repo_id: String,
    pub expected_version: u64,
    pub confirmation_token: String,
}

#[derive(Debug)]
pub struct ConflictPreviewRequest {
    pub request_id: RequestId,
    pub repo_id: String,
    pub path_id: String,
}

#[derive(Debug)]
pub struct ConflictAcceptRequest {
    pub request_id: RequestId,
    pub repo_id: String,
    pub expected_version: u64,
    pub path_id: String,
    pub side: String,
    pub working_fingerprint: String,
    pub confirmation_token: String,
}

#[derive(Debug)]
pub struct ConflictResolveRequest {
    pub request_id: RequestId,
    pub repo_id: String,
    pub expected_version: u64,
    pub path_id: String,
    pub working_fingerprint: String,
    pub resolution: MarkResolution,
}

// ---------------------------------------------------------------------------
// Listing and previewing conflicts
// ---------------------------------------------------------------------------

/// One row of the conflict list.
pub fn conflict_file(entry: &UnmergedEntry, stage_text: &[Option<bool>], path_id: String) -> (r:
    ConflictFile)
    ensures
        ({
            let k = conflict_kind(*entry, stage_text@);
            &&& r.path_id == path_id
            &&& r.display_path@ == utf8_lossy(entry.path@)
            &&& r.kind@ == k.0
            &&& r.has_base == (entry.stages@[1] is Some)
            &&& r.has_current == (entry.stages@[2] is Some)
            &&& r.has_incoming == (entry.stages@[3] is Some)
            &&& r.supported == k.1
            &&& (if k.1 {
                r.support_reason is None
            } else {
                r.support_reason matches Some(m) && m@ == k.2
            })
        }),
{
    let (kind, supported, reason) = kind_of(entry, stage_text);
    let present = entry.present();
    ConflictFile {
        path_id,
        display_path: lossy_string(entry.path.as_slice()),
        kind: string_lit(kind),
        has_base: present[1],
        has_current: present[2],
        has_incoming: present[3],
        supported,
        support_reason: if supported {
            None
        } else {
            Some(reason)
        },
    }
}

/// Abort is offered only for a live merge the app started; otherwise the
/// reason says why not.
pub fn abort_offer(record_present: bool, live_merge: bool) -> (r: (bool, Option<String>))
    ensures
        r.0 == (record_present && live_merge),
        record_present && live_merge ==> r.1 is None,
        record_present && !live_merge ==> (r.1 matches Some(m) && m@
            == "The merge marker is gone; the merge already ended."@),
        !record_present && live_merge ==> (r.1 matches Some(m) && m@
            == "This merge was not started by the app; finish or abort it in the terminal so nothing unrecoverable is lost."@),
        !record_present && !live_merge ==> r.1 is None,
{
    if record_present && live_merge {
        (true, None)
    } else if record_present {
        (false, Some(string_lit("The merge marker is gone; the merge already ended.")))
    } else if live_merge {
        (
            false,
            Some(
                string_lit(
                    "This merge was not started by the app; finish or abort it in the terminal so nothing unrecoverable is lost.",
                ),
            ),
        )
    } else {
        (false, None)
    }
}

/// The conflict list: completing needs a live merge with no unmerged
/// entry left.
pub fn conflict_list_of(
    files: Vec<ConflictFile>,
    no_unmerged: bool,
    live_merge: bool,
    record_present: bool,
) -> (r: ConflictList)
    ensures
        r.files@ == files@,
        r.can_complete == (live_merge && no_unmerged),
        (r.can_abort, r.abort_reason) == (if record_present && live_merge {
            (true, None::<String>)
        } else {
            (false, r.abort_reason)
        }),
        record_present && !live_merge ==> (r.abort_reason matches Some(m) && m@
            == "The merge marker is gone; the merge already ended."@),
        !record_present && live_merge ==> (r.abort_reason matches Some(m) && m@
            == "This merge was not started by the app; finish or abort it in the terminal so nothing unrecoverable is lost."@),
        !record_present && !live_merge ==> r.abort_reason is None,
{
    let (can_abort, abort_reason) = abort_offer(record_present, live_merge);
    ConflictList { files, can_complete: live_merge && no_unmerged, can_abort, abort_reason }
}

/// The sides a whole-file accept may take: only surviving stages of a
/// supported conflict (a missing side means deletion).
pub fn supported_actions(entry: &UnmergedEntry, supported: bool) -> (r: Vec<String>)
    ensures
        r@.len() == (if supported && entry.stages@[2] is Some {
            1int
        } else {
            0
        }) + (if supported && entry.stages@[3] is Some {
            1int
        } else {
            0
        }),
        supported && entry.stages@[2] is Some ==> r@[0]@ == "current"@,
        supported && entry.stages@[3] is Some ==> r@[r@.len() - 1]@ == "incoming"@,
{
    let mut actions: Vec<String> = Vec::new();
    if supported {
        if entry.stages[2].is_some() {
            actions.push(string_lit("current"));
        }
        if entry.stages[3].is_some() {
            actions.push(string_lit("incoming"));
        }
    }
    actions
}

// ---------------------------------------------------------------------------
// Whole-file accept and mark-resolved
// ---------------------------------------------------------------------------

/// `current` takes stage 2, `incoming` stage 3.
pub fn accept_side_stage(side: &str) -> (r: Result<usize, AppError>)
    ensures
        side@ == "current"@ ==> r == Ok::<usize, AppError>(2),
        side@ == "incoming"@ ==> r == Ok::<usize, AppError>(3),
        side@ != "current"@ && side@ != "incoming"@ ==> (r matches Err(e) && is_error(
            e,
            ErrorCode::INVALID_ARGUMENT,
            "Resolution side must be current or incoming"@,
            RecoveryAction::InspectState,
            false,
        )),
{
    proof {
        reveal_strlit("current");
        reveal_strlit("incoming");
        assert("current"@[0] != "incoming"@[0]);
    }
    if str_eq(side, "current") {
        Ok(2)
    } else if str_eq(side, "incoming") {
        Ok(3)
    } else {
        Err(bad_request_str("Resolution side must be current or incoming"))
    }
}

/// Whole-file accept writes supported text conflicts only.
pub fn check_accept_kind(kind: &str, supported: bool) -> (r: Result<(), AppError>)
    ensures
        r is Ok <==> supported && kind@ == "text"@,
        r matches Err(e) ==> is_error(
            e,
            ErrorCode::INVALID_ARGUMENT,
            "Whole-file accept covers supported text conflicts only"@,
            RecoveryAction::InspectState,
            false,
        ),
{
    if !supported || !str_eq(kind, "text") {
        return Err(bad_request_str("Whole-file accept covers supported text conflicts only"));
    }
    Ok(())
}

/// The same rule, worded for the confirmation summary.
pub fn check_summary_kind(kind: &str, supported: bool) -> (r: Result<(), AppError>)
    ensures
        r is Ok <==> supported && kind@ == "text"@,
        r matches Err(e) ==> is_error(
            e,
            ErrorCode::INVALID_ARGUMENT,
            "Whole-file accept covers supported text conflicts only; use mark-resolved after an external resolution"@,
            RecoveryAction::InspectState,
            false,
        ),
{
    if !supported || !str_eq(kind, "text") {
        return Err(
            bad_request_str(
                "Whole-file accept covers supported text conflicts only; use mark-resolved after an external resolution",
            ),
        );
    }
    Ok(())
}

/// The chosen side must have survived; a missing side is a deletion.
pub fn check_side_present(entry: &UnmergedEntry, stage: usize) -> (r: Result<(), AppError>)
    requires
        stage < 4,
    ensures
        r is Ok <==> entry.stages@[stage as int] is Some,
        r matches Err(e) ==> is_error(
            e,
            ErrorCode::INVALID_ARGUMENT,
            "That side deleted the file; resolve it as a deletion instead"@,
            RecoveryAction::InspectState,
            false,
        ),
{
    if entry.stages[stage].is_none() {
        return Err(bad_request_str("That side deleted the file; resolve it as a deletion instead"));
    }
    Ok(())
}

/// The text of the `conflict_accept` confirmation.
pub fn accept_summary_text(display: &str, label: &str, nbytes: u64, side: &str) -> (r: String)
    ensures
        r@ == "Overwrite working file '"@ + display@ + "' with the "@ + label@ + " version ("@
            + dec(nbytes as nat) + " bytes, "@ + side@
            + " stage). The current working content is lost; the file stays unstaged."@,
{
    let n = dec_string(nbytes);
    let mut r = concat3("Overwrite working file '", display, "' with the ");
    r.append(label);
    r.append(" version (");
    r.append(n.as_str());
    r.append(" bytes, ");
    r.append(side);
    r.append(" stage). The current working content is lost; the file stays unstaged.");
    r
}

/// Before overwriting: the working path exists and is a regular file.
pub fn check_accept_target(exists: bool, is_file: bool) -> (r: Result<(), AppError>)
    ensures
        r is Ok <==> exists && is_file,
        !exists ==> (r matches Err(e) && is_error(
            e,
            ErrorCode::INVALID_ARGUMENT,
            "Working file is missing; refresh and preview again"@,
            RecoveryAction::InspectState,
            false,
        )),
        exists && !is_file ==> (r matches Err(e) && is_error(
            e,
            ErrorCode::INVALID_ARGUMENT,
            "Working path is not a regular file; resolve it outside the app, then mark resolved"@,
            RecoveryAction::InspectState,
            false,
        )),
{
    if !exists {
        return Err(bad_request_str("Working file is missing; refresh and preview again"));
    }
    if !is_file {
        return Err(
            bad_request_str(
                "Working path is not a regular file; resolve it outside the app, then mark resolved",
            ),
        );
    }
    Ok(())
}

/// The working file still has the fingerprint the user reviewed.
pub fn check_fingerprint(current: &[u8], expected: &str) -> (r: Result<(), AppError>)
    ensures
        r is Ok <==> fingerprint_text(current@) == expected@,
        r matches Err(e) ==> is_error(
            e,
            ErrorCode::STALE_STATE,
            "The repository changed under you; refresh and retry"@,
            RecoveryAction::Refresh,
            false,
        ),
{
    let f = fingerprint(current);
    if !str_eq(f.as_str(), expected) {
        return Err(stale_state());
    }
    Ok(())
}

/// Marking the working file resolved: it exists and is a regular file.
pub fn check_mark_target(exists: bool, is_file: bool) -> (r: Result<(), AppError>)
    ensures
        r is Ok <==> exists && is_file,
        !exists ==> (r matches Err(e) && is_error(
            e,
            ErrorCode::INVALID_ARGUMENT,
            "Working file is missing; it cannot be staged as resolved"@,
            RecoveryAction::InspectState,
            false,
        )),
        exists && !is_file ==> (r matches Err(e) && is_error(
            e,
            ErrorCode::INVALID_ARGUMENT,
            "Only regular files stage through mark-resolved"@,
            RecoveryAction::InspectState,
            false,
        )),
{
    if !exists {
        return Err(bad_request_str("Working file is missing; it cannot be staged as resolved"));
    }
    if !is_file {
        return Err(bad_request_str("Only regular files stage through mark-resolved"));
    }
    Ok(())
}

/// A deletion is marked only once the file is gone; the backend never
/// deletes it.
pub fn check_deletion_done(exists: bool) -> (r: Result<(), AppError>)
    ensures
        r is Ok <==> !exists,
        r matches Err(e) ==> is_error(
            e,
            ErrorCode::INVALID_ARGUMENT,
            "The file still exists; remove it first (with explicit UI confirmation), then mark resolved as deletion"@,
            RecoveryAction::InspectState,
            false,
        ),
{
    if exists {
        return Err(
            bad_request_str(
                "The file still exists; remove it first (with explicit UI confirmation), then mark resolved as deletion",
            ),
        );
    }
    Ok(())
}

fn append_bytes(out: &mut Vec<u8>, b: &[u8])
    ensures
        final(out)@ == old(out)@ + b@,
{
    let mut i: usize = 0;
    let ghost start = out@;
    while i < b.len()
        invariant
            i <= b@.len(),
            out@ == start + b@.take(i as int),
        decreases b.len() - i,
    {
        out.push(b[i]);
        i += 1;
        assert(out@ =~= start + b@.take(i as int));
    }
    assert(b@.take(b@.len() as int) =~= b@);
}

/// `:(literal)<path>`: stages exactly this path, byte for byte.
pub fn literal_pathspec(path: &[u8]) -> (r: Vec<u8>)
    ensures
        r@ == seq![58u8, 40u8, 108u8, 105u8, 116u8, 101u8, 114u8, 97u8, 108u8, 41u8] + path@,
{
    let mut r: Vec<u8> = vec![58u8, 40u8, 108u8, 105u8, 116u8, 101u8, 114u8, 97u8, 108u8, 41u8];
    append_bytes(&mut r, path);
    r
}

/// `:<stage>:<path>`, the blob of one index stage.
pub fn stage_spec(stage: u8, path: &[u8]) -> (r: Vec<u8>)
    requires
        1 <= stage <= 3,
    ensures
        r@ == seq![58u8, (48 + stage) as u8, 58u8] + path@,
{
    let mut r: Vec<u8> = vec![58u8, 48 + stage, 58u8];
    append_bytes(&mut r, path);
    r
}

// ---------------------------------------------------------------------------
// The merge source
// ---------------------------------------------------------------------------

/// The request names a source of 1..=512 bytes.
pub fn check_source_id(source_ref_id: &str) -> (r: Result<(), AppError>)
    ensures
        r is Ok <==> source_ref_id@.len() > 0 && utf8_len(source_ref_id@) <= 512,
        r matches Err(e) ==> is_error(
            e,
            ErrorCode::INVALID_ARGUMENT,
            "Unknown merge source"@,
            RecoveryAction::InspectState,
            false,
        ),
{
    if source_ref_id.is_empty() || str_exceeds(source_ref_id, 512) {
        return Err(bad_request_str("Unknown merge source"));
    }
    Ok(())
}

/// The part after the last `/` (`rsplit('/').next()`).
pub open spec fn last_segment(s: Seq<char>) -> Seq<char> {
    match crate::text::last_where(s, crate::text::is_char('/')) {
        Some(i) => s.skip(i + 1),
        None => s,
    }
}

/// The source is a live ref (labelled by its last segment) or a 40-hex
/// commit id (labelled by its first twelve digits).
pub open spec fn merge_source(refs_stdout: Seq<char>, id: Seq<char>) -> Option<(Seq<char>, Seq<char>)> {
    if crate::lines::any_line_is(refs_stdout, id) {
        Some((id, last_segment(id)))
    } else if id.len() == 40 && all_hex(id) {
        Some((id, id.take(12)))
    } else {
        None
    }
}

pub fn pick_merge_source(refs_stdout: &str, source_ref_id: &str) -> (r: Result<
    (String, String),
    AppError,
>)
    ensures
        match merge_source(refs_stdout@, source_ref_id@) {
            Some(p) => r matches Ok(q) && q.0@ == p.0 && q.1@ == p.1,
            None => r matches Err(e) && is_error(
                e,
                ErrorCode::INVALID_ARGUMENT,
                "Merge source must be a current branch, tag or commit"@,
                RecoveryAction::InspectState,
                false,
            ),
        },
{
    let id = chars_of(source_ref_id);
    if crate::lines::any_line_equals(&chars_of(refs_stdout), &id) {
        let label = match crate::text::rfind_char(&id, '/') {
            Some(i) => crate::text::slice_of(&id, i + 1, id.len()),
            None => crate::text::slice_of(&id, 0, id.len()),
        };
        assert(label@ =~= last_segment(id@));
        return Ok((string_lit(source_ref_id), string_of(label.as_slice())));
    }
    if id.len() == 40 && crate::text::every_hex(&id) {
        let label = crate::text::slice_of(&id, 0, 12);
        assert(label@ =~= id@.take(12));
        return Ok((string_lit(source_ref_id), string_of(label.as_slice())));
    }
    Err(bad_request_str("Merge source must be a current branch, tag or commit"))
}

/// `{candidate}^{commit}`: pins the exact commit before merging.
pub fn source_commit_rev(candidate: &str) -> (r: String)
    ensures
        r@ == candidate@ + "^{commit}"@,
{
    concat2(candidate, "^{commit}")
}

/// The pinned commit id, or the error for a source that is no commit.
pub fn source_resolved(success: bool, stdout: &str) -> (r: Result<Vec<char>, AppError>)
    ensures
        success ==> (r matches Ok(o) && o@ == trim(stdout@)),
        !success ==> (r matches Err(e) && is_error(
            e,
            ErrorCode::INVALID_ARGUMENT,
            "Merge source does not resolve to a commit"@,
            RecoveryAction::InspectState,
            false,
        )),
{
    if !success {
        return Err(bad_request_str("Merge source does not resolve to a commit"));
    }
    Ok(trim_str(stdout))
}

// ---------------------------------------------------------------------------
// Starting a merge
// ---------------------------------------------------------------------------

pub fn check_no_merge_in_progress(live: bool) -> (r: Result<(), AppError>)
    ensures
        r is Ok <==> !live,
        r matches Err(e) ==> is_error(
            e,
            ErrorCode::INVALID_ARGUMENT,
            "A merge is already in progress; complete or abort it first"@,
            RecoveryAction::InspectState,
            false,
        ),
{
    if live {
        return Err(bad_request_str("A merge is already in progress; complete or abort it first"));
    }
    Ok(())
}

/// `git symbolic-ref -q --short HEAD` for a merge.
pub fn merge_head_branch(success: bool, stdout: &str) -> (r: Result<Vec<char>, AppError>)
    ensures
        success ==> (r matches Ok(b) && b@ == trim(stdout@)),
        !success ==> (r matches Err(e) && is_error(
            e,
            ErrorCode::INVALID_ARGUMENT,
            "Merges start from a branch HEAD; detached or unborn HEAD cannot merge"@,
            RecoveryAction::InspectState,
            false,
        )),
{
    if !success {
        return Err(
            bad_request_str("Merges start from a branch HEAD; detached or unborn HEAD cannot merge"),
        );
    }
    Ok(trim_str(stdout))
}

/// `git rev-parse HEAD` for a merge.
pub fn merge_head_oid(success: bool, stdout: &str) -> (r: Result<Vec<char>, AppError>)
    ensures
        success ==> (r matches Ok(b) && b@ == trim(stdout@)),
        !success ==> (r matches Err(e) && is_error(
            e,
            ErrorCode::INVALID_ARGUMENT,
            "Cannot read HEAD"@,
            RecoveryAction::InspectState,
            false,
        )),
{
    if !success {
        return Err(bad_request_str("Cannot read HEAD"));
    }
    Ok(trim_str(stdout))
}

/// HEAD is still the commit the user confirmed.
pub fn check_confirmed_head(head: &str, confirmed: &str) -> (r: Result<(), AppError>)
    ensures
        r is Ok <==> head@ == confirmed@,
        r matches Err(e) ==> is_error(
            e,
            ErrorCode::STALE_STATE,
            "The repository changed under you; refresh and retry"@,
            RecoveryAction::Refresh,
            false,
        ),
{
    if !str_eq(head, confirmed) {
        return Err(stale_state());
    }
    Ok(())
}

/// Tracked worktree and index are clean; untracked files never block.
pub fn check_tracked_clean(clean: bool) -> (r: Result<(), AppError>)
    ensures
        r is Ok <==> clean,
        r matches Err(e) ==> is_error(
            e,
            ErrorCode::DIRTY_WORKTREE,
            "Merges start from a clean worktree; stash or commit first"@,
            RecoveryAction::InspectState,
            false,
        ),
{
    if !clean {
        return Err(
            AppError::new(
                ErrorCode::DIRTY_WORKTREE,
                string_lit("Merges start from a clean worktree; stash or commit first"),
                RecoveryAction::InspectState,
                false,
            ),
        );
    }
    Ok(())
}

/// A failed merge without unmerged entries runs `merge --abort`: the
/// error, and whether the record is cleared (abort worked, no MERGE_HEAD).
pub fn merge_start_abort_outcome(abort_ok: bool, merge_head_live: bool) -> (r: (AppError, bool))
    ensures
        r.1 == (abort_ok && !merge_head_live),
        r.1 ==> is_error(
            r.0,
            ErrorCode::GIT_ERROR,
            "Git could not finish the merge operation"@,
            RecoveryAction::Refresh,
            true,
        ),
        !r.1 ==> is_error(
            r.0,
            ErrorCode::GIT_ERROR,
            "The merge failed and automatic cleanup did not finish; inspect the repository before retrying"@,
            RecoveryAction::InspectState,
            true,
        ),
{
    if abort_ok && !merge_head_live {
        return (merge_failed(), true);
    }
    (
        AppError::new(
            ErrorCode::GIT_ERROR,
            string_lit(
                "The merge failed and automatic cleanup did not finish; inspect the repository before retrying",
            ),
            RecoveryAction::InspectState,
            true,
        ),
        false,
    )
}

// ---------------------------------------------------------------------------
// Completing a merge
// ---------------------------------------------------------------------------

/// The request's message and review flag, checked before anything runs.
pub open spec fn merge_message_error(subject: Seq<char>, body: Seq<char>, reviewed: bool) -> Option<
    Seq<char>,
> {
    if trim(subject).len() == 0 {
        Some("A merge commit needs a subject"@)
    } else if subject.len() > MAX_SUBJECT_CHARS {
        Some("Merge subject exceeds 500 characters"@)
    } else if utf8_len(body) > MAX_BODY_BYTES {
        Some("Merge body exceeds 64 KiB"@)
    } else if !reviewed {
        Some("Review the staged merge result before completing"@)
    } else {
        None
    }
}

pub fn check_merge_message(subject: &str, body: &str, staged_reviewed: bool) -> (r: Result<
    (),
    AppError,
>)
    ensures
        match merge_message_error(subject@, body@, staged_reviewed) {
            None => r is Ok,
            Some(m) => r matches Err(e) && is_error(
                e,
                ErrorCode::INVALID_ARGUMENT,
                m,
                RecoveryAction::InspectState,
                false,
            ),
        },
{
    if trim_str(subject).len() == 0 {
        return Err(bad_request_str("A merge commit needs a subject"));
    }
    if chars_of(subject).len() > MAX_SUBJECT_CHARS {
        return Err(bad_request_str("Merge subject exceeds 500 characters"));
    }
    if str_exceeds(body, MAX_BODY_BYTES) {
        return Err(bad_request_str("Merge body exceeds 64 KiB"));
    }
    if !staged_reviewed {
        return Err(bad_request_str("Review the staged merge result before completing"));
    }
    Ok(())
}

/// The merge commit message: trimmed subject, a blank line and the trimmed
/// body when there is one, and a final newline.
pub open spec fn merge_message(subject: Seq<char>, body: Seq<char>) -> Seq<char> {
    let b = trim(body);
    if b.len() == 0 {
        trim(subject) + "\n"@
    } else {
        trim(subject) + "\n\n"@ + b + "\n"@
    }
}

pub fn merge_message_text(subject: &str, body: &str) -> (r: String)
    ensures
        r@ == merge_message(subject@, body@),
{
    let s = trim_str(subject);
    let mut m = string_of(s.as_slice());
    let b = trim_str(body);
    if b.len() > 0 {
        let bs = string_of(b.as_slice());
        m.append("\n\n");
        m.append(bs.as_str());
    }
    m.append("\n");
    m
}

pub fn check_merge_live(live: bool) -> (r: Result<(), AppError>)
    ensures
        r is Ok <==> live,
        r matches Err(e) ==> is_error(
            e,
            ErrorCode::INVALID_ARGUMENT,
            "No merge is in progress"@,
            RecoveryAction::InspectState,
            false,
        ),
{
    if !live {
        return Err(bad_request_str("No merge is in progress"));
    }
    Ok(())
}

pub fn check_no_unmerged(unmerged: bool) -> (r: Result<(), AppError>)
    ensures
        r is Ok <==> !unmerged,
        r matches Err(e) ==> is_error(
            e,
            ErrorCode::CONFLICTS_PRESENT,
            "Unmerged files remain; resolve every conflict before completing"@,
            RecoveryAction::ResolveConflict,
            false,
        ),
{
    if unmerged {
        return Err(
            AppError::new(
                ErrorCode::CONFLICTS_PRESENT,
                string_lit("Unmerged files remain; resolve every conflict before completing"),
                RecoveryAction::ResolveConflict,
                false,
            ),
        );
    }
    Ok(())
}

pub open spec fn opt_nonempty(s: Option<String>) -> bool {
    s matches Some(v) && v@.len() > 0
}

/// A commit needs both `user.name` and `user.email`.
pub fn check_identity(name: &Option<String>, email: &Option<String>) -> (r: Result<(), AppError>)
    ensures
        r is Ok <==> opt_nonempty(*name) && opt_nonempty(*email),
        r matches Err(e) ==> is_error(
            e,
            ErrorCode::IDENTITY_MISSING,
            "Git identity is missing: set user.name and user.email in your Git config, then retry"@,
            RecoveryAction::ConfigureGit,
            false,
        ),
{
    let name_ok = match name {
        Some(n) => !n.as_str().is_empty(),
        None => false,
    };
    let email_ok = match email {
        Some(m) => !m.as_str().is_empty(),
        None => false,
    };
    if !name_ok || !email_ok {
        return Err(
            AppError::new(
                ErrorCode::IDENTITY_MISSING,
                string_lit(
                    "Git identity is missing: set user.name and user.email in your Git config, then retry",
                ),
                RecoveryAction::ConfigureGit,
                false,
            ),
        );
    }
    Ok(())
}

/// Whitespace-separated words among the first `n` chars.
pub open spec fn words_upto(s: Seq<char>, n: nat) -> nat
    decreases n,
{
    if n == 0 {
        0
    } else {
        words_upto(s, (n - 1) as nat) + if !is_whitespace(s[n - 1]) && (n == 1 || is_whitespace(
            s[n - 2],
        )) {
            1nat
        } else {
            0nat
        }
    }
}

/// `s.split_whitespace().count()`.
pub open spec fn word_count(s: Seq<char>) -> nat {
    words_upto(s, s.len())
}

pub fn count_words(s: &str) -> (r: usize)
    ensures
        r == word_count(s@),
{
    let v = chars_of(s);
    let mut n: usize = 0;
    let mut i: usize = 0;
    while i < v.len()
        invariant
            i <= v@.len(),
            v@ == s@,
            n == words_upto(s@, i as nat),
            n <= i,
        decreases v.len() - i,
    {
        if !crate::text::char_is_whitespace(v[i]) && (i == 0 || crate::text::char_is_whitespace(
            v[i - 1],
        )) {
            n = n + 1;
        }
        i += 1;
    }
    n
}

/// `git rev-list --parents -n 1 HEAD` printed the commit and two parents.
pub fn has_two_parents(success: bool, stdout: &str) -> (r: bool)
    ensures
        r == (success && word_count(stdout@) == 3),
{
    success && count_words(stdout) == 3
}

// ---------------------------------------------------------------------------
// Aborting a merge
// ---------------------------------------------------------------------------

/// Only a live merge that the app started can be aborted here.
pub fn check_abortable(record_present: bool, live: bool) -> (r: Result<(), AppError>)
    ensures
        r is Ok <==> record_present && live,
        !record_present ==> (r matches Err(e) && is_error(
            e,
            ErrorCode::INVALID_ARGUMENT,
            "Only merges started by the app can be aborted here"@,
            RecoveryAction::InspectState,
            false,
        )),
        record_present && !live ==> (r matches Err(e) && is_error(
            e,
            ErrorCode::INVALID_ARGUMENT,
            "The merge marker is gone; the merge already ended"@,
            RecoveryAction::InspectState,
            false,
        )),
{
    if !record_present {
        return Err(bad_request_str("Only merges started by the app can be aborted here"));
    }
    if !live {
        return Err(bad_request_str("The merge marker is gone; the merge already ended"));
    }
    Ok(())
}

/// `merge --abort` must succeed and remove MERGE_HEAD; there is no
/// fallback reset.
pub fn check_abort_finished(abort_ok: bool, live_after: bool) -> (r: Result<(), AppError>)
    ensures
        r is Ok <==> abort_ok && !live_after,
        r matches Err(e) ==> is_error(
            e,
            ErrorCode::GIT_ERROR,
            "Aborting the merge did not finish; the merge state was kept for manual recovery"@,
            RecoveryAction::InspectState,
            true,
        ),
{
    if !abort_ok || live_after {
        return Err(
            AppError::new(
                ErrorCode::GIT_ERROR,
                string_lit(
                    "Aborting the merge did not finish; the merge state was kept for manual recovery",
                ),
                RecoveryAction::InspectState,
                true,
            ),
        );
    }
    Ok(())
}

/// After the abort HEAD is back at the recorded pre-merge commit.
pub fn check_abort_head(head: &str, pre_head: &str) -> (r: Result<(), AppError>)
    ensures
        r is Ok <==> head@ == pre_head@,
        r matches Err(e) ==> is_error(
            e,
            ErrorCode::GIT_ERROR,
            "Abort finished on an unexpected HEAD; inspect the repository before continuing"@,
            RecoveryAction::InspectState,
            true,
        ),
{
    if !str_eq(head, pre_head) {
        return Err(
            AppError::new(
                ErrorCode::GIT_ERROR,
                string_lit(
                    "Abort finished on an unexpected HEAD; inspect the repository before continuing",
                ),
                RecoveryAction::InspectState,
                true,
            ),
        );
    }
    Ok(())
}

pub open spec fn take_chars(s: Seq<char>, n: nat) -> Seq<char> {
    if s.len() < n {
        s
    } else {
        s.take(n as int)
    }
}

/// The first `n` chars of `s` (all of them when shorter).
pub fn first_chars(s: &str, n: usize) -> (r: String)
    ensures
        r@ == take_chars(s@, n as nat),
{
    let v = chars_of(s);
    let k: usize = if v.len() < n {
        v.len()
    } else {
        n
    };
    let t = crate::text::slice_of(&v, 0, k);
    assert(t@ =~= take_chars(s@, n as nat));
    string_of(t.as_slice())
}

/// The text of the `merge_abort` confirmation.
pub open spec fn abort_text(record: MergeRecord, head: Seq<char>) -> Seq<char> {
    "Abort the app-started merge of '"@ + record.source_label@ + "' into '"@ + record.current_label@
        + "'? The worktree returns to "@ + take_chars(record.pre_head@, 12)
        + " as recorded before the merge. Edits made after the merge started cannot be restored by abort; current HEAD is "@
        + take_chars(head, 12) + "."@
}

pub fn abort_summary_text(record: &MergeRecord, head: &str) -> (r: String)
    ensures
        r@ == abort_text(*record, head@),
{
    let pre = first_chars(record.pre_head.as_str(), 12);
    let h = first_chars(head, 12);
    let mut r = concat3(
        "Abort the app-started merge of '",
        record.source_label.as_str(),
        "' into '",
    );
    r.append(record.current_label.as_str());
    r.append("'? The worktree returns to ");
    r.append(pre.as_str());
    r.append(
        " as recorded before the merge. Edits made after the merge started cannot be restored by abort; current HEAD is ",
    );
    r.append(h.as_str());
    r.append(".");
    r
}

} // verus!
