use octopus::unmerged::read_unmerged;
use octopus::error::ErrorCode;
use octopus::merge::{
    accept_side_stage, check_fingerprint, count_words, fingerprint, has_two_parents, is_binary,
    kind_of, literal_pathspec, merge_message_text, preview_of, stage_spec, UnmergedEntry,
};

fn entry(modes: [Option<&str>; 4]) -> UnmergedEntry {
    let mut stages: [Option<(String, String)>; 4] = [None, None, None, None];
    for (i, m) in modes.iter().enumerate() {
        if let Some(mode) = m {
            stages[i] = Some((mode.to_string(), format!("{i}").repeat(40)));
        }
    }
    UnmergedEntry { path: b"f.txt".to_vec(), stages }
}

#[test]
fn submodule_modes_classify_as_unsupported_with_external_reason() {
    let entry = UnmergedEntry {
        path: b"sub".to_vec(),
        stages: [
            None,
            Some(("160000".to_string(), "1".repeat(40))),
            Some(("160000".to_string(), "2".repeat(40))),
            Some(("160000".to_string(), "3".repeat(40))),
        ],
    };
    let (kind, supported, reason) = kind_of(&entry, &[None, None, None]);
    assert_eq!(kind, "submodule");
    assert!(!supported);
    assert!(reason.contains("external"), "reason: {reason}");
}

#[test]
fn symlink_and_plain_text_conflicts_classify() {
    let link = entry([None, Some("120000"), Some("120000"), Some("120000")]);
    let (kind, supported, _) = kind_of(&link, &[None, None, None]);
    assert_eq!(kind, "symlink");
    assert!(!supported);

    let text = entry([None, Some("100644"), Some("100644"), Some("100644")]);
    let (kind, supported, _) = kind_of(&text, &[Some(true), Some(true), Some(true)]);
    assert_eq!(kind, "text");
    assert!(supported);

    let binary = entry([None, Some("100644"), Some("100644"), Some("100644")]);
    let (kind, supported, _) = kind_of(&binary, &[Some(true), Some(false), Some(true)]);
    assert_eq!(kind, "binary");
    assert!(!supported);
}

#[test]
fn fingerprint_is_fnv1a_with_length() {
    assert_eq!(fingerprint(b""), "af63bd4c8601b7df:0");
    assert_eq!(fingerprint(b"hello\n"), "8a7790b77af22b8f:6");
    assert!(check_fingerprint(b"hello\n", "8a7790b77af22b8f:6").is_ok());
    let stale = check_fingerprint(b"hello!\n", "8a7790b77af22b8f:6").unwrap_err();
    assert_eq!(stale.code, ErrorCode::STALE_STATE);
}

#[test]
fn binary_detection_and_previews() {
    assert!(is_binary(b"a\0b"));
    assert!(!is_binary(b"plain text"));
    let small = preview_of(b"abc");
    assert_eq!(small.text, "abc");
    assert!(!small.truncated);
    let big = vec![b'x'; 40 * 1024];
    let p = preview_of(&big);
    assert!(p.truncated);
    assert_eq!(p.text.len(), 32 * 1024);
}

#[test]
fn sides_map_to_index_stages() {
    assert_eq!(accept_side_stage("current").unwrap(), 2);
    assert_eq!(accept_side_stage("incoming").unwrap(), 3);
    assert_eq!(
        accept_side_stage("base").unwrap_err().code,
        ErrorCode::INVALID_ARGUMENT
    );
    assert_eq!(stage_spec(2, b"a b"), b":2:a b".to_vec());
    assert_eq!(literal_pathspec(b"x*"), b":(literal)x*".to_vec());
}

#[test]
fn merge_message_and_parent_count() {
    assert_eq!(merge_message_text("  Merge feat  ", ""), "Merge feat\n");
    assert_eq!(
        merge_message_text("Merge feat", "  details \n"),
        "Merge feat\n\ndetails\n"
    );
    assert_eq!(count_words("  a b\tc\n"), 3);
    assert!(has_two_parents(true, "c p1 p2\n"));
    assert!(!has_two_parents(true, "c p1\n"));
    assert!(!has_two_parents(false, "c p1 p2\n"));
}

#[test]
fn delete_on_one_side_is_a_modify_delete_conflict() {
    let e = entry([None, Some("100644"), Some("100644"), None]);
    let (kind, supported, reason) = kind_of(&e, &[Some(true), Some(true), None]);
    assert_eq!(kind, "modifyDelete");
    assert!(supported);
    assert!(reason.is_empty());
    let odd = entry([None, Some("100644"), Some("040000"), Some("100644")]);
    assert_eq!(kind_of(&odd, &[None, None, None]).0, "unsupported");
}

#[test]
fn unmerged_index_groups_stages_by_path_in_byte_order() {
    let out = b"100644 1111 1\tb.txt\0100644 2222 2\tb.txt\0100644 3333 3\ta.txt\0100644 4444 3\tb.txt\0";
    let entries = read_unmerged(true, out).expect("parsed");
    assert_eq!(entries.len(), 2);
    assert_eq!(entries[0].path, b"a.txt".to_vec());
    assert_eq!(entries[0].stages[3], Some(("100644".to_string(), "3333".to_string())));
    assert_eq!(entries[0].stages[1], None);
    assert_eq!(entries[1].path, b"b.txt".to_vec());
    assert_eq!(entries[1].stages[1], Some(("100644".to_string(), "1111".to_string())));
    assert_eq!(entries[1].stages[2], Some(("100644".to_string(), "2222".to_string())));
    assert_eq!(entries[1].stages[3], Some(("100644".to_string(), "4444".to_string())));
    assert_eq!(entries[1].stages[0], None);
}

#[test]
fn unmerged_index_refuses_malformed_records() {
    assert!(read_unmerged(true, b"").expect("empty").is_empty());
    assert!(read_unmerged(true, b"\0\0").expect("only separators").is_empty());
    assert_eq!(
        read_unmerged(true, b"100644 1111 4\tx\0").unwrap_err().code,
        ErrorCode::GIT_ERROR
    );
    assert!(read_unmerged(true, b"100644 1111 1 x\tx\0").is_err());
    assert!(read_unmerged(true, b"100644 1111 1x\0").is_err());
    assert!(read_unmerged(true, b"100644 1111\tx\0").is_err());
    assert!(read_unmerged(false, b"100644 1111 1\tx\0").is_err());
    let plus = read_unmerged(true, b"160000 abcd +2\tsub").expect("explicit sign");
    assert_eq!(plus[0].stages[2], Some(("160000".to_string(), "abcd".to_string())));
    let paths: Vec<Vec<u8>> = read_unmerged(true, b"1 o 1\tab\x001 o 1\ta\x001 o 1\tB\0")
        .expect("parsed")
        .into_iter()
        .map(|e| e.path)
        .collect();
    assert_eq!(paths, vec![b"B".to_vec(), b"a".to_vec(), b"ab".to_vec()]);
}
