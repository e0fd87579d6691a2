use octopus::domain::RefItem;
use octopus::error::ErrorCode;
use octopus::history::{
    check_limit, check_search_query, cursor_for, history_page_of, parse_cursor, refs_for_oid,
    search_page_of, tips_for_scope, CommitMeta, HistoryScope, TopoRow,
};

fn topo(oids: &[&str]) -> Vec<TopoRow> {
    oids.iter()
        .map(|o| TopoRow { oid: o.to_string(), parents: vec![], boundary: false })
        .collect()
}

fn meta(oid: &str, subject: &str, author: &str) -> CommitMeta {
    CommitMeta {
        oid: oid.to_string(),
        parents: vec![],
        subject: subject.to_string(),
        body: String::new(),
        author_name: author.to_string(),
        authored_at: "2024-01-01T00:00:00Z".to_string(),
        committed_at: "2024-01-01T00:00:00Z".to_string(),
    }
}

fn reference(id: &str, oid: &str) -> RefItem {
    RefItem {
        ref_id: id.to_string(),
        full_name: format!("refs/heads/{id}"),
        label: id.to_string(),
        kind: "localBranch".to_string(),
        oid: oid.to_string(),
        current: false,
        checked_out_elsewhere: false,
    }
}

#[test]
fn cursors_round_trip_and_reject_garbage() {
    let c = cursor_for("sess-1", 40);
    assert_eq!(c, "sess-1:40");
    assert_eq!(parse_cursor(&c).unwrap(), ("sess-1".to_string(), 40));
    // The session id may itself hold colons: the offset is after the last one.
    assert_eq!(parse_cursor("a:b:7").unwrap(), ("a:b".to_string(), 7));
    for bad in [":3", "sess", "sess:", "sess:x", "sess:-1"] {
        assert_eq!(parse_cursor(bad).unwrap_err().code, ErrorCode::INVALID_ARGUMENT, "{bad}");
    }
}

#[test]
fn limits_are_one_to_two_hundred() {
    assert_eq!(check_limit(1).unwrap(), 1);
    assert_eq!(check_limit(200).unwrap(), 200);
    assert!(check_limit(0).is_err());
    assert!(check_limit(201).is_err());
}

#[test]
fn pages_continue_where_the_previous_one_stopped() {
    let rows = topo(&["c5", "c4", "c3", "c2", "c1"]);
    let metas: Vec<CommitMeta> = ["c1", "c2", "c3", "c4", "c5"]
        .iter()
        .map(|o| meta(o, &format!("subject {o}"), "Ada"))
        .collect();
    let refs = vec![reference("main", "c5")];
    let first = history_page_of("s", &rows, true, 0, 2, &metas, &refs);
    assert_eq!(first.rows.iter().map(|r| r.oid.as_str()).collect::<Vec<_>>(), vec!["c5", "c4"]);
    assert_eq!(first.rows[0].refs, vec!["main".to_string()]);
    assert_eq!(first.rows[0].subject, "subject c5");
    assert_eq!(first.next_cursor.as_deref(), Some("s:2"));
    assert!(!first.truncated);
    let (_, offset) = parse_cursor(first.next_cursor.as_deref().unwrap()).unwrap();
    let second = history_page_of("s", &rows, true, offset, 2, &metas, &refs);
    assert_eq!(second.rows.iter().map(|r| r.oid.as_str()).collect::<Vec<_>>(), vec!["c3", "c2"]);
    let last = history_page_of("s", &rows, true, 4, 2, &metas, &refs);
    assert_eq!(last.rows.len(), 1);
    assert_eq!(last.next_cursor, None);
    assert!(last.truncated);
}

#[test]
fn search_matches_subject_author_and_oid_prefix_case_insensitively() {
    let rows = topo(&["abc1", "def2", "abc3"]);
    let metas = vec![
        meta("abc1", "Fix Parser", "Ada"),
        meta("def2", "docs", "Grace HOPPER"),
        meta("abc3", "more", "Linus"),
    ];
    let s = search_page_of(&rows, false, "PARSER", 0, 10, &metas, &[]).unwrap();
    assert_eq!(s.rows.len(), 1);
    assert_eq!(s.rows[0].oid, "abc1");
    let s = search_page_of(&rows, false, "hopper", 0, 10, &metas, &[]).unwrap();
    assert_eq!(s.rows[0].oid, "def2");
    let s = search_page_of(&rows, true, "ABC", 0, 1, &metas, &[]).unwrap();
    assert_eq!(s.rows[0].oid, "abc1");
    assert_eq!(s.next_cursor.as_deref(), Some("search:1"));
    assert!(s.incomplete);
    let s = search_page_of(&rows, false, "abc", 1, 1, &metas, &[]).unwrap();
    assert_eq!(s.rows[0].oid, "abc3");
    assert_eq!(s.next_cursor, None);
    assert!(search_page_of(&rows, false, "abc", 3, 1, &metas, &[]).is_err());
    assert!(check_search_query("").is_err());
    assert!(check_search_query(&"x".repeat(501)).is_err());
    assert!(check_search_query("ok").is_ok());
}

#[test]
fn scopes_pick_their_tips() {
    let refs = vec![reference("main", "aaa"), reference("topic", "bbb")];
    let all = HistoryScope { scope_type: "allRefs".to_string(), ref_id: None };
    assert_eq!(
        tips_for_scope(&all, &refs, Some("ccc")).unwrap(),
        vec!["aaa".to_string(), "bbb".to_string(), "ccc".to_string()]
    );
    assert_eq!(
        tips_for_scope(&all, &refs, Some("aaa")).unwrap(),
        vec!["aaa".to_string(), "bbb".to_string()]
    );
    let head = HistoryScope { scope_type: "head".to_string(), ref_id: None };
    assert!(tips_for_scope(&head, &refs, None).unwrap().is_empty());
    let one = HistoryScope { scope_type: "ref".to_string(), ref_id: Some("topic".to_string()) };
    assert_eq!(tips_for_scope(&one, &refs, None).unwrap(), vec!["bbb".to_string()]);
    let missing = HistoryScope { scope_type: "ref".to_string(), ref_id: Some("gone".to_string()) };
    assert_eq!(tips_for_scope(&missing, &refs, None).unwrap_err().code, ErrorCode::REF_INVALID);
    let unnamed = HistoryScope { scope_type: "ref".to_string(), ref_id: None };
    assert_eq!(
        tips_for_scope(&unnamed, &refs, None).unwrap_err().code,
        ErrorCode::INVALID_ARGUMENT
    );
    assert_eq!(refs_for_oid(&refs, "bbb"), vec!["topic".to_string()]);
}

#[test]
fn following_cursors_reads_every_row_once_in_order() {
    let oids: Vec<String> = (0..65).map(|i| format!("{i:040x}")).collect();
    let names: Vec<&str> = oids.iter().map(|s| s.as_str()).collect();
    let walk = topo(&names);
    let metas: Vec<CommitMeta> = names.iter().map(|o| meta(o, "s", "a")).collect();
    let mut seen: Vec<String> = Vec::new();
    let mut offset = 0usize;
    let mut pages = 0;
    loop {
        let page = history_page_of("sess", &walk, false, offset, 25, &metas, &[]);
        assert_eq!(page.history_session_id, "sess");
        pages += 1;
        seen.extend(page.rows.iter().map(|r| r.oid.clone()));
        match page.next_cursor {
            None => break,
            Some(c) => {
                let (session, next) = parse_cursor(&c).unwrap();
                assert_eq!(session, "sess");
                offset = next;
            }
        }
    }
    assert_eq!(pages, 3);
    assert_eq!(seen, oids);
}
