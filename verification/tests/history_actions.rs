use octopus::error::ErrorCode;
use octopus::history_actions::{
    check_push_target, check_rebase_range, check_remote_known, check_tag_name, join_path_str,
    plan_action, push_refspec, push_terminal_error, rebase_script_dir_name, rebase_todo,
    reset_needs_token, reword_file_text, sequence_editor_script, tag_create_failure,
    RebasePlanEntry,
};

fn entry(oid: &str, action: &str, message: Option<&str>) -> RebasePlanEntry {
    RebasePlanEntry {
        oid: oid.to_string(),
        action: action.to_string(),
        message: message.map(str::to_string),
    }
}

#[test]
fn rebase_todo_turns_rewords_into_pick_and_amend() {
    let plan = vec![
        entry("aaa", "pick", None),
        entry("bbb", "reword", Some("New subject")),
        entry("ccc", "drop", None),
        entry("ddd", "reword", Some("Second")),
        entry("eee", "fixup", None),
    ];
    let subjects: Vec<String> = ["A", "B", "C", "D", "E"].iter().map(|s| s.to_string()).collect();
    let todo = rebase_todo(&plan, &subjects, "/tmp/scripts").unwrap();
    assert_eq!(
        todo,
        "pick aaa A\n\
         pick bbb B\nexec git commit --amend -F '/tmp/scripts/reword-0.txt'\n\
         drop ccc C\n\
         pick ddd D\nexec git commit --amend -F '/tmp/scripts/reword-1.txt'\n\
         fixup eee E\n"
    );
    let bad = vec![entry("aaa", "edit", None)];
    assert_eq!(
        rebase_todo(&bad, &["A".to_string()], "/d").unwrap_err().code,
        ErrorCode::INVALID_ARGUMENT
    );
    assert!(plan_action(&entry("x", "squash", None)).is_ok());
    assert!(plan_action(&entry("x", "exec", None)).is_err());
}

#[test]
fn rebase_scripts_and_messages() {
    assert_eq!(join_path_str("/tmp/x/", "f"), "/tmp/x/f");
    assert_eq!(join_path_str("/tmp/x", "f"), "/tmp/x/f");
    assert_eq!(rebase_script_dir_name(42, 7), "gitdock-rebase-42-7");
    assert_eq!(sequence_editor_script("/t/todo"), "#!/bin/sh\ncp '/t/todo' \"$1\"\n");
    assert_eq!(reword_file_text(&entry("a", "reword", Some("  msg  "))), "msg\n");
}

#[test]
fn rebase_range_must_match_the_plan() {
    let plan = vec![entry("aaa", "pick", None), entry("bbb", "pick", None)];
    assert!(check_rebase_range("aaa\nbbb\n", &plan).is_ok());
    assert!(check_rebase_range("  aaa \n\nbbb", &plan).is_ok());
    assert_eq!(
        check_rebase_range("bbb\naaa\n", &plan).unwrap_err().code,
        ErrorCode::STALE_STATE
    );
    assert!(check_rebase_range("aaa\n", &plan).is_err());
}

#[test]
fn tags_and_push_targets_are_checked() {
    assert_eq!(check_tag_name("  v1.0 ").unwrap().iter().collect::<String>(), "v1.0");
    assert!(check_tag_name("").is_err());
    assert!(check_tag_name("-x").is_err());
    assert!(check_tag_name("a..b").is_err());
    assert!(check_tag_name("a b").is_err());
    assert_eq!(
        tag_create_failure("fatal: tag 'v1' already exists").code,
        ErrorCode::INVALID_ARGUMENT
    );
    assert_eq!(tag_create_failure("boom").code, ErrorCode::GIT_ERROR);
    let (remote, dest) = check_push_target(" origin ", " main ").unwrap();
    assert_eq!(remote.iter().collect::<String>(), "origin");
    assert_eq!(dest.iter().collect::<String>(), "main");
    assert!(check_push_target(" ", "main").is_err());
    assert!(check_push_target("origin", "").is_err());
    assert!(check_remote_known("origin\nupstream\n", "upstream").is_ok());
    assert!(check_remote_known("origin\nupstream\n", "ups").is_err());
    assert_eq!(push_refspec("abc", "main"), "abc:refs/heads/main");
}

#[test]
fn push_failures_are_classified_case_insensitively() {
    assert_eq!(push_terminal_error("Authentication FAILED").code, ErrorCode::AUTH_REQUIRED);
    assert_eq!(push_terminal_error("Could not resolve host").code, ErrorCode::NETWORK_ERROR);
    assert_eq!(push_terminal_error("! [rejected] (non-fast-forward)").code, ErrorCode::DIVERGED);
    assert_eq!(push_terminal_error("other").code, ErrorCode::GIT_ERROR);
    assert_eq!(push_terminal_error("other").message, "Git could not push the commit");
}

#[test]
fn hard_reset_needs_a_token() {
    assert_eq!(reset_needs_token("--soft", None).unwrap(), false);
    assert_eq!(reset_needs_token("--hard", Some("t")).unwrap(), true);
    assert!(reset_needs_token("--hard", None).is_err());
}
