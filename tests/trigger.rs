use issue_digest::trigger::{parse_trigger, search_failed_message, search_query, trigger_from_captures};

const WORD: &str = "flows summarize";

#[test]
fn trigger_names_owner_repo_and_days() {
    let t = parse_trigger("flows summarize WasmEdge/wasmedge-quickjs 3", WORD).unwrap();
    assert_eq!(t.owner, "WasmEdge");
    assert_eq!(t.repo, "wasmedge-quickjs");
    assert_eq!(t.days, 3);
}

#[test]
fn owner_alone_falls_back_to_default_repo() {
    let t = parse_trigger("flows summarize second-state 14", WORD).unwrap();
    assert_eq!(t.owner, "second-state");
    assert_eq!(t.repo, "haiku-platform");
    assert_eq!(t.days, 14);
}

#[test]
fn day_count_out_of_range_falls_back_to_seven() {
    let t = parse_trigger("flows summarize a/b 99999999999999999999", WORD).unwrap();
    assert_eq!((t.owner.as_str(), t.repo.as_str(), t.days), ("a", "b", 7));
}

#[test]
fn extra_path_parts_are_ignored() {
    let t = parse_trigger("flows summarize a/b/c 2", WORD).unwrap();
    assert_eq!((t.owner.as_str(), t.repo.as_str()), ("a", "b"));
}

#[test]
fn other_command_is_not_a_trigger() {
    assert!(parse_trigger("please summarize a/b 2", WORD).is_none());
}

#[test]
fn message_without_day_count_is_not_a_trigger() {
    assert!(parse_trigger("flows summarize a/b", WORD).is_none());
}

#[test]
fn captures_without_repository_group_are_not_a_trigger() {
    let caps = Some(vec![Some("x".to_string()), Some("flows summarize".to_string())]);
    assert!(trigger_from_captures(&caps, WORD).is_none());
    assert!(trigger_from_captures(&None, WORD).is_none());
}

#[test]
fn captures_are_trimmed_before_reading() {
    let caps = Some(vec![
        None,
        Some("  flows summarize ".to_string()),
        Some("  o/r  ".to_string()),
        Some(" 12".to_string()),
    ]);
    let t = trigger_from_captures(&caps, WORD).unwrap();
    assert_eq!((t.owner.as_str(), t.repo.as_str(), t.days), ("o", "r", 12));
}

#[test]
fn query_searches_open_issues_updated_since() {
    assert_eq!(
        search_query("o", "r", "2024-01-31"),
        "repo:o/r is:issue state:open updated:>2024-01-31"
    );
}

#[test]
fn trigger_query_names_the_repository() {
    let t = parse_trigger("flows summarize o/r 3", WORD).unwrap();
    let q = t.query().unwrap();
    assert!(q.starts_with("repo:o/r is:issue state:open updated:>"));
    assert_eq!(q.len(), "repo:o/r is:issue state:open updated:>".len() + 10);
}

#[test]
fn failed_search_reply_quotes_the_message() {
    assert_eq!(
        search_failed_message("flows summarize x/y 3"),
        "Please double check if there are errors in the owner and repo names provided in your message:\nflows summarize x/y 3\nif yes, please correct the spelling and resend your instruction."
    );
}
