use session_watch::{
    decode_session, session_from_json, session_to_json, worktree_to_json, JsonValue, SessionState,
    WorktreeStatus,
};

fn full_text() -> String {
    String::from(
        r#"{"id":"abc123","issueNumber":42,"issueTitle":"Fix the parser","status":"working","branch":"issue-42","worktreePath":"/tmp/wt/42","startedAt":"2024-01-01T00:00:00Z","lastHeartbeat":"2024-01-01T00:05:00Z","stuckReason":"needs input","forwardedMessage":"hello","pullRequestUrl":"https://example.com/pr/1","worktreeStatus":{"filesChanged":3,"insertions":10,"deletions":2,"lastCommitMessage":"wip","testsPassing":false}}"#,
    )
}

fn minimal_text() -> String {
    String::from(
        r#"{"id":"s1","issueNumber":7,"issueTitle":"T","status":"registered","branch":"b","worktreePath":"/w","startedAt":"a","lastHeartbeat":"h"}"#,
    )
}

#[test]
fn decodes_every_field() {
    let s = decode_session(&full_text()).expect("decodes");
    assert_eq!(s.id, "abc123");
    assert_eq!(s.issue_number, 42);
    assert_eq!(s.issue_title, "Fix the parser");
    assert_eq!(s.status, "working");
    assert_eq!(s.branch, "issue-42");
    assert_eq!(s.worktree_path, "/tmp/wt/42");
    assert_eq!(s.started_at, "2024-01-01T00:00:00Z");
    assert_eq!(s.last_heartbeat, "2024-01-01T00:05:00Z");
    assert_eq!(s.stuck_reason.as_deref(), Some("needs input"));
    assert_eq!(s.forwarded_message.as_deref(), Some("hello"));
    assert_eq!(s.pull_request_url.as_deref(), Some("https://example.com/pr/1"));
    let w = s.worktree_status.expect("worktree");
    assert_eq!((w.files_changed, w.insertions, w.deletions), (3, 10, 2));
    assert_eq!(w.last_commit_message.as_deref(), Some("wip"));
    assert_eq!(w.tests_passing, Some(false));
}

#[test]
fn optional_fields_default_to_absent() {
    let s = decode_session(&minimal_text()).expect("decodes");
    assert_eq!(s.id, "s1");
    assert_eq!(s.issue_number, 7);
    assert!(s.stuck_reason.is_none());
    assert!(s.forwarded_message.is_none());
    assert!(s.pull_request_url.is_none());
    assert!(s.worktree_status.is_none());
}

#[test]
fn null_optional_fields_are_absent() {
    let text = r#"{"id":"s1","issueNumber":7,"issueTitle":"T","status":"x","branch":"b","worktreePath":"/w","startedAt":"a","lastHeartbeat":"h","stuckReason":null,"worktreeStatus":{"filesChanged":0,"insertions":0,"deletions":0,"testsPassing":null}}"#;
    let s = decode_session(text).expect("decodes");
    assert!(s.stuck_reason.is_none());
    let w = s.worktree_status.expect("worktree");
    assert!(w.last_commit_message.is_none());
    assert!(w.tests_passing.is_none());
}

#[test]
fn invalid_syntax_is_rejected() {
    assert!(decode_session("{\"id\": \"abc\",").is_none());
    assert!(decode_session("not json at all").is_none());
    assert!(decode_session("").is_none());
}

#[test]
fn missing_required_field_is_rejected() {
    let text = r#"{"id":"s1","issueTitle":"T","status":"x","branch":"b","worktreePath":"/w","startedAt":"a","lastHeartbeat":"h"}"#;
    assert!(decode_session(text).is_none());
}

#[test]
fn wrong_shapes_are_rejected() {
    let as_string = r#"{"id":"s1","issueNumber":"7","issueTitle":"T","status":"x","branch":"b","worktreePath":"/w","startedAt":"a","lastHeartbeat":"h"}"#;
    assert!(decode_session(as_string).is_none());
    let too_large = r#"{"id":"s1","issueNumber":2147483648,"issueTitle":"T","status":"x","branch":"b","worktreePath":"/w","startedAt":"a","lastHeartbeat":"h"}"#;
    assert!(decode_session(too_large).is_none());
    let fraction = r#"{"id":"s1","issueNumber":1.5,"issueTitle":"T","status":"x","branch":"b","worktreePath":"/w","startedAt":"a","lastHeartbeat":"h"}"#;
    assert!(decode_session(fraction).is_none());
    let bad_flag = r#"{"id":"s1","issueNumber":1,"issueTitle":"T","status":"x","branch":"b","worktreePath":"/w","startedAt":"a","lastHeartbeat":"h","worktreeStatus":{"filesChanged":0,"insertions":0,"deletions":0,"testsPassing":"yes"}}"#;
    assert!(decode_session(bad_flag).is_none());
    assert!(decode_session("[1, 2]").is_none());
}

#[test]
fn negative_and_boundary_integers_decode() {
    let text = r#"{"id":"s1","issueNumber":-2147483648,"issueTitle":"T","status":"x","branch":"b","worktreePath":"/w","startedAt":"a","lastHeartbeat":"h","worktreeStatus":{"filesChanged":2147483647,"insertions":0,"deletions":0}}"#;
    let s = decode_session(text).expect("decodes");
    assert_eq!(s.issue_number, i32::MIN);
    assert_eq!(s.worktree_status.expect("worktree").files_changed, i32::MAX);
}

#[test]
fn tree_without_object_holds_no_record() {
    assert!(session_from_json(&JsonValue::Null).is_none());
    assert!(session_from_json(&JsonValue::Object(Vec::new())).is_none());
}

fn opt(key: &str, v: &Option<String>) -> String {
    match v {
        Some(x) => format!(",\"{}\":{:?}", key, x),
        None => String::new(),
    }
}

fn encode(s: &SessionState) -> String {
    let mut out = format!(
        "{{\"id\":{:?},\"issueNumber\":{},\"issueTitle\":{:?},\"status\":{:?},\"branch\":{:?},\"worktreePath\":{:?},\"startedAt\":{:?},\"lastHeartbeat\":{:?}",
        s.id, s.issue_number, s.issue_title, s.status, s.branch, s.worktree_path, s.started_at, s.last_heartbeat
    );
    out += &opt("stuckReason", &s.stuck_reason);
    out += &opt("forwardedMessage", &s.forwarded_message);
    out += &opt("pullRequestUrl", &s.pull_request_url);
    if let Some(w) = &s.worktree_status {
        out += &format!(
            ",\"worktreeStatus\":{{\"filesChanged\":{},\"insertions\":{},\"deletions\":{}",
            w.files_changed, w.insertions, w.deletions
        );
        out += &opt("lastCommitMessage", &w.last_commit_message);
        if let Some(t) = w.tests_passing {
            out += &format!(",\"testsPassing\":{}", t);
        }
        out += "}";
    }
    out += "}";
    out
}

#[test]
fn round_trip_keeps_every_field() {
    let with_all = SessionState {
        id: String::from("abc123"),
        issue_number: -5,
        issue_title: String::from("Title with \"quotes\""),
        status: String::from("stuck"),
        branch: String::from("feature/x"),
        worktree_path: String::from("C:\\work\\tree"),
        started_at: String::from("s"),
        last_heartbeat: String::from("h"),
        stuck_reason: Some(String::from("blocked")),
        forwarded_message: Some(String::from("")),
        pull_request_url: Some(String::from("u")),
        worktree_status: Some(WorktreeStatus {
            files_changed: 1,
            insertions: 2,
            deletions: 3,
            last_commit_message: Some(String::from("m")),
            tests_passing: Some(true),
        }),
    };
    assert_eq!(decode_session(&encode(&with_all)), Some(with_all.clone()));
    let with_none = SessionState {
        stuck_reason: None,
        forwarded_message: None,
        pull_request_url: None,
        worktree_status: Some(WorktreeStatus {
            files_changed: 0,
            insertions: 0,
            deletions: 0,
            last_commit_message: None,
            tests_passing: None,
        }),
        ..with_all.clone()
    };
    assert_eq!(decode_session(&encode(&with_none)), Some(with_none.clone()));
    let bare = SessionState { worktree_status: None, ..with_none };
    assert_eq!(decode_session(&encode(&bare)), Some(bare.clone()));
}

#[test]
fn tree_round_trip_keeps_every_field() {
    let full = decode_session(&full_text()).expect("decodes");
    assert_eq!(session_from_json(&session_to_json(&full)), Some(full.clone()));
    let minimal = decode_session(&minimal_text()).expect("decodes");
    assert_eq!(session_from_json(&session_to_json(&minimal)), Some(minimal.clone()));
}

#[test]
fn absent_fields_are_written_as_null() {
    let minimal = decode_session(&minimal_text()).expect("decodes");
    match session_to_json(&minimal) {
        JsonValue::Object(entries) => {
            assert_eq!(entries.len(), 12);
            let stuck = entries.iter().find(|(k, _)| k == "stuckReason").expect("key");
            assert!(matches!(stuck.1, JsonValue::Null));
        }
        other => panic!("not an object: {:?}", other),
    }
    let w = WorktreeStatus { files_changed: 1, insertions: 2, deletions: 3, last_commit_message: None, tests_passing: Some(true) };
    match worktree_to_json(&w) {
        JsonValue::Object(entries) => {
            let flag = entries.iter().find(|(k, _)| k == "testsPassing").expect("key");
            assert!(matches!(flag.1, JsonValue::Bool(true)));
        }
        other => panic!("not an object: {:?}", other),
    }
}
