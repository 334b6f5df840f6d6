use vstd::prelude::*;
use crate::json::{
    json_parse, parse_json, int_at, int_field, opt_bool_at, opt_bool_field, opt_text_at,
    opt_text_field, opt_text_view, text_at, text_field, text_view, lookup, find_field,
    JsonValue,
};

verus! {

/// Metrics of a session's working tree.
#[derive(Debug, Clone, PartialEq)]
pub struct WorktreeStatus {
    pub files_changed: i32,
    pub insertions: i32,
    pub deletions: i32,
    pub last_commit_message: Option<String>,
    pub tests_passing: Option<bool>,
}

pub struct WorktreeStatusView {
    pub files_changed: i32,
    pub insertions: i32,
    pub deletions: i32,
    pub last_commit_message: Option<Seq<char>>,
    pub tests_passing: Option<bool>,
}

impl View for WorktreeStatus {
    type V = WorktreeStatusView;

    open spec fn view(&self) -> WorktreeStatusView {
        WorktreeStatusView {
            files_changed: self.files_changed,
            insertions: self.insertions,
            deletions: self.deletions,
            last_commit_message: text_view(self.last_commit_message),
            tests_passing: self.tests_passing,
        }
    }
}

/// One work session, as stored in `<id>.json`.
#[derive(Debug, Clone, PartialEq)]
pub struct SessionState {
    pub id: String,
    pub issue_number: i32,
    pub issue_title: String,
    pub status: String,
    pub branch: String,
    pub worktree_path: String,
    pub started_at: String,
    pub last_heartbeat: String,
    pub stuck_reason: Option<String>,
    pub forwarded_message: Option<String>,
    pub pull_request_url: Option<String>,
    pub worktree_status: Option<WorktreeStatus>,
}

pub struct SessionStateView {
    pub id: Seq<char>,
    pub issue_number: i32,
    pub issue_title: Seq<char>,
    pub status: Seq<char>,
    pub branch: Seq<char>,
    pub worktree_path: Seq<char>,
    pub started_at: Seq<char>,
    pub last_heartbeat: Seq<char>,
    pub stuck_reason: Option<Seq<char>>,
    pub forwarded_message: Option<Seq<char>>,
    pub pull_request_url: Option<Seq<char>>,
    pub worktree_status: Option<WorktreeStatusView>,
}

pub open spec fn worktree_view(o: Option<WorktreeStatus>) -> Option<WorktreeStatusView> {
    match o {
        Some(w) => Some(w@),
        None => None,
    }
}

impl View for SessionState {
    type V = SessionStateView;

    open spec fn view(&self) -> SessionStateView {
        SessionStateView {
            id: self.id@,
            issue_number: self.issue_number,
            issue_title: self.issue_title@,
            status: self.status@,
            branch: self.branch@,
            worktree_path: self.worktree_path@,
            started_at: self.started_at@,
            last_heartbeat: self.last_heartbeat@,
            stuck_reason: text_view(self.stuck_reason),
            forwarded_message: text_view(self.forwarded_message),
            pull_request_url: text_view(self.pull_request_url),
            worktree_status: worktree_view(self.worktree_status),
        }
    }
}

pub open spec fn session_view(o: Option<SessionState>) -> Option<SessionStateView> {
    match o {
        Some(s) => Some(s@),
        None => None,
    }
}

/// The worktree status held by an object's entries: the three counts are
/// required, the message and the test flag may be missing or null.
pub open spec fn worktree_of(f: Seq<(String, JsonValue)>) -> Option<WorktreeStatusView> {
    if int_at(f, "filesChanged"@) is Some && int_at(f, "insertions"@) is Some
        && int_at(f, "deletions"@) is Some && opt_text_at(f, "lastCommitMessage"@) is Some
        && opt_bool_at(f, "testsPassing"@) is Some {
        Some(WorktreeStatusView {
            files_changed: int_at(f, "filesChanged"@)->0,
            insertions: int_at(f, "insertions"@)->0,
            deletions: int_at(f, "deletions"@)->0,
            last_commit_message: opt_text_at(f, "lastCommitMessage"@)->0,
            tests_passing: opt_bool_at(f, "testsPassing"@)->0,
        })
    } else {
        None
    }
}

/// The optional worktree status under `key`: missing or null gives
/// `Some(None)`, a well-formed object `Some(Some(..))`, anything else `None`.
pub open spec fn opt_worktree_at(f: Seq<(String, JsonValue)>, key: Seq<char>) -> Option<Option<WorktreeStatusView>> {
    match lookup(f, key) {
        None => Some(None),
        Some(JsonValue::Null) => Some(None),
        Some(JsonValue::Object(g)) => match worktree_of(g@) {
            Some(w) => Some(Some(w)),
            None => None,
        },
        _ => None,
    }
}

/// The record held by an object's entries, under their camelCase names;
/// `None` where a required field is missing or any field has the wrong shape.
pub open spec fn session_of_fields(f: Seq<(String, JsonValue)>) -> Option<SessionStateView> {
    if text_at(f, "id"@) is Some && int_at(f, "issueNumber"@) is Some
        && text_at(f, "issueTitle"@) is Some && text_at(f, "status"@) is Some
        && text_at(f, "branch"@) is Some && text_at(f, "worktreePath"@) is Some
        && text_at(f, "startedAt"@) is Some && text_at(f, "lastHeartbeat"@) is Some
        && opt_text_at(f, "stuckReason"@) is Some && opt_text_at(f, "forwardedMessage"@) is Some
        && opt_text_at(f, "pullRequestUrl"@) is Some && opt_worktree_at(f, "worktreeStatus"@) is Some {
        Some(SessionStateView {
            id: text_at(f, "id"@)->0,
            issue_number: int_at(f, "issueNumber"@)->0,
            issue_title: text_at(f, "issueTitle"@)->0,
            status: text_at(f, "status"@)->0,
            branch: text_at(f, "branch"@)->0,
            worktree_path: text_at(f, "worktreePath"@)->0,
            started_at: text_at(f, "startedAt"@)->0,
            last_heartbeat: text_at(f, "lastHeartbeat"@)->0,
            stuck_reason: opt_text_at(f, "stuckReason"@)->0,
            forwarded_message: opt_text_at(f, "forwardedMessage"@)->0,
            pull_request_url: opt_text_at(f, "pullRequestUrl"@)->0,
            worktree_status: opt_worktree_at(f, "worktreeStatus"@)->0,
        })
    } else {
        None
    }
}

/// The record a JSON tree holds; only an object can hold one.
pub open spec fn session_of(j: JsonValue) -> Option<SessionStateView> {
    match j {
        JsonValue::Object(f) => session_of_fields(f@),
        _ => None,
    }
}

/// The record a file's text holds: `None` where the text is not JSON or
/// its tree holds no record. The tree keeps one value per key, so an object
/// that repeats a key is read with the key's last value rather than refused.
pub open spec fn decoded(text: Seq<char>) -> Option<SessionStateView> {
    match json_parse(text) {
        Some(j) => session_of(j),
        None => None,
    }
}

fn worktree_from_fields(f: &Vec<(String, JsonValue)>) -> (r: Option<WorktreeStatus>)
    ensures
        worktree_view(r) == worktree_of(f@),
{
    let files_changed = int_field(f, "filesChanged");
    let insertions = int_field(f, "insertions");
    let deletions = int_field(f, "deletions");
    let last_commit_message = opt_text_field(f, "lastCommitMessage");
    let tests_passing = opt_bool_field(f, "testsPassing");
    match (files_changed, insertions, deletions, last_commit_message, tests_passing) {
        (Some(a), Some(b), Some(c), Some(m), Some(t)) => Some(WorktreeStatus {
            files_changed: a,
            insertions: b,
            deletions: c,
            last_commit_message: m,
            tests_passing: t,
        }),
        _ => None,
    }
}

fn opt_worktree_field(f: &Vec<(String, JsonValue)>, key: &str) -> (r: Option<Option<WorktreeStatus>>)
    ensures
        match r {
            Some(w) => opt_worktree_at(f@, key@) == Some(worktree_view(w)),
            None => opt_worktree_at(f@, key@) is None,
        },
{
    match find_field(f, key) {
        None => Some(None),
        Some(JsonValue::Null) => Some(None),
        Some(JsonValue::Object(g)) => match worktree_from_fields(g) {
            Some(w) => Some(Some(w)),
            None => None,
        },
        _ => None,
    }
}

/// Reads a record out of a parsed JSON tree.
pub fn session_from_json(j: &JsonValue) -> (r: Option<SessionState>)
    ensures
        session_view(r) == session_of(*j),
{
    let f = match j {
        JsonValue::Object(f) => f,
        _ => {
            return None;
        },
    };
    let id = text_field(f, "id");
    let issue_number = int_field(f, "issueNumber");
    let issue_title = text_field(f, "issueTitle");
    let status = text_field(f, "status");
    let branch = text_field(f, "branch");
    let worktree_path = text_field(f, "worktreePath");
    let started_at = text_field(f, "startedAt");
    let last_heartbeat = text_field(f, "lastHeartbeat");
    let stuck_reason = opt_text_field(f, "stuckReason");
    let forwarded_message = opt_text_field(f, "forwardedMessage");
    let pull_request_url = opt_text_field(f, "pullRequestUrl");
    let worktree_status = opt_worktree_field(f, "worktreeStatus");
    if id.is_none() || issue_number.is_none() || issue_title.is_none() || status.is_none()
        || branch.is_none() || worktree_path.is_none() || started_at.is_none()
        || last_heartbeat.is_none() || stuck_reason.is_none() || forwarded_message.is_none()
        || pull_request_url.is_none() || worktree_status.is_none() {
        return None;
    }
    Some(SessionState {
        id: id.unwrap(),
        issue_number: issue_number.unwrap(),
        issue_title: issue_title.unwrap(),
        status: status.unwrap(),
        branch: branch.unwrap(),
        worktree_path: worktree_path.unwrap(),
        started_at: started_at.unwrap(),
        last_heartbeat: last_heartbeat.unwrap(),
        stuck_reason: stuck_reason.unwrap(),
        forwarded_message: forwarded_message.unwrap(),
        pull_request_url: pull_request_url.unwrap(),
        worktree_status: worktree_status.unwrap(),
    })
}

/// Decodes the text of one record file. An object that repeats a field
/// is not refused: the parsed tree keeps only the field's last value.
pub fn decode_session(text: &str) -> (r: Option<SessionState>)
    ensures
        session_view(r) == decoded(text@),
{
    match parse_json(text) {
        Some(j) => session_from_json(&j),
        None => None,
    }
}

proof fn lemma_lookup_last_match(s: Seq<(String, JsonValue)>, j: int, key: Seq<char>)
    requires
        0 <= j < s.len(),
        s[j].0@ == key,
        forall|i: int| j < i < s.len() ==> s[i].0@ != key,
    ensures
        lookup(s, key) == Some(s[j].1),
    decreases s.len(),
{
    if j < s.len() - 1 {
        let d = s.drop_last();
        assert(forall|i: int| j < i < d.len() ==> d[i] == s[i]);
        lemma_lookup_last_match(d, j, key);
    }
}

fn text_entry(key: &str, value: &String) -> (r: (String, JsonValue))
    ensures
        r.0@ == key@,
        r.1 matches JsonValue::Str(t) && t@ == value@,
{
    (String::from_str(key), JsonValue::Str(value.clone()))
}

fn opt_text_entry(key: &str, value: &Option<String>) -> (r: (String, JsonValue))
    ensures
        r.0@ == key@,
        match value {
            Some(x) => r.1 matches JsonValue::Str(t) && t@ == x@,
            None => r.1 matches JsonValue::Null,
        },
{
    match value {
        Some(x) => (String::from_str(key), JsonValue::Str(x.clone())),
        None => (String::from_str(key), JsonValue::Null),
    }
}

fn int_entry(key: &str, value: i32) -> (r: (String, JsonValue))
    ensures
        r.0@ == key@,
        r.1 == JsonValue::Number(Some(value as i64)),
{
    (String::from_str(key), JsonValue::Number(Some(value as i64)))
}

/// The JSON tree of a worktree status, under camelCase names; an absent
/// optional field is written as null.
pub fn worktree_to_json(w: &WorktreeStatus) -> (r: JsonValue)
    ensures
        r matches JsonValue::Object(g) && worktree_of(g@) == Some(w@),
{
    let mut f: Vec<(String, JsonValue)> = Vec::new();
    f.push(int_entry("filesChanged", w.files_changed));
    f.push(int_entry("insertions", w.insertions));
    f.push(int_entry("deletions", w.deletions));
    f.push(opt_text_entry("lastCommitMessage", &w.last_commit_message));
    let flag = match w.tests_passing {
        Some(b) => JsonValue::Bool(b),
        None => JsonValue::Null,
    };
    f.push((String::from_str("testsPassing"), flag));
    proof {
        reveal_strlit("filesChanged");
        reveal_strlit("insertions");
        reveal_strlit("deletions");
        reveal_strlit("lastCommitMessage");
        reveal_strlit("testsPassing");
        let s = f@;
        assert(forall|i: int, j: int| 0 <= i < j < 5 ==> s[i].0@.len() != s[j].0@.len() || s[i].0@[0] != s[j].0@[0]);
        assert forall|j: int| 0 <= j < 5 implies lookup(s, #[trigger] s[j].0@) == Some(s[j].1) by {
            lemma_lookup_last_match(s, j, s[j].0@);
        }
        assert(lookup(s, "filesChanged"@) == Some(s[0].1));
        assert(lookup(s, "insertions"@) == Some(s[1].1));
        assert(lookup(s, "deletions"@) == Some(s[2].1));
        assert(lookup(s, "lastCommitMessage"@) == Some(s[3].1));
        assert(lookup(s, "testsPassing"@) == Some(s[4].1));
        assert(worktree_of(s) == Some(w@));
    }
    JsonValue::Object(f)
}

/// The JSON tree of a record, under camelCase names; an absent optional
/// field is written as null. Decoding the tree gives the record back, field
/// for field, with every optional field present or absent as it was.
pub fn session_to_json(s: &SessionState) -> (r: JsonValue)
    ensures
        session_of(r) == Some(s@),
{
    let mut f: Vec<(String, JsonValue)> = Vec::new();
    f.push(text_entry("id", &s.id));
    f.push(int_entry("issueNumber", s.issue_number));
    f.push(text_entry("issueTitle", &s.issue_title));
    f.push(text_entry("status", &s.status));
    f.push(text_entry("branch", &s.branch));
    f.push(text_entry("worktreePath", &s.worktree_path));
    f.push(text_entry("startedAt", &s.started_at));
    f.push(text_entry("lastHeartbeat", &s.last_heartbeat));
    f.push(opt_text_entry("stuckReason", &s.stuck_reason));
    f.push(opt_text_entry("forwardedMessage", &s.forwarded_message));
    f.push(opt_text_entry("pullRequestUrl", &s.pull_request_url));
    let status = match &s.worktree_status {
        Some(w) => worktree_to_json(w),
        None => JsonValue::Null,
    };
    f.push((String::from_str("worktreeStatus"), status));
    proof {
        reveal_strlit("id");
        reveal_strlit("issueNumber");
        reveal_strlit("issueTitle");
        reveal_strlit("status");
        reveal_strlit("branch");
        reveal_strlit("worktreePath");
        reveal_strlit("startedAt");
        reveal_strlit("lastHeartbeat");
        reveal_strlit("stuckReason");
        reveal_strlit("forwardedMessage");
        reveal_strlit("pullRequestUrl");
        reveal_strlit("worktreeStatus");
        let q = f@;
        assert(forall|i: int, j: int| 0 <= i < j < 12 ==> q[i].0@.len() != q[j].0@.len() || q[i].0@[0] != q[j].0@[0]);
        assert forall|j: int| 0 <= j < 12 implies lookup(q, #[trigger] q[j].0@) == Some(q[j].1) by {
            lemma_lookup_last_match(q, j, q[j].0@);
        }
        assert(lookup(q, "id"@) == Some(q[0].1));
        assert(lookup(q, "issueNumber"@) == Some(q[1].1));
        assert(lookup(q, "issueTitle"@) == Some(q[2].1));
        assert(lookup(q, "status"@) == Some(q[3].1));
        assert(lookup(q, "branch"@) == Some(q[4].1));
        assert(lookup(q, "worktreePath"@) == Some(q[5].1));
        assert(lookup(q, "startedAt"@) == Some(q[6].1));
        assert(lookup(q, "lastHeartbeat"@) == Some(q[7].1));
        assert(lookup(q, "stuckReason"@) == Some(q[8].1));
        assert(lookup(q, "forwardedMessage"@) == Some(q[9].1));
        assert(lookup(q, "pullRequestUrl"@) == Some(q[10].1));
        assert(lookup(q, "worktreeStatus"@) == Some(q[11].1));
        assert(session_of_fields(q) == Some(s@));
    }
    JsonValue::Object(f)
}

} // verus!
