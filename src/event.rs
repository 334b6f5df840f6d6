use vstd::prelude::*;
use crate::names::{is_record_name, session_id_of, is_record_file, session_id_from_name};
use crate::json::{json_parse, text_view};
use crate::session::{decoded, decode_session, session_view, SessionState, SessionStateView};

verus! {

/// An event for the UI: `"update"` with the record for a file that exists,
/// `"remove"` with the session id for one that is gone.
#[derive(Debug, Clone, PartialEq)]
pub struct SessionEvent {
    pub event_type: String,
    pub session: Option<SessionState>,
    pub session_id: Option<String>,
}

pub struct SessionEventView {
    pub event_type: Seq<char>,
    pub session: Option<SessionStateView>,
    pub session_id: Option<Seq<char>>,
}

impl View for SessionEvent {
    type V = SessionEventView;

    open spec fn view(&self) -> SessionEventView {
        SessionEventView {
            event_type: self.event_type@,
            session: session_view(self.session),
            session_id: text_view(self.session_id),
        }
    }
}

pub open spec fn event_view(o: Option<SessionEvent>) -> Option<SessionEventView> {
    match o {
        Some(e) => Some(e@),
        None => None,
    }
}

/// The event for a change to the file `name`, given whether it exists now
/// and the record its text decoded to: files that are no records give
/// nothing; an existing file gives an update when it decoded and nothing
/// otherwise; a missing one gives a removal of the id its name stands for.
pub open spec fn event_for(name: Seq<char>, exists: bool, record: Option<SessionStateView>) -> Option<SessionEventView> {
    if !is_record_name(name) {
        None
    } else if exists {
        match record {
            Some(s) => Some(SessionEventView { event_type: "update"@, session: Some(s), session_id: None }),
            None => None,
        }
    } else {
        Some(SessionEventView { event_type: "remove"@, session: None, session_id: Some(session_id_of(name)) })
    }
}

/// The record that a file's content, where it could be read, decodes to.
pub open spec fn content_record(content: Option<Seq<char>>) -> Option<SessionStateView> {
    match content {
        Some(t) => decoded(t),
        None => None,
    }
}

/// The event for a change to `name`, given whether it exists now and its
/// text where it could be read.
pub open spec fn change_event(name: Seq<char>, exists: bool, content: Option<Seq<char>>) -> Option<SessionEventView> {
    event_for(name, exists, content_record(content))
}

/// Builds the event for a change to the file `name`, from whether it
/// exists now and the record its text decoded to.
pub fn event_for_change(name: &str, exists: bool, record: Option<SessionState>) -> (r: Option<SessionEvent>)
    ensures
        event_view(r) == event_for(name@, exists, session_view(record)),
{
    if !is_record_file(name) {
        None
    } else if exists {
        match record {
            Some(s) => Some(SessionEvent { event_type: String::from_str("update"), session: Some(s), session_id: None }),
            None => None,
        }
    } else {
        Some(SessionEvent {
            event_type: String::from_str("remove"),
            session: None,
            session_id: Some(session_id_from_name(name)),
        })
    }
}

/// Turns one observed change into at most one event; `content` is the
/// file's text where it could be read.
pub fn synthesize(name: &str, exists: bool, content: &Option<String>) -> (r: Option<SessionEvent>)
    ensures
        event_view(r) == change_event(name@, exists, text_view(*content)),
{
    let record = if exists && is_record_file(name) {
        match content {
            Some(t) => decode_session(t.as_str()),
            None => None,
        }
    } else {
        None
    };
    event_for_change(name, exists, record)
}

/// One path of a notification batch, as observed when it is handled.
pub struct FileChange {
    pub file_name: String,
    pub exists: bool,
    pub content: Option<String>,
}

pub open spec fn change_events(c: FileChange) -> Seq<SessionEventView> {
    match change_event(c.file_name@, c.exists, text_view(c.content)) {
        Some(e) => seq![e],
        None => Seq::empty(),
    }
}

/// The events of a batch: those of its changes, in the batch's order.
pub open spec fn batch_events(cs: Seq<FileChange>) -> Seq<SessionEventView>
    decreases cs.len(),
{
    if cs.len() == 0 {
        Seq::empty()
    } else {
        batch_events(cs.drop_last()) + change_events(cs.last())
    }
}

pub open spec fn events_view(v: Seq<SessionEvent>) -> Seq<SessionEventView> {
    v.map_values(|e: SessionEvent| e@)
}

/// The events for one notification batch, in the order of its paths.
pub fn events_for_batch(changes: &Vec<FileChange>) -> (r: Vec<SessionEvent>)
    ensures
        events_view(r@) == batch_events(changes@),
{
    let mut out: Vec<SessionEvent> = Vec::new();
    let mut i: usize = 0;
    while i < changes.len()
        invariant
            i <= changes@.len(),
            events_view(out@) == batch_events(changes@.take(i as int)),
        decreases changes@.len() - i,
    {
        let c = &changes[i];
        let e = synthesize(c.file_name.as_str(), c.exists, &c.content);
        let ghost before = out@;
        assert(changes@.take(i + 1).drop_last() =~= changes@.take(i as int));
        match e {
            Some(ev) => {
                out.push(ev);
                assert(events_view(out@) =~= events_view(before) + change_events(changes@[i as int]));
            },
            None => {
                assert(events_view(out@) =~= events_view(before) + change_events(changes@[i as int]));
            },
        }
        i = i + 1;
    }
    assert(changes@.take(changes@.len() as int) =~= changes@);
    out
}

/// A directory entry seen by the snapshot: its name, and its text where
/// it could be read.
pub struct DirEntry {
    pub file_name: String,
    pub content: Option<String>,
}

pub open spec fn entry_records(e: DirEntry) -> Seq<SessionStateView> {
    if is_record_name(e.file_name@) {
        match content_record(text_view(e.content)) {
            Some(s) => seq![s],
            None => Seq::empty(),
        }
    } else {
        Seq::empty()
    }
}

/// The records of a snapshot: one for each record file that decodes, in
/// the order of enumeration.
pub open spec fn snapshot(es: Seq<DirEntry>) -> Seq<SessionStateView>
    decreases es.len(),
{
    if es.len() == 0 {
        Seq::empty()
    } else {
        snapshot(es.drop_last()) + entry_records(es.last())
    }
}

pub open spec fn sessions_view(v: Seq<SessionState>) -> Seq<SessionStateView> {
    v.map_values(|s: SessionState| s@)
}

/// Collects the records of one enumeration of the sessions directory,
/// skipping entries that are no records, could not be read, or do not
/// decode.
pub fn load_sessions(entries: &Vec<DirEntry>) -> (r: Vec<SessionState>)
    ensures
        sessions_view(r@) == snapshot(entries@),
{
    let mut out: Vec<SessionState> = Vec::new();
    let mut i: usize = 0;
    while i < entries.len()
        invariant
            i <= entries@.len(),
            sessions_view(out@) == snapshot(entries@.take(i as int)),
        decreases entries@.len() - i,
    {
        let e = &entries[i];
        let ghost before = out@;
        assert(entries@.take(i + 1).drop_last() =~= entries@.take(i as int));
        if is_record_file(e.file_name.as_str()) {
            if let Some(t) = &e.content {
                if let Some(s) = decode_session(t.as_str()) {
                    out.push(s);
                }
            }
        }
        assert(sessions_view(out@) =~= sessions_view(before) + entry_records(entries@[i as int]));
        i = i + 1;
    }
    assert(entries@.take(entries@.len() as int) =~= entries@);
    out
}

/// Whether an entry contributes a record to a snapshot.
pub open spec fn entry_decodes(e: DirEntry) -> bool {
    is_record_name(e.file_name@) && content_record(text_view(e.content)) is Some
}

/// The record an entry contributes, where it decodes.
pub open spec fn entry_record(e: DirEntry) -> SessionStateView {
    content_record(text_view(e.content))->0
}

/// A snapshot holds exactly one record for each record file whose text
/// decodes and nothing else: the decoded records of exactly those entries,
/// each once, in the order in which the directory was enumerated.
pub proof fn lemma_snapshot_one_per_file(es: Seq<DirEntry>)
    ensures
        snapshot(es) == es.filter(|e: DirEntry| entry_decodes(e)).map_values(|e: DirEntry| entry_record(e)),
    decreases es.len(),
{
    reveal(Seq::filter);
    if es.len() > 0 {
        lemma_snapshot_one_per_file(es.drop_last());
        let pred = |e: DirEntry| entry_decodes(e);
        let f = |e: DirEntry| entry_record(e);
        let sub = es.drop_last().filter(pred);
        if pred(es.last()) {
            assert(sub.push(es.last()).map_values(f) =~= sub.map_values(f) + seq![f(es.last())]);
        } else {
            assert(entry_records(es.last()) =~= Seq::empty());
        }
        assert(snapshot(es) =~= es.filter(pred).map_values(f));
    }
}

proof fn lemma_snapshot_single(e: DirEntry)
    ensures
        snapshot(seq![e]) == entry_records(e),
{
    assert(seq![e].drop_last() =~= Seq::<DirEntry>::empty());
    assert(seq![e].last() == e);
    assert(snapshot(Seq::<DirEntry>::empty()) == Seq::<SessionStateView>::empty());
    assert(Seq::<SessionStateView>::empty() + entry_records(e) =~= entry_records(e));
}

/// The snapshot of two listings one after the other is the snapshot of the
/// first followed by that of the second.
pub proof fn lemma_snapshot_concat(a: Seq<DirEntry>, b: Seq<DirEntry>)
    ensures
        snapshot(a + b) == snapshot(a) + snapshot(b),
    decreases b.len(),
{
    if b.len() == 0 {
        assert(a + b =~= a);
        assert(snapshot(a) + snapshot(b) =~= snapshot(a));
    } else {
        lemma_snapshot_concat(a, b.drop_last());
        assert((a + b).drop_last() =~= a + b.drop_last());
        assert((a + b).last() == b.last());
        assert(snapshot(a + b) =~= snapshot(a) + snapshot(b));
    }
}

/// Splits a snapshot around the entry at `k`.
proof fn lemma_snapshot_split(es: Seq<DirEntry>, k: int)
    requires
        0 <= k < es.len(),
    ensures
        snapshot(es) == snapshot(es.take(k)) + entry_records(es[k]) + snapshot(es.skip(k + 1)),
        snapshot(es.remove(k)) == snapshot(es.take(k)) + snapshot(es.skip(k + 1)),
{
    assert(es =~= es.take(k) + seq![es[k]] + es.skip(k + 1));
    assert(es.remove(k) =~= es.take(k) + es.skip(k + 1));
    lemma_snapshot_concat(es.take(k) + seq![es[k]], es.skip(k + 1));
    lemma_snapshot_concat(es.take(k), seq![es[k]]);
    lemma_snapshot_concat(es.take(k), es.skip(k + 1));
    lemma_snapshot_single(es[k]);
}

/// A record file whose text is not JSON adds nothing to a snapshot, wherever
/// it stands in the listing, and produces no event while it exists.
pub proof fn lemma_invalid_text_ignored(es: Seq<DirEntry>, k: int, c: FileChange)
    requires
        0 <= k < es.len(),
        es[k].content is Some,
        json_parse(es[k].content->0@) is None,
        c.exists,
        c.content is Some,
        json_parse(c.content->0@) is None,
    ensures
        snapshot(es) == snapshot(es.remove(k)),
        change_events(c) == Seq::<SessionEventView>::empty(),
        batch_events(seq![c]) == Seq::<SessionEventView>::empty(),
{
    lemma_snapshot_split(es, k);
    assert(entry_records(es[k]) =~= Seq::<SessionStateView>::empty());
    assert(snapshot(es.take(k)) + entry_records(es[k]) =~= snapshot(es.take(k)));
    assert(seq![c].drop_last() =~= Seq::<FileChange>::empty());
    assert(seq![c].last() == c);
    assert(batch_events(Seq::<FileChange>::empty()) == Seq::<SessionEventView>::empty());
    assert(Seq::<SessionEventView>::empty() + Seq::<SessionEventView>::empty() =~= Seq::<SessionEventView>::empty());
}

/// The records of a snapshot do not depend on the order in which the
/// directory was enumerated: two listings of the same entries give the same
/// records, each as often, whatever their order.
pub proof fn lemma_snapshot_order_free(es1: Seq<DirEntry>, es2: Seq<DirEntry>)
    requires
        es1.to_multiset() == es2.to_multiset(),
    ensures
        snapshot(es1).to_multiset() == snapshot(es2).to_multiset(),
    decreases es1.len(),
{
    broadcast use vstd::seq_lib::group_to_multiset_ensures, vstd::seq_lib::lemma_multiset_commutative,
        vstd::multiset::group_multiset_axioms;

    if es1.len() == 0 {
        assert(es1.to_multiset().len() == es1.len());
        assert(es2.to_multiset().len() == es2.len());
        assert(es2.len() == 0);
        assert(es1 =~= es2);
    } else {
        let x = es1.last();
        let d1 = es1.drop_last();
        assert(es1 =~= d1.push(x));
        assert(es1[es1.len() - 1] == x);
        assert(es1.contains(x));
        assert(es1.to_multiset().count(x) > 0);
        assert(es2.to_multiset().count(x) > 0);
        assert(es2.contains(x));
        let k = choose|k: int| 0 <= k < es2.len() && es2[k] == x;
        let r2 = es2.remove(k);
        assert(d1.to_multiset() =~= es1.to_multiset().remove(x));
        assert(r2.to_multiset() == es2.to_multiset().remove(x));
        lemma_snapshot_order_free(d1, r2);
        lemma_snapshot_split(es2, k);
        let a = snapshot(es2.take(k));
        let e = entry_records(x);
        let b2 = snapshot(es2.skip(k + 1));
        assert((a + e + b2).to_multiset() =~= (a + b2 + e).to_multiset());
    }
}

/// A record file that exists and decodes, handled alone in a batch,
/// produces exactly one event: an update that carries its decoded record.
pub proof fn lemma_written_file_gives_one_update(c: FileChange)
    requires
        is_record_name(c.file_name@),
        c.exists,
        c.content is Some,
        decoded(c.content->0@) is Some,
    ensures
        batch_events(seq![c]) == seq![SessionEventView {
            event_type: "update"@,
            session: decoded(c.content->0@),
            session_id: None,
        }],
{
    assert(seq![c].drop_last() =~= Seq::<FileChange>::empty());
    assert(seq![c].last() == c);
    assert(batch_events(Seq::<FileChange>::empty()) == Seq::<SessionEventView>::empty());
    assert(Seq::<SessionEventView>::empty() + change_events(c) =~= change_events(c));
    assert(batch_events(seq![c]) =~= change_events(c));
}

/// A record file that no longer exists, handled alone in a batch, produces
/// exactly one event: a removal of the id its name stands for.
pub proof fn lemma_deleted_file_gives_one_removal(c: FileChange)
    requires
        is_record_name(c.file_name@),
        !c.exists,
    ensures
        batch_events(seq![c]) == seq![SessionEventView {
            event_type: "remove"@,
            session: None,
            session_id: Some(session_id_of(c.file_name@)),
        }],
{
    assert(seq![c].drop_last() =~= Seq::<FileChange>::empty());
    assert(seq![c].last() == c);
    assert(batch_events(Seq::<FileChange>::empty()) == Seq::<SessionEventView>::empty());
    assert(Seq::<SessionEventView>::empty() + change_events(c) =~= change_events(c));
    assert(batch_events(seq![c]) =~= change_events(c));
}

} // verus!
