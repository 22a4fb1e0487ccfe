use kv_read_path::trace::{Scope, ScopeName, Span};
use kv_read_path::tracer::{ApplyTracer, RaftTracer};

fn span(id: u64) -> Span {
    Span { id, parent_id: 0, begin_unix_time_ns: 1000 + id, duration_ns: 5 }
}

fn ids_of(spans: &[Span]) -> Vec<u64> {
    spans.iter().map(|s| s.id).collect()
}

#[test]
fn raft_cycle_delivers_spans_to_scope() {
    let mut t = RaftTracer::new();
    t.begin();
    t.record(span(1));
    t.add_scope(Scope::new(ScopeName::Request(7)));
    t.record(span(2));
    let out = t.end();
    assert_eq!(out.len(), 1);
    assert_eq!(out[0].name(), ScopeName::Request(7));
    assert_eq!(out[0].raw_spans().len(), 1);
    assert_eq!(ids_of(&out[0].raw_spans()[0].spans), vec![1, 2]);
}

#[test]
fn raft_cycle_shares_one_bundle_among_scopes() {
    let mut t = RaftTracer::new();
    t.begin();
    t.add_scope(Scope::new(ScopeName::Request(1)));
    t.add_scope(Scope::new(ScopeName::Request(2)));
    t.record(span(3));
    let out = t.end();
    assert_eq!(out.len(), 2);
    assert_eq!(out[0].name(), ScopeName::Request(1));
    assert_eq!(out[1].name(), ScopeName::Request(2));
    assert!(std::sync::Arc::ptr_eq(&out[0].raw_spans()[0], &out[1].raw_spans()[0]));
    assert_eq!(ids_of(&out[1].raw_spans()[0].spans), vec![3]);
}

#[test]
fn raft_scopes_are_cleared_by_end() {
    let mut t = RaftTracer::new();
    t.begin();
    t.add_scope(Scope::new(ScopeName::Request(1)));
    assert_eq!(t.end().len(), 1);
    t.begin();
    t.record(span(9));
    assert!(t.end().is_empty());
}

#[test]
fn raft_scope_added_before_begin_gets_the_next_cycle() {
    let mut t = RaftTracer::new();
    t.add_scope(Scope::new(ScopeName::Request(4)));
    t.begin();
    t.record(span(5));
    let out = t.end();
    assert_eq!(out.len(), 1);
    assert_eq!(ids_of(&out[0].raw_spans()[0].spans), vec![5]);
}

#[test]
fn apply_truncate_twice_keeps_one_bundle() {
    let mut t = ApplyTracer::new();
    t.begin();
    t.record(span(1));
    t.record(span(2));
    t.truncate();
    t.truncate();
    let seen = t.partial_submit().expect("one segment");
    assert_eq!(seen.len(), 1);
    assert_eq!(ids_of(&seen[0].spans), vec![1, 2]);
    t.end();
    assert!(t.partial_submit().is_none());
}

#[test]
fn apply_trailing_spans_are_dropped_at_end() {
    let mut t = ApplyTracer::new();
    t.begin();
    t.record(span(1));
    t.truncate();
    t.record(span(2));
    t.record(span(3));
    let seen = t.partial_submit().expect("one segment");
    assert_eq!(seen.len(), 1);
    assert_eq!(ids_of(&seen[0].spans), vec![1]);
    t.end();
    assert!(t.partial_submit().is_none());
    t.begin();
    t.truncate();
    assert!(t.partial_submit().is_none());
    t.end();
}

#[test]
fn apply_partial_submit_is_repeatable() {
    let mut t = ApplyTracer::new();
    t.begin();
    assert!(t.partial_submit().is_none());
    t.record(span(1));
    t.truncate();
    t.record(span(2));
    t.truncate();
    assert_eq!(t.partial_submit().map(|s| s.len()), Some(2));
    assert_eq!(t.partial_submit().map(|s| s.len()), Some(2));
    t.end();
}

#[test]
fn scope_from_parents_keeps_order() {
    let parents = vec![
        Scope::new(ScopeName::Request(3)),
        Scope::new(ScopeName::Request(1)),
        Scope::new(ScopeName::Request(2)),
    ];
    let s = Scope::from_parents(ScopeName::BatchGetCommand, &parents);
    assert_eq!(s.name(), ScopeName::BatchGetCommand);
    assert_eq!(
        s.parents(),
        &vec![ScopeName::Request(3), ScopeName::Request(1), ScopeName::Request(2)]
    );
    assert!(s.raw_spans().is_empty());
}
