//! Per-thread tracers that run a span collector around raft work.
//!
//! Each worker thread owns one tracer of each kind and drives it itself; only
//! the immutable span bundles it produces are shared with other threads.
use std::sync::Arc;
use vstd::prelude::*;

use crate::trace::{bundles_of, LocalCollector, RawSpans, Scope, ScopeView, Span};

verus! {

/// What a raft tracer is: whether a cycle is running, the spans recorded in
/// it so far, and the scopes registered to receive them.
pub struct RaftTracerView {
    pub active: bool,
    pub recorded: Seq<Span>,
    pub scopes: Seq<ScopeView>,
}

pub open spec fn raft_begin(s: RaftTracerView) -> RaftTracerView {
    RaftTracerView { active: true, recorded: Seq::empty(), ..s }
}

pub open spec fn raft_record(s: RaftTracerView, spans: Seq<Span>) -> RaftTracerView {
    RaftTracerView { recorded: s.recorded + spans, ..s }
}

pub open spec fn raft_add_scope(s: RaftTracerView, scope: ScopeView) -> RaftTracerView {
    RaftTracerView { scopes: s.scopes.push(scope), ..s }
}

pub open spec fn extended(scope: ScopeView, bundle: Seq<Span>) -> ScopeView {
    ScopeView { bundles: scope.bundles.push(bundle), ..scope }
}

/// The state after `end`, and the registered scopes, each extended with the
/// bundle of the cycle.
pub open spec fn raft_end(s: RaftTracerView) -> (RaftTracerView, Seq<ScopeView>) {
    (
        RaftTracerView { active: false, recorded: Seq::empty(), scopes: Seq::empty() },
        s.scopes.map_values(|sc: ScopeView| extended(sc, s.recorded)),
    )
}

pub open spec fn views_of(v: Seq<Scope>) -> Seq<ScopeView> {
    v.map_values(|s: Scope| s@)
}

/// Runs one collector per raft cycle and fans its spans out to the scopes
/// registered during the cycle.
pub struct RaftTracer {
    local_collector: Option<LocalCollector>,
    scopes: Vec<Scope>,
}

impl View for RaftTracer {
    type V = RaftTracerView;

    closed spec fn view(&self) -> RaftTracerView {
        RaftTracerView {
            active: self.local_collector is Some,
            recorded: match self.local_collector {
                Some(c) => c@,
                None => Seq::empty(),
            },
            scopes: views_of(self.scopes@),
        }
    }
}

/// Relies on `Arc::clone`: the clone is another handle to the same bundle.
#[verifier::external_body]
fn share(a: &Arc<RawSpans>) -> (r: Arc<RawSpans>)
    ensures
        r@ == a@,
{
    Arc::clone(a)
}

impl RaftTracer {
    /// Whether a cycle is running.
    pub fn is_active(&self) -> (r: bool)
        ensures
            r == self@.active,
    {
        self.local_collector.is_some()
    }

    /// The state of a thread that has not traced anything yet.
    pub fn new() -> (r: RaftTracer)
        ensures
            r@ == (RaftTracerView { active: false, recorded: Seq::empty(), scopes: Seq::empty() }),
    {
        let r = RaftTracer { local_collector: None, scopes: Vec::new() };
        proof {
            assert(views_of(r.scopes@) =~= Seq::empty());
        }
        r
    }

    /// Starts a cycle with a fresh collector.
    pub fn begin(&mut self)
        requires
            !old(self)@.active,
        ensures
            final(self)@ == raft_begin(old(self)@),
    {
        self.local_collector = Some(LocalCollector::start());
    }

    /// Records a span into the running cycle.
    pub fn record(&mut self, span: Span)
        requires
            old(self)@.active,
        ensures
            final(self)@ == raft_record(old(self)@, seq![span]),
    {
        let mut c = self.local_collector.take().unwrap();
        c.record(span);
        self.local_collector = Some(c);
        proof {
            assert(old(self)@.recorded.push(span) =~= old(self)@.recorded + seq![span]);
        }
    }

    /// Registers a scope to receive the spans of this cycle.
    pub fn add_scope(&mut self, scope: Scope)
        ensures
            final(self)@ == raft_add_scope(old(self)@, scope@),
    {
        self.scopes.push(scope);
        proof {
            assert(views_of(self.scopes@) =~= views_of(old(self).scopes@).push(scope@));
        }
    }

    /// Ends the cycle. Every registered scope is extended with one shared
    /// handle to the bundle of spans recorded since `begin`, and is handed
    /// back in the order of registration; the tracer keeps no scope.
    pub fn end(&mut self) -> (r: Vec<Scope>)
        requires
            old(self)@.active,
        ensures
            final(self)@ == raft_end(old(self)@).0,
            views_of(r@) == raft_end(old(self)@).1,
    {
        let collector = self.local_collector.take().unwrap();
        let raw_spans = collector.collect();
        let mut scopes: Vec<Scope> = Vec::new();
        std::mem::swap(&mut scopes, &mut self.scopes);
        let ghost old_scopes = scopes@;
        let ghost bundle = raw_spans@;
        let mut out: Vec<Scope> = Vec::new();
        proof {
            assert(views_of(out@) =~= old_scopes.take(0).map_values(|sc: Scope| extended(sc@, bundle)));
        }
        if scopes.len() > 0 {
            let raw_spans = Arc::new(raw_spans);
            let mut i: usize = 0;
            while scopes.len() > 0
                invariant
                    old_scopes.len() <= usize::MAX,
                    i + scopes@.len() == old_scopes.len(),
                    scopes@ == old_scopes.subrange(i as int, old_scopes.len() as int),
                    raw_spans@ == bundle,
                    views_of(out@) == old_scopes.take(i as int).map_values(
                        |sc: Scope| extended(sc@, bundle),
                    ),
                decreases scopes@.len(),
            {
                let mut scope = scopes.remove(0);
                proof {
                    assert(scope == old_scopes[i as int]);
                }
                let shared = share(&raw_spans);
                scope.extend_raw_spans(shared);
                proof {
                    assert(scope@ == extended(old_scopes[i as int]@, bundle));
                }
                let ghost out_before = out@;
                out.push(scope);
                proof {
                    assert(out@ == out_before.push(scope));
                    assert(views_of(out@) =~= views_of(out_before).push(scope@));
                    assert(old_scopes.take(i as int + 1).map_values(|sc: Scope| extended(sc@, bundle))
                        =~= old_scopes.take(i as int).map_values(|sc: Scope| extended(sc@, bundle)).push(
                        extended(old_scopes[i as int]@, bundle),
                    ));
                    assert(old_scopes.take(i as int + 1) =~= old_scopes.take(i as int).push(
                        old_scopes[i as int],
                    ));
                    assert(views_of(out@) =~= old_scopes.take(i as int + 1).map_values(
                        |sc: Scope| extended(sc@, bundle),
                    ));
                    assert(scopes@ =~= old_scopes.subrange(i as int + 1, old_scopes.len() as int));
                }
                i = i + 1;
            }
            proof {
                assert(old_scopes.take(i as int) =~= old_scopes);
            }
        }
        proof {
            assert(views_of(out@) =~= raft_end(old(self)@).1);
            assert(views_of(self.scopes@) =~= Seq::empty());
        }
        out
    }
}

/// The one scope registered in a raft cycle receives exactly one new bundle,
/// and that bundle holds every span recorded between `begin` and `end`,
/// before and after the scope was added.
pub proof fn lemma_raft_cycle_delivers_one_bundle(
    s: RaftTracerView,
    before: Seq<Span>,
    after: Seq<Span>,
    scope: ScopeView,
)
    requires
        !s.active,
    ensures
        ({
            let t = raft_record(raft_add_scope(raft_record(raft_begin(s), before), scope), after);
            let (next, out) = raft_end(t);
            &&& out.len() == s.scopes.len() + 1
            &&& out.last().name == scope.name
            &&& out.last().parents == scope.parents
            &&& out.last().bundles.len() == scope.bundles.len() + 1
            &&& out.last().bundles.drop_last() == scope.bundles
            &&& out.last().bundles.last() == before + after
            &&& !next.active
            &&& next.scopes.len() == 0
        }),
{
    let t = raft_record(raft_add_scope(raft_record(raft_begin(s), before), scope), after);
    assert(t.recorded =~= before + after);
    assert(t.scopes.last() == scope);
    let out = raft_end(t).1;
    assert(out.last() == extended(scope, before + after));
    assert(out.last().bundles.drop_last() =~= scope.bundles);
}

/// What an apply tracer is: whether a cycle is running, the spans recorded
/// since the last truncation, and the non-empty bundles that truncations kept.
pub struct ApplyTracerView {
    pub active: bool,
    pub recorded: Seq<Span>,
    pub segments: Seq<Seq<Span>>,
}

pub open spec fn apply_begin(s: ApplyTracerView) -> ApplyTracerView {
    ApplyTracerView { active: true, recorded: Seq::empty(), ..s }
}

pub open spec fn apply_record(s: ApplyTracerView, spans: Seq<Span>) -> ApplyTracerView {
    ApplyTracerView { recorded: s.recorded + spans, ..s }
}

/// Keeps what was recorded as a new segment unless it is empty, and goes on
/// recording with a fresh collector.
pub open spec fn apply_truncate(s: ApplyTracerView) -> ApplyTracerView {
    ApplyTracerView {
        active: true,
        recorded: Seq::empty(),
        segments: if s.recorded.len() > 0 {
            s.segments.push(s.recorded)
        } else {
            s.segments
        },
    }
}

/// Drops what was recorded since the last truncation, and every segment.
pub open spec fn apply_end(s: ApplyTracerView) -> ApplyTracerView {
    ApplyTracerView { active: false, recorded: Seq::empty(), segments: Seq::empty() }
}

/// What `partial_submit` shows: the segments, where there is at least one.
pub open spec fn apply_visible(s: ApplyTracerView) -> Option<Seq<Seq<Span>>> {
    if s.segments.len() > 0 {
        Some(s.segments)
    } else {
        None
    }
}

/// Runs a collector across an apply cycle that may be cut into sub-batches.
pub struct ApplyTracer {
    local_collector: Option<LocalCollector>,
    spans: Vec<Arc<RawSpans>>,
}

impl View for ApplyTracer {
    type V = ApplyTracerView;

    closed spec fn view(&self) -> ApplyTracerView {
        ApplyTracerView {
            active: self.local_collector is Some,
            recorded: match self.local_collector {
                Some(c) => c@,
                None => Seq::empty(),
            },
            segments: bundles_of(self.spans@),
        }
    }
}

impl ApplyTracer {
    /// Whether a cycle is running.
    pub fn is_active(&self) -> (r: bool)
        ensures
            r == self@.active,
    {
        self.local_collector.is_some()
    }

    /// The state of a thread that has not traced anything yet.
    pub fn new() -> (r: ApplyTracer)
        ensures
            r@ == (ApplyTracerView { active: false, recorded: Seq::empty(), segments: Seq::empty() }),
    {
        let r = ApplyTracer { local_collector: None, spans: Vec::new() };
        proof {
            assert(bundles_of(r.spans@) =~= Seq::empty());
        }
        r
    }

    /// Starts a cycle with a fresh collector.
    pub fn begin(&mut self)
        requires
            !old(self)@.active,
        ensures
            final(self)@ == apply_begin(old(self)@),
    {
        self.local_collector = Some(LocalCollector::start());
    }

    /// Records a span into the running cycle.
    pub fn record(&mut self, span: Span)
        requires
            old(self)@.active,
        ensures
            final(self)@ == apply_record(old(self)@, seq![span]),
    {
        let mut c = self.local_collector.take().unwrap();
        c.record(span);
        self.local_collector = Some(c);
        proof {
            assert(old(self)@.recorded.push(span) =~= old(self)@.recorded + seq![span]);
        }
    }

    /// Closes a sub-batch: a non-empty bundle of what was recorded joins the
    /// segments, and recording goes on without a gap.
    pub fn truncate(&mut self)
        requires
            old(self)@.active,
        ensures
            final(self)@ == apply_truncate(old(self)@),
    {
        let raw_spans = self.local_collector.take().unwrap().collect();
        if raw_spans.spans.len() > 0 {
            let ghost before = self.spans@;
            self.spans.push(Arc::new(raw_spans));
            proof {
                assert(bundles_of(self.spans@) =~= bundles_of(before).push(old(self)@.recorded));
            }
        }
        self.local_collector = Some(LocalCollector::start());
    }

    /// Lends out the segments kept so far, where there is at least one, for
    /// the caller to visit. Nothing is taken or cleared.
    pub fn partial_submit(&self) -> (r: Option<&[Arc<RawSpans>]>)
        ensures
            apply_visible(self@) == (match r {
                Some(s) => Some(bundles_of(s@)),
                None => None,
            }),
    {
        if self.spans.len() > 0 {
            Some(self.spans.as_slice())
        } else {
            None
        }
    }

    /// Ends the cycle: what was recorded since the last truncation is
    /// dropped, and so are the segments.
    pub fn end(&mut self)
        requires
            old(self)@.active,
        ensures
            final(self)@ == apply_end(old(self)@),
    {
        let _ = self.local_collector.take().unwrap().collect();
        self.spans.clear();
        proof {
            assert(bundles_of(self.spans@) =~= Seq::empty());
        }
    }
}

/// In a cycle from an empty tracer, a first truncation of a window that holds
/// spans keeps exactly that one bundle, a second truncation of an empty
/// window keeps it unchanged, and `end` clears it.
pub proof fn lemma_apply_truncate_twice(s: ApplyTracerView, window: Seq<Span>)
    requires
        !s.active,
        s.segments.len() == 0,
        window.len() > 0,
    ensures
        ({
            let first = apply_truncate(apply_record(apply_begin(s), window));
            let second = apply_truncate(first);
            &&& first.segments == seq![window]
            &&& second.segments == seq![window]
            &&& apply_visible(second) == Some(seq![window])
            &&& apply_end(second).segments.len() == 0
        }),
{
    let first = apply_truncate(apply_record(apply_begin(s), window));
    assert(apply_record(apply_begin(s), window).recorded =~= window);
    assert(first.segments =~= seq![window]);
}

/// Spans recorded after the last truncation are never shown by
/// `partial_submit`, and nothing is left of them after `end`.
pub proof fn lemma_apply_trailing_spans_dropped(s: ApplyTracerView, trailing: Seq<Span>)
    requires
        s.active,
    ensures
        apply_visible(apply_record(s, trailing)) == apply_visible(s),
        apply_end(apply_record(s, trailing)).segments.len() == 0,
        apply_end(apply_record(s, trailing)).recorded.len() == 0,
{
}

} // verus!
