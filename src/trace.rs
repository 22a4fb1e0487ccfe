//! Spans, the collector that records them, and the scopes they are attached to.
use std::sync::Arc;
use vstd::prelude::*;

verus! {

/// A timed record of one unit of work.
#[derive(Clone, Copy, Debug, PartialEq, Eq, Structural)]
pub struct Span {
    pub id: u64,
    pub parent_id: u64,
    pub begin_unix_time_ns: u64,
    pub duration_ns: u64,
}

/// An immutable bundle of spans, as a stopped collector yields it.
#[derive(Debug)]
pub struct RawSpans {
    pub spans: Vec<Span>,
}

impl View for RawSpans {
    type V = Seq<Span>;

    open spec fn view(&self) -> Seq<Span> {
        self.spans@
    }
}

/// Records spans while it runs; `collect` stops it.
pub struct LocalCollector {
    spans: Vec<Span>,
}

impl View for LocalCollector {
    type V = Seq<Span>;

    closed spec fn view(&self) -> Seq<Span> {
        self.spans@
    }
}

impl LocalCollector {
    pub fn start() -> (r: LocalCollector)
        ensures
            r@ == Seq::<Span>::empty(),
    {
        LocalCollector { spans: Vec::new() }
    }

    pub fn record(&mut self, span: Span)
        ensures
            final(self)@ == old(self)@.push(span),
    {
        self.spans.push(span);
    }

    /// Stops recording and hands out what was recorded.
    pub fn collect(self) -> (r: RawSpans)
        ensures
            r@ == self@,
    {
        RawSpans { spans: self.spans }
    }
}

/// The name of a trace scope.
#[derive(Clone, Copy, Debug, PartialEq, Eq, Structural)]
pub enum ScopeName {
    /// The scope of one request, by the id its connection gave it.
    Request(u64),
    /// The aggregate scope of a batch of plain gets.
    BatchGetCommand,
    /// The aggregate scope of a batch of raw gets.
    BatchRawGetCommand,
}

/// What a scope is: its name, the names of its parents, and the span
/// bundles it was extended with, in order.
pub struct ScopeView {
    pub name: ScopeName,
    pub parents: Seq<ScopeName>,
    pub bundles: Seq<Seq<Span>>,
}

/// A node of the trace tree that gathers span bundles from many sources.
#[derive(Debug)]
pub struct Scope {
    name: ScopeName,
    parents: Vec<ScopeName>,
    raw_spans: Vec<Arc<RawSpans>>,
}

pub open spec fn bundles_of(v: Seq<Arc<RawSpans>>) -> Seq<Seq<Span>> {
    v.map_values(|a: Arc<RawSpans>| a@)
}

pub open spec fn names_of(v: Seq<Scope>) -> Seq<ScopeName> {
    v.map_values(|s: Scope| s@.name)
}

impl View for Scope {
    type V = ScopeView;

    closed spec fn view(&self) -> ScopeView {
        ScopeView { name: self.name, parents: self.parents@, bundles: bundles_of(self.raw_spans@) }
    }
}

impl Scope {
    /// A root scope.
    pub fn new(name: ScopeName) -> (r: Scope)
        ensures
            r@ == (ScopeView { name, parents: Seq::empty(), bundles: Seq::empty() }),
    {
        let r = Scope { name, parents: Vec::new(), raw_spans: Vec::new() };
        proof {
            assert(bundles_of(r.raw_spans@) =~= Seq::empty());
        }
        r
    }

    /// A scope that is the child of every scope of `parents`, in their order.
    pub fn from_parents(name: ScopeName, parents: &Vec<Scope>) -> (r: Scope)
        ensures
            r@ == (ScopeView { name, parents: names_of(parents@), bundles: Seq::empty() }),
    {
        let mut names: Vec<ScopeName> = Vec::new();
        let mut i: usize = 0;
        while i < parents.len()
            invariant
                i <= parents@.len(),
                names@ == names_of(parents@.take(i as int)),
            decreases parents@.len() - i,
        {
            proof {
                assert(parents@.take(i as int + 1) =~= parents@.take(i as int).push(parents@[i as int]));
            }
            names.push(parents[i].name);
            i = i + 1;
        }
        proof {
            assert(parents@.take(i as int) =~= parents@);
        }
        let r = Scope { name, parents: names, raw_spans: Vec::new() };
        proof {
            assert(bundles_of(r.raw_spans@) =~= Seq::empty());
        }
        r
    }

    pub fn name(&self) -> (r: ScopeName)
        ensures
            r == self@.name,
    {
        self.name
    }

    pub fn parents(&self) -> (r: &Vec<ScopeName>)
        ensures
            r@ == self@.parents,
    {
        &self.parents
    }

    /// The span bundles this scope was extended with.
    pub fn raw_spans(&self) -> (r: &Vec<Arc<RawSpans>>)
        ensures
            bundles_of(r@) == self@.bundles,
    {
        &self.raw_spans
    }

    /// Attaches a shared bundle of spans to this scope.
    pub fn extend_raw_spans(&mut self, spans: Arc<RawSpans>)
        ensures
            final(self)@ == (ScopeView { bundles: old(self)@.bundles.push(spans@), ..old(self)@ }),
    {
        self.raw_spans.push(spans);
        proof {
            assert(bundles_of(self.raw_spans@) =~= bundles_of(old(self).raw_spans@).push(spans@));
        }
    }
}

} // verus!
