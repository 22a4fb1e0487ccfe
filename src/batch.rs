//! Coalescing of point reads into batched engine calls, and routing of the
//! engine's answers back to the requests by id.
use vstd::prelude::*;

use crate::kvrpc::{
    BatchResponse, CommandPri, GetRequest, GetResponse, RawError, RegionError, RawGetRequest,
    RawGetResponse, ReportRoutine, ScanDetail, StorageError, no_exec_details, no_scan_detail,
};
use crate::trace::{Scope, ScopeName, ScopeView, names_of};

verus! {

/// Above this many pending plain gets, `maybe_commit` flushes them.
pub const GET_HIGH_WATER: usize = 10;

/// Above this many pending raw gets, `maybe_commit` flushes them.
pub const RAW_GET_HIGH_WATER: usize = 16;

/// What a pending group is: four index-aligned sequences and the size above
/// which an opportunistic flush takes them.
pub struct PendingView<R> {
    pub requests: Seq<R>,
    pub ids: Seq<u64>,
    pub scopes: Seq<Scope>,
    pub report_routines: Seq<ReportRoutine>,
    pub high_water: usize,
}

impl<R> PendingView<R> {
    /// The four sequences are equally long.
    pub open spec fn wf(self) -> bool {
        &&& self.ids.len() == self.requests.len()
        &&& self.scopes.len() == self.requests.len()
        &&& self.report_routines.len() == self.requests.len()
    }

    pub open spec fn len(self) -> nat {
        self.requests.len()
    }

    pub open spec fn pushed(self, req: R, id: u64, scope: Scope, report_routine: ReportRoutine) -> Self {
        PendingView {
            requests: self.requests.push(req),
            ids: self.ids.push(id),
            scopes: self.scopes.push(scope),
            report_routines: self.report_routines.push(report_routine),
            high_water: self.high_water,
        }
    }

    pub open spec fn emptied(self) -> Self {
        PendingView {
            requests: Seq::empty(),
            ids: Seq::empty(),
            scopes: Seq::empty(),
            report_routines: Seq::empty(),
            high_water: self.high_water,
        }
    }
}

/// The requests of one kind that wait to be flushed.
pub struct PendingRequestGroup<R> {
    requests: Vec<R>,
    ids: Vec<u64>,
    scopes: Vec<Scope>,
    report_routines: Vec<ReportRoutine>,
    high_water: usize,
}

impl<R> View for PendingRequestGroup<R> {
    type V = PendingView<R>;

    closed spec fn view(&self) -> PendingView<R> {
        PendingView {
            requests: self.requests@,
            ids: self.ids@,
            scopes: self.scopes@,
            report_routines: self.report_routines@,
            high_water: self.high_water,
        }
    }
}

/// A group taken out of the batcher, with the aggregate scope whose parents
/// are the scopes of its requests, in order.
pub struct FlushedBatch<R> {
    pub requests: Vec<R>,
    pub ids: Vec<u64>,
    pub scopes: Vec<Scope>,
    pub report_routines: Vec<ReportRoutine>,
    pub scope: Scope,
}

/// `b` holds exactly what `g` held, and its aggregate scope is named `name`.
pub open spec fn flushed_from<R>(b: FlushedBatch<R>, g: PendingView<R>, name: ScopeName) -> bool {
    &&& b.requests@ == g.requests
    &&& b.ids@ == g.ids
    &&& b.scopes@ == g.scopes
    &&& b.report_routines@ == g.report_routines
    &&& b.scope@ == (ScopeView { name, parents: names_of(g.scopes), bundles: Seq::empty() })
}

impl<R> PendingRequestGroup<R> {
    pub fn new(high_water: usize) -> (r: Self)
        ensures
            r@.wf(),
            r@.len() == 0,
            r@.high_water == high_water,
    {
        PendingRequestGroup {
            requests: Vec::new(),
            ids: Vec::new(),
            scopes: Vec::new(),
            report_routines: Vec::new(),
            high_water,
        }
    }

    pub fn len(&self) -> (r: usize)
        ensures
            r == self@.len(),
    {
        self.requests.len()
    }

    pub fn ids(&self) -> (r: &Vec<u64>)
        ensures
            r@ == self@.ids,
    {
        &self.ids
    }

    pub fn high_water(&self) -> (r: usize)
        ensures
            r == self@.high_water,
    {
        self.high_water
    }

    pub fn push(&mut self, req: R, id: u64, scope: Scope, report_routine: ReportRoutine)
        requires
            old(self)@.wf(),
        ensures
            final(self)@ == old(self)@.pushed(req, id, scope, report_routine),
            final(self)@.wf(),
    {
        self.requests.push(req);
        self.ids.push(id);
        self.scopes.push(scope);
        self.report_routines.push(report_routine);
    }

    /// Takes all four sequences at once and leaves the group empty.
    pub fn flush(&mut self, name: ScopeName) -> (b: FlushedBatch<R>)
        requires
            old(self)@.wf(),
        ensures
            flushed_from(b, old(self)@, name),
            final(self)@ == old(self)@.emptied(),
    {
        let mut requests: Vec<R> = Vec::new();
        let mut ids: Vec<u64> = Vec::new();
        let mut scopes: Vec<Scope> = Vec::new();
        let mut report_routines: Vec<ReportRoutine> = Vec::new();
        std::mem::swap(&mut requests, &mut self.requests);
        std::mem::swap(&mut ids, &mut self.ids);
        std::mem::swap(&mut scopes, &mut self.scopes);
        std::mem::swap(&mut report_routines, &mut self.report_routines);
        let scope = Scope::from_parents(name, &scopes);
        proof {
            assert(self@ =~= old(self)@.emptied());
        }
        FlushedBatch { requests, ids, scopes, report_routines, scope }
    }
}

/// What a batcher is: its pending plain gets and its pending raw gets.
pub struct ReqBatcherView {
    pub gets: PendingView<GetRequest>,
    pub raw_gets: PendingView<RawGetRequest>,
}

impl ReqBatcherView {
    pub open spec fn wf(self) -> bool {
        self.gets.wf() && self.raw_gets.wf()
    }
}

/// The opportunistic flush of one group: taken whole once it holds more than
/// its high-water mark, else left as it is.
pub open spec fn maybe_flushed<R>(
    r: Option<FlushedBatch<R>>,
    before: PendingView<R>,
    after: PendingView<R>,
    name: ScopeName,
) -> bool {
    if before.len() > before.high_water {
        &&& r matches Some(b) && flushed_from(b, before, name)
        &&& after == before.emptied()
    } else {
        &&& r is None
        &&& after == before
    }
}

/// The unconditional flush of one group: taken whole unless it is empty.
pub open spec fn flushed_if_any<R>(
    r: Option<FlushedBatch<R>>,
    before: PendingView<R>,
    after: PendingView<R>,
    name: ScopeName,
) -> bool {
    if before.len() > 0 {
        &&& r matches Some(b) && flushed_from(b, before, name)
        &&& after == before.emptied()
    } else {
        &&& r is None
        &&& after == before
    }
}

/// The group after each of `items` was added to it, in order.
pub open spec fn added_all<R>(
    g: PendingView<R>,
    items: Seq<(R, u64, Scope, ReportRoutine)>,
) -> PendingView<R>
    decreases items.len(),
{
    if items.len() == 0 {
        g
    } else {
        let last = items.last();
        added_all(g, items.drop_last()).pushed(last.0, last.1, last.2, last.3)
    }
}

/// However many requests are added to an empty group, its four sequences
/// stay index-aligned and each holds exactly that many entries.
pub proof fn lemma_added_requests_stay_aligned<R>(
    g: PendingView<R>,
    items: Seq<(R, u64, Scope, ReportRoutine)>,
)
    requires
        g.wf(),
        g.len() == 0,
    ensures
        added_all(g, items).wf(),
        added_all(g, items).requests.len() == items.len(),
        added_all(g, items).ids.len() == items.len(),
        added_all(g, items).scopes.len() == items.len(),
        added_all(g, items).report_routines.len() == items.len(),
        added_all(g, items).ids == items.map_values(|it: (R, u64, Scope, ReportRoutine)| it.1),
    decreases items.len(),
{
    if items.len() > 0 {
        lemma_added_requests_stay_aligned(g, items.drop_last());
        assert(items.map_values(|it: (R, u64, Scope, ReportRoutine)| it.1) =~= items.drop_last().map_values(
            |it: (R, u64, Scope, ReportRoutine)| it.1,
        ).push(items.last().1));
    } else {
        assert(items.map_values(|it: (R, u64, Scope, ReportRoutine)| it.1) =~= Seq::<u64>::empty());
    }
}

/// Accumulates plain gets and raw gets of normal priority until they are
/// flushed as batches.
pub struct ReqBatcher {
    gets: PendingRequestGroup<GetRequest>,
    raw_gets: PendingRequestGroup<RawGetRequest>,
}

impl View for ReqBatcher {
    type V = ReqBatcherView;

    closed spec fn view(&self) -> ReqBatcherView {
        ReqBatcherView { gets: self.gets@, raw_gets: self.raw_gets@ }
    }
}

impl ReqBatcher {
    /// An empty batcher with the usual high-water marks.
    pub fn new() -> (r: ReqBatcher)
        ensures
            r@.wf(),
            r@.gets.len() == 0,
            r@.raw_gets.len() == 0,
            r@.gets.high_water == GET_HIGH_WATER,
            r@.raw_gets.high_water == RAW_GET_HIGH_WATER,
    {
        ReqBatcher::with_high_water(GET_HIGH_WATER, RAW_GET_HIGH_WATER)
    }

    /// An empty batcher that flushes opportunistically above the given sizes.
    pub fn with_high_water(get_high_water: usize, raw_get_high_water: usize) -> (r: ReqBatcher)
        ensures
            r@.wf(),
            r@.gets.len() == 0,
            r@.raw_gets.len() == 0,
            r@.gets.high_water == get_high_water,
            r@.raw_gets.high_water == raw_get_high_water,
    {
        ReqBatcher {
            gets: PendingRequestGroup::new(get_high_water),
            raw_gets: PendingRequestGroup::new(raw_get_high_water),
        }
    }

    pub fn pending_gets(&self) -> (r: &PendingRequestGroup<GetRequest>)
        ensures
            r@ == self@.gets,
    {
        &self.gets
    }

    pub fn pending_raw_gets(&self) -> (r: &PendingRequestGroup<RawGetRequest>)
        ensures
            r@ == self@.raw_gets,
    {
        &self.raw_gets
    }

    /// A get may join a batch only at normal priority.
    pub fn can_batch_get(&self, req: &GetRequest) -> (r: bool)
        ensures
            r == (req.context.priority == CommandPri::Normal),
    {
        matches!(req.context.priority, CommandPri::Normal)
    }

    /// A raw get may join a batch only at normal priority.
    pub fn can_batch_raw_get(&self, req: &RawGetRequest) -> (r: bool)
        ensures
            r == (req.context.priority == CommandPri::Normal),
    {
        matches!(req.context.priority, CommandPri::Normal)
    }

    pub fn add_get_request(
        &mut self,
        req: GetRequest,
        id: u64,
        scope: Scope,
        report_routine: ReportRoutine,
    )
        requires
            old(self)@.wf(),
        ensures
            final(self)@.wf(),
            final(self)@.gets == old(self)@.gets.pushed(req, id, scope, report_routine),
            final(self)@.raw_gets == old(self)@.raw_gets,
    {
        self.gets.push(req, id, scope, report_routine);
    }

    pub fn add_raw_get_request(
        &mut self,
        req: RawGetRequest,
        id: u64,
        scope: Scope,
        report_routine: ReportRoutine,
    )
        requires
            old(self)@.wf(),
        ensures
            final(self)@.wf(),
            final(self)@.gets == old(self)@.gets,
            final(self)@.raw_gets == old(self)@.raw_gets.pushed(req, id, scope, report_routine),
    {
        self.raw_gets.push(req, id, scope, report_routine);
    }

    /// Flushes each group that holds more than its high-water mark. The
    /// caller hands each batch to the engine.
    pub fn maybe_commit(&mut self) -> (r: (
        Option<FlushedBatch<GetRequest>>,
        Option<FlushedBatch<RawGetRequest>>,
    ))
        requires
            old(self)@.wf(),
        ensures
            final(self)@.wf(),
            maybe_flushed(r.0, old(self)@.gets, final(self)@.gets, ScopeName::BatchGetCommand),
            maybe_flushed(
                r.1,
                old(self)@.raw_gets,
                final(self)@.raw_gets,
                ScopeName::BatchRawGetCommand,
            ),
    {
        let gets = if self.gets.len() > self.gets.high_water {
            Some(self.gets.flush(ScopeName::BatchGetCommand))
        } else {
            None
        };
        let raw_gets = if self.raw_gets.len() > self.raw_gets.high_water {
            Some(self.raw_gets.flush(ScopeName::BatchRawGetCommand))
        } else {
            None
        };
        (gets, raw_gets)
    }

    /// Flushes every group that is not empty, whatever its size. The caller
    /// hands each batch to the engine.
    pub fn commit(&mut self) -> (r: (
        Option<FlushedBatch<GetRequest>>,
        Option<FlushedBatch<RawGetRequest>>,
    ))
        requires
            old(self)@.wf(),
        ensures
            final(self)@.wf(),
            final(self)@.gets.len() == 0,
            final(self)@.raw_gets.len() == 0,
            flushed_if_any(r.0, old(self)@.gets, final(self)@.gets, ScopeName::BatchGetCommand),
            flushed_if_any(
                r.1,
                old(self)@.raw_gets,
                final(self)@.raw_gets,
                ScopeName::BatchRawGetCommand,
            ),
    {
        let gets = if self.gets.len() > 0 {
            Some(self.gets.flush(ScopeName::BatchGetCommand))
        } else {
            None
        };
        let raw_gets = if self.raw_gets.len() > 0 {
            Some(self.raw_gets.flush(ScopeName::BatchRawGetCommand))
        } else {
            None
        };
        (gets, raw_gets)
    }
}

/// One element of a batched get's answer: the value, if the key has one,
/// and the scan statistics of the read; or an error for this key alone.
pub type GetResult = Result<(Option<Vec<u8>>, ScanDetail), StorageError>;

/// One element of a batched raw get's answer.
pub type RawGetResult = Result<Option<Vec<u8>>, RawError>;

/// `resp` carries the failure `e` and nothing else.
pub open spec fn get_failure_is(resp: GetResponse, e: StorageError) -> bool {
    &&& resp.value@.len() == 0
    &&& !resp.not_found
    &&& resp.exec_details.scan_detail == no_scan_detail()
    &&& match e {
        StorageError::Region(r) => resp.region_error == Some(r) && resp.error is None,
        StorageError::Key(k) => resp.region_error is None && resp.error == Some(k),
    }
}

/// `resp` is the response form of `v`, with the request's own timing written in.
pub open spec fn get_response_is(resp: GetResponse, v: GetResult, report_routine: ReportRoutine) -> bool {
    &&& resp.exec_details.time_detail == report_routine.time_detail
    &&& match v {
        Ok((value, stats)) => {
            &&& resp.region_error is None
            &&& resp.error is None
            &&& resp.exec_details.scan_detail == stats
            &&& match value {
                Some(x) => resp.value@ == x@ && !resp.not_found,
                None => resp.value@.len() == 0 && resp.not_found,
            }
        },
        Err(e) => get_failure_is(resp, e),
    }
}

/// `resp` carries the failure `e` and nothing else.
pub open spec fn raw_get_failure_is(resp: RawGetResponse, e: RawError) -> bool {
    &&& resp.value@.len() == 0
    &&& !resp.not_found
    &&& resp.exec_details.scan_detail == no_scan_detail()
    &&& match e {
        RawError::Region(r) => resp.region_error == Some(r) && resp.error@.len() == 0,
        RawError::Message(m) => resp.region_error is None && resp.error@ == m@,
    }
}

/// `resp` is the response form of `v`, with the request's own timing written in.
pub open spec fn raw_get_response_is(
    resp: RawGetResponse,
    v: RawGetResult,
    report_routine: ReportRoutine,
) -> bool {
    &&& resp.exec_details.time_detail == report_routine.time_detail
    &&& match v {
        Ok(value) => {
            &&& resp.region_error is None
            &&& resp.error@.len() == 0
            &&& resp.exec_details.scan_detail == no_scan_detail()
            &&& match value {
                Some(x) => resp.value@ == x@ && !resp.not_found,
                None => resp.value@.len() == 0 && resp.not_found,
            }
        },
        Err(e) => raw_get_failure_is(resp, e),
    }
}

/// `p` answers request `id` with the response form of `v`.
pub open spec fn is_get_answer(p: (u64, BatchResponse), id: u64, v: GetResult, report_routine: ReportRoutine) -> bool {
    p.0 == id && (p.1 matches BatchResponse::Get(resp) && get_response_is(resp, v, report_routine))
}

/// `p` answers request `id` with the failure of the whole batch.
pub open spec fn is_get_failure_answer(p: (u64, BatchResponse), id: u64, e: StorageError) -> bool {
    p.0 == id && (p.1 matches BatchResponse::Get(resp) && get_failure_is(resp, e)
        && resp.exec_details == no_exec_details())
}

/// `p` answers raw request `id` with the response form of `v`.
pub open spec fn is_raw_get_answer(
    p: (u64, BatchResponse),
    id: u64,
    v: RawGetResult,
    report_routine: ReportRoutine,
) -> bool {
    p.0 == id && (p.1 matches BatchResponse::RawGet(resp) && raw_get_response_is(resp, v, report_routine))
}

/// `p` answers raw request `id` with the failure of the whole batch.
pub open spec fn is_raw_get_failure_answer(p: (u64, BatchResponse), id: u64, e: RawError) -> bool {
    p.0 == id && (p.1 matches BatchResponse::RawGet(resp) && raw_get_failure_is(resp, e)
        && resp.exec_details == no_exec_details())
}

pub open spec fn min3(a: nat, b: nat, c: nat) -> nat {
    if a <= b && a <= c {
        a
    } else if b <= c {
        b
    } else {
        c
    }
}

/// The answers to a batch of gets, by id. Where the engine answered element
/// by element, the i-th answer goes to the i-th id, as far as the results,
/// the ids and the hooks all reach; where it failed as a whole, every id gets
/// the same failure and no hook runs.
pub open spec fn get_responses_are(
    r: Seq<(u64, BatchResponse)>,
    ids: Seq<u64>,
    report_routines: Seq<ReportRoutine>,
    ret: Result<Seq<GetResult>, StorageError>,
) -> bool {
    match ret {
        Ok(results) => {
            &&& r.len() == min3(results.len(), ids.len(), report_routines.len())
            &&& forall|i: int|
                0 <= i < r.len() ==> is_get_answer(#[trigger] r[i], ids[i], results[i], report_routines[i])
        },
        Err(e) => {
            &&& r.len() == ids.len()
            &&& forall|i: int| 0 <= i < r.len() ==> is_get_failure_answer(#[trigger] r[i], ids[i], e)
        },
    }
}

/// The answers to a batch of raw gets, by id, as for plain gets.
pub open spec fn raw_get_responses_are(
    r: Seq<(u64, BatchResponse)>,
    ids: Seq<u64>,
    report_routines: Seq<ReportRoutine>,
    ret: Result<Seq<RawGetResult>, RawError>,
) -> bool {
    match ret {
        Ok(results) => {
            &&& r.len() == min3(results.len(), ids.len(), report_routines.len())
            &&& forall|i: int|
                0 <= i < r.len() ==> is_raw_get_answer(#[trigger] r[i], ids[i], results[i], report_routines[i])
        },
        Err(e) => {
            &&& r.len() == ids.len()
            &&& forall|i: int| 0 <= i < r.len() ==> is_raw_get_failure_answer(#[trigger] r[i], ids[i], e)
        },
    }
}

pub open spec fn results_view(ret: Result<Vec<GetResult>, StorageError>) -> Result<Seq<GetResult>, StorageError> {
    match ret {
        Ok(v) => Ok(v@),
        Err(e) => Err(e),
    }
}

pub open spec fn raw_results_view(ret: &Result<Vec<RawGetResult>, RawError>) -> Result<Seq<RawGetResult>, RawError> {
    match *ret {
        Ok(v) => Ok(v@),
        Err(e) => Err(e),
    }
}

fn copy_bytes(x: &Vec<u8>) -> (r: Vec<u8>)
    ensures
        r@ == x@,
{
    let r = x.clone();
    proof {
        assert(r@ =~= x@);
    }
    r
}

fn get_failure_response(e: StorageError) -> (resp: GetResponse)
    ensures
        get_failure_is(resp, e),
        resp.exec_details == no_exec_details(),
{
    let mut resp = GetResponse::empty();
    match e {
        StorageError::Region(r) => resp.region_error = Some(r),
        StorageError::Key(k) => resp.error = Some(k),
    }
    resp
}

fn get_response(v: &GetResult, report_routine: ReportRoutine) -> (resp: GetResponse)
    ensures
        get_response_is(resp, *v, report_routine),
{
    let mut resp = match v {
        Ok((value, stats)) => {
            let mut resp = GetResponse::empty();
            resp.exec_details.scan_detail = *stats;
            match value {
                Some(x) => resp.value = copy_bytes(x),
                None => resp.not_found = true,
            }
            resp
        },
        Err(e) => get_failure_response(*e),
    };
    report_routine.report_get(&mut resp);
    resp
}

/// Turns the engine's answer to a batch of gets into one response per
/// request id.
pub fn batch_get_responses(
    ids: &Vec<u64>,
    report_routines: &Vec<ReportRoutine>,
    ret: &Result<Vec<GetResult>, StorageError>,
) -> (r: Vec<(u64, BatchResponse)>)
    ensures
        get_responses_are(r@, ids@, report_routines@, results_view(*ret)),
{
    let mut out: Vec<(u64, BatchResponse)> = Vec::new();
    match ret {
        Ok(results) => {
            let mut n = results.len();
            if ids.len() < n {
                n = ids.len();
            }
            if report_routines.len() < n {
                n = report_routines.len();
            }
            let mut i: usize = 0;
            while i < n
                invariant
                    n == min3(results@.len(), ids@.len(), report_routines@.len()),
                    i <= n,
                    out@.len() == i,
                    forall|j: int|
                        0 <= j < i ==> is_get_answer(#[trigger] out@[j], ids@[j], results@[j], report_routines@[j]),
                decreases n - i,
            {
                let resp = get_response(&results[i], report_routines[i]);
                out.push((ids[i], BatchResponse::Get(resp)));
                i = i + 1;
            }
        },
        Err(e) => {
            let mut i: usize = 0;
            while i < ids.len()
                invariant
                    i <= ids@.len(),
                    out@.len() == i,
                    forall|j: int| 0 <= j < i ==> is_get_failure_answer(#[trigger] out@[j], ids@[j], *e),
                decreases ids@.len() - i,
            {
                let resp = get_failure_response(*e);
                out.push((ids[i], BatchResponse::Get(resp)));
                i = i + 1;
            }
        },
    }
    out
}

fn copy_message(m: &String) -> (r: String)
    ensures
        r@ == m@,
{
    m.clone()
}

fn raw_get_failure_response(e: &RawError) -> (resp: RawGetResponse)
    ensures
        raw_get_failure_is(resp, *e),
        resp.exec_details == no_exec_details(),
{
    let mut resp = RawGetResponse::empty();
    match e {
        RawError::Region(r) => resp.region_error = Some(*r),
        RawError::Message(m) => resp.error = copy_message(m),
    }
    resp
}

fn raw_get_response(v: &RawGetResult, report_routine: ReportRoutine) -> (resp: RawGetResponse)
    ensures
        raw_get_response_is(resp, *v, report_routine),
{
    let mut resp = match v {
        Ok(value) => {
            let mut resp = RawGetResponse::empty();
            match value {
                Some(x) => resp.value = copy_bytes(x),
                None => resp.not_found = true,
            }
            resp
        },
        Err(e) => raw_get_failure_response(e),
    };
    report_routine.report_raw_get(&mut resp);
    resp
}

/// Turns the engine's answer to a batch of raw gets into one response
/// per request id.
pub fn batch_raw_get_responses(
    ids: &Vec<u64>,
    report_routines: &Vec<ReportRoutine>,
    ret: &Result<Vec<RawGetResult>, RawError>,
) -> (r: Vec<(u64, BatchResponse)>)
    ensures
        raw_get_responses_are(r@, ids@, report_routines@, raw_results_view(ret)),
{
    let mut out: Vec<(u64, BatchResponse)> = Vec::new();
    match ret {
        Ok(results) => {
            let mut n = results.len();
            if ids.len() < n {
                n = ids.len();
            }
            if report_routines.len() < n {
                n = report_routines.len();
            }
            let mut i: usize = 0;
            while i < n
                invariant
                    n == min3(results@.len(), ids@.len(), report_routines@.len()),
                    i <= n,
                    out@.len() == i,
                    forall|j: int|
                        0 <= j < i ==> is_raw_get_answer(#[trigger] out@[j], ids@[j], results@[j], report_routines@[j]),
                decreases n - i,
            {
                let resp = raw_get_response(&results[i], report_routines[i]);
                out.push((ids[i], BatchResponse::RawGet(resp)));
                i = i + 1;
            }
        },
        Err(e) => {
            let mut i: usize = 0;
            while i < ids.len()
                invariant
                    i <= ids@.len(),
                    out@.len() == i,
                    forall|j: int| 0 <= j < i ==> is_raw_get_failure_answer(#[trigger] out@[j], ids@[j], *e),
                decreases ids@.len() - i,
            {
                let resp = raw_get_failure_response(e);
                out.push((ids[i], BatchResponse::RawGet(resp)));
                i = i + 1;
            }
        },
    }
    out
}

/// Where the engine answers a batch with one result per request, every id
/// of the batch gets exactly one response, in the order of the batch, and
/// each response is the response form of the result at its position.
pub proof fn lemma_aligned_batch_answers_every_id(
    r: Seq<(u64, BatchResponse)>,
    ids: Seq<u64>,
    report_routines: Seq<ReportRoutine>,
    results: Seq<GetResult>,
)
    requires
        results.len() == ids.len(),
        report_routines.len() == ids.len(),
        get_responses_are(r, ids, report_routines, Ok(results)),
    ensures
        r.map_values(|p: (u64, BatchResponse)| p.0) == ids,
        forall|i: int|
            0 <= i < r.len() ==> ((#[trigger] r[i]).1 matches BatchResponse::Get(resp)
                && get_response_is(resp, results[i], report_routines[i])),
{
    assert(r.map_values(|p: (u64, BatchResponse)| p.0) =~= ids);
}

/// Where the engine fails a whole batch of gets with a routing error, every
/// id gets a response that carries that same error, and no hook has written
/// into any of them.
pub proof fn lemma_get_failure_is_broadcast(
    r: Seq<(u64, BatchResponse)>,
    ids: Seq<u64>,
    report_routines: Seq<ReportRoutine>,
    e: RegionError,
)
    requires
        get_responses_are(r, ids, report_routines, Err(StorageError::Region(e))),
    ensures
        r.map_values(|p: (u64, BatchResponse)| p.0) == ids,
        forall|i: int|
            0 <= i < r.len() ==> ((#[trigger] r[i]).1 matches BatchResponse::Get(resp)
                && resp.region_error == Some(e) && resp.exec_details == no_exec_details()),
{
    assert(r.map_values(|p: (u64, BatchResponse)| p.0) =~= ids);
}

/// Where the engine fails a whole batch of raw gets with a routing error,
/// every id gets a response that carries that same error, and no hook has
/// written into any of them.
pub proof fn lemma_raw_get_failure_is_broadcast(
    r: Seq<(u64, BatchResponse)>,
    ids: Seq<u64>,
    report_routines: Seq<ReportRoutine>,
    e: RegionError,
)
    requires
        raw_get_responses_are(r, ids, report_routines, Err(RawError::Region(e))),
    ensures
        r.map_values(|p: (u64, BatchResponse)| p.0) == ids,
        forall|i: int|
            0 <= i < r.len() ==> ((#[trigger] r[i]).1 matches BatchResponse::RawGet(resp)
                && resp.region_error == Some(e) && resp.exec_details == no_exec_details()),
{
    assert(r.map_values(|p: (u64, BatchResponse)| p.0) =~= ids);
}

} // verus!
