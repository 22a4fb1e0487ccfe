use kv_read_path::batch::{
    FlushedBatch, GetResult, RawGetResult, ReqBatcher, batch_get_responses,
    batch_raw_get_responses, GET_HIGH_WATER, RAW_GET_HIGH_WATER,
};
use kv_read_path::kvrpc::{
    BatchResponse, CommandPri, Context, ExecDetails, GetRequest, GetResponse, KeyError,
    RawError, RawGetRequest, RawGetResponse, RegionError, ReportRoutine, ScanDetail,
    StorageError, TimeDetail,
};
use kv_read_path::trace::{Scope, ScopeName};

fn ctx(priority: CommandPri) -> Context {
    Context { region_id: 1, priority }
}

fn get(key: &str) -> GetRequest {
    GetRequest { context: ctx(CommandPri::Normal), key: key.as_bytes().to_vec(), version: 5 }
}

fn raw_get(key: &str) -> RawGetRequest {
    RawGetRequest {
        context: ctx(CommandPri::Normal),
        key: key.as_bytes().to_vec(),
        cf: "default".to_string(),
    }
}

fn hook(ms: u64) -> ReportRoutine {
    ReportRoutine { time_detail: TimeDetail { wait_wall_time_ms: ms, process_wall_time_ms: ms * 2 } }
}

fn no_details() -> ExecDetails {
    ExecDetails {
        scan_detail: ScanDetail { processed_versions: 0, total_versions: 0 },
        time_detail: TimeDetail { wait_wall_time_ms: 0, process_wall_time_ms: 0 },
    }
}

fn add_gets(b: &mut ReqBatcher, ids: &[u64]) {
    for &id in ids {
        b.add_get_request(get("k"), id, Scope::new(ScopeName::Request(id)), hook(id));
    }
}

fn add_raw_gets(b: &mut ReqBatcher, ids: &[u64]) {
    for &id in ids {
        b.add_raw_get_request(raw_get("k"), id, Scope::new(ScopeName::Request(id)), hook(id));
    }
}

fn stats() -> ScanDetail {
    ScanDetail { processed_versions: 3, total_versions: 4 }
}

fn as_get(r: &BatchResponse) -> &GetResponse {
    match r {
        BatchResponse::Get(g) => g,
        BatchResponse::RawGet(_) => panic!("expected a get response"),
    }
}

fn as_raw_get(r: &BatchResponse) -> &RawGetResponse {
    match r {
        BatchResponse::RawGet(g) => g,
        BatchResponse::Get(_) => panic!("expected a raw get response"),
    }
}

#[test]
fn only_normal_priority_is_batched() {
    let b = ReqBatcher::new();
    let mut g = get("a");
    assert!(b.can_batch_get(&g));
    g.context.priority = CommandPri::High;
    assert!(!b.can_batch_get(&g));
    g.context.priority = CommandPri::Low;
    assert!(!b.can_batch_get(&g));
    let mut r = raw_get("a");
    assert!(b.can_batch_raw_get(&r));
    r.context.priority = CommandPri::High;
    assert!(!b.can_batch_raw_get(&r));
}

#[test]
fn added_requests_stay_aligned() {
    let mut b = ReqBatcher::new();
    add_gets(&mut b, &[4, 5, 6]);
    add_raw_gets(&mut b, &[8]);
    assert_eq!(b.pending_gets().len(), 3);
    assert_eq!(b.pending_gets().ids(), &vec![4, 5, 6]);
    assert_eq!(b.pending_raw_gets().len(), 1);
    assert_eq!(b.pending_raw_gets().ids(), &vec![8]);
}

#[test]
fn default_high_water_marks() {
    let mut b = ReqBatcher::new();
    assert_eq!(b.pending_gets().high_water(), GET_HIGH_WATER);
    assert_eq!(b.pending_raw_gets().high_water(), RAW_GET_HIGH_WATER);
    add_gets(&mut b, &[1, 2, 3, 4, 5, 6, 7, 8, 9, 10]);
    add_raw_gets(&mut b, &[1, 2, 3, 4, 5, 6, 7, 8, 9, 10, 11, 12, 13, 14, 15, 16]);
    let (g, r) = b.maybe_commit();
    assert!(g.is_none());
    assert!(r.is_none());
    add_gets(&mut b, &[11]);
    add_raw_gets(&mut b, &[17]);
    let (g, r) = b.maybe_commit();
    assert_eq!(g.expect("gets flushed").ids.len(), 11);
    assert_eq!(r.expect("raw gets flushed").ids.len(), 17);
    assert_eq!(b.pending_gets().len(), 0);
    assert_eq!(b.pending_raw_gets().len(), 0);
}

#[test]
fn maybe_commit_at_high_water_is_noop() {
    let mut b = ReqBatcher::with_high_water(2, 2);
    add_gets(&mut b, &[1, 2]);
    let (g, r) = b.maybe_commit();
    assert!(g.is_none());
    assert!(r.is_none());
    assert_eq!(b.pending_gets().ids(), &vec![1, 2]);
}

#[test]
fn maybe_commit_flushes_above_high_water() {
    let mut b = ReqBatcher::with_high_water(2, 2);
    add_gets(&mut b, &[1, 2, 3]);
    add_raw_gets(&mut b, &[9]);
    let (g, r) = b.maybe_commit();
    let g: FlushedBatch<GetRequest> = g.expect("gets flushed");
    assert!(r.is_none());
    assert_eq!(g.ids, vec![1, 2, 3]);
    assert_eq!(g.requests.len(), 3);
    assert_eq!(g.scopes.len(), 3);
    assert_eq!(g.report_routines, vec![hook(1), hook(2), hook(3)]);
    assert_eq!(g.scope.name(), ScopeName::BatchGetCommand);
    assert_eq!(
        g.scope.parents(),
        &vec![ScopeName::Request(1), ScopeName::Request(2), ScopeName::Request(3)]
    );
    assert_eq!(b.pending_gets().len(), 0);
    assert_eq!(b.pending_raw_gets().ids(), &vec![9]);
}

#[test]
fn commit_flushes_single_request() {
    let mut b = ReqBatcher::new();
    add_gets(&mut b, &[42]);
    let (g, r) = b.commit();
    assert_eq!(g.expect("gets flushed").ids, vec![42]);
    assert!(r.is_none());
    assert_eq!(b.pending_gets().len(), 0);
    let (g, r) = b.commit();
    assert!(g.is_none());
    assert!(r.is_none());
}

#[test]
fn commit_raw_gets_takes_their_own_scopes() {
    let mut b = ReqBatcher::new();
    add_gets(&mut b, &[1, 2]);
    add_raw_gets(&mut b, &[3]);
    let (g, r) = b.commit();
    let g = g.expect("gets flushed");
    let r = r.expect("raw gets flushed");
    assert_eq!(g.scopes.len(), 2);
    assert_eq!(r.scopes.len(), 1);
    assert_eq!(r.scopes[0].name(), ScopeName::Request(3));
    assert_eq!(r.scope.name(), ScopeName::BatchRawGetCommand);
    assert_eq!(r.scope.parents(), &vec![ScopeName::Request(3)]);
}

#[test]
fn threshold_two_scenario() {
    let mut b = ReqBatcher::with_high_water(2, 2);
    add_gets(&mut b, &[1, 2]);
    assert!(b.maybe_commit().0.is_none());
    add_gets(&mut b, &[3]);
    let batch = b.maybe_commit().0.expect("three gets flushed");
    assert_eq!(batch.ids, vec![1, 2, 3]);
    let ret: Result<Vec<GetResult>, StorageError> = Ok(vec![
        Ok((Some(b"a".to_vec()), stats())),
        Ok((None, stats())),
        Ok((Some(b"c".to_vec()), stats())),
    ]);
    let out = batch_get_responses(&batch.ids, &batch.report_routines, &ret);
    assert_eq!(out.len(), 3);
    for (id, resp) in &out {
        let g = as_get(resp);
        assert!(g.region_error.is_none());
        assert!(g.error.is_none());
        match id {
            1 => assert_eq!((g.value.as_slice(), g.not_found), (&b"a"[..], false)),
            2 => assert_eq!((g.value.as_slice(), g.not_found), (&b""[..], true)),
            3 => assert_eq!((g.value.as_slice(), g.not_found), (&b"c"[..], false)),
            _ => panic!("unexpected id {}", id),
        }
    }
}

#[test]
fn aligned_results_answer_every_id() {
    let ids = vec![10, 20, 30];
    let hooks = vec![hook(1), hook(2), hook(3)];
    let ret: Result<Vec<GetResult>, StorageError> = Ok(vec![
        Ok((Some(b"x".to_vec()), stats())),
        Err(StorageError::Region(RegionError::EpochNotMatch { region_id: 9 })),
        Err(StorageError::Key(KeyError::Locked { lock_version: 7, lock_ttl: 100 })),
    ]);
    let out = batch_get_responses(&ids, &hooks, &ret);
    assert_eq!(out.iter().map(|p| p.0).collect::<Vec<_>>(), ids);
    let first = as_get(&out[0].1);
    assert_eq!(first.value, b"x".to_vec());
    assert_eq!(first.exec_details.scan_detail, stats());
    assert_eq!(first.exec_details.time_detail, hook(1).time_detail);
    let second = as_get(&out[1].1);
    assert_eq!(second.region_error, Some(RegionError::EpochNotMatch { region_id: 9 }));
    assert!(second.error.is_none());
    assert!(!second.not_found);
    assert_eq!(second.exec_details.time_detail, hook(2).time_detail);
    let third = as_get(&out[2].1);
    assert!(third.region_error.is_none());
    assert_eq!(third.error, Some(KeyError::Locked { lock_version: 7, lock_ttl: 100 }));
    assert!(third.value.is_empty());
}

#[test]
fn region_failure_is_broadcast_without_hooks() {
    let ids = vec![1, 2, 3, 4];
    let hooks = vec![hook(1), hook(2), hook(3), hook(4)];
    let err = RegionError::NotLeader { region_id: 5, leader_store_id: 6 };
    let ret: Result<Vec<GetResult>, StorageError> = Err(StorageError::Region(err));
    let out = batch_get_responses(&ids, &hooks, &ret);
    assert_eq!(out.iter().map(|p| p.0).collect::<Vec<_>>(), ids);
    for (_, resp) in &out {
        let g = as_get(resp);
        assert_eq!(g.region_error, Some(err));
        assert!(g.error.is_none());
        assert_eq!(g.exec_details, no_details());
    }
}

#[test]
fn key_failure_is_broadcast() {
    let ids = vec![1, 2];
    let hooks = vec![hook(1), hook(2)];
    let ret: Result<Vec<GetResult>, StorageError> = Err(StorageError::Key(KeyError::Abort));
    let out = batch_get_responses(&ids, &hooks, &ret);
    assert_eq!(out.len(), 2);
    for (_, resp) in &out {
        let g = as_get(resp);
        assert!(g.region_error.is_none());
        assert_eq!(g.error, Some(KeyError::Abort));
    }
}

#[test]
fn short_result_list_answers_what_it_can() {
    let ids = vec![1, 2, 3];
    let hooks = vec![hook(1), hook(2), hook(3)];
    let ret: Result<Vec<GetResult>, StorageError> = Ok(vec![Ok((None, stats()))]);
    let out = batch_get_responses(&ids, &hooks, &ret);
    assert_eq!(out.len(), 1);
    assert_eq!(out[0].0, 1);
    assert!(as_get(&out[0].1).not_found);
}

#[test]
fn raw_results_answer_every_id() {
    let ids = vec![7, 8, 9];
    let hooks = vec![hook(1), hook(2), hook(3)];
    let ret: Result<Vec<RawGetResult>, RawError> = Ok(vec![
        Ok(Some(b"v".to_vec())),
        Ok(None),
        Err(RawError::Message("disk full".to_string())),
    ]);
    let out = batch_raw_get_responses(&ids, &hooks, &ret);
    assert_eq!(out.iter().map(|p| p.0).collect::<Vec<_>>(), ids);
    let a = as_raw_get(&out[0].1);
    assert_eq!(a.value, b"v".to_vec());
    assert!(!a.not_found);
    assert_eq!(a.exec_details.time_detail, hook(1).time_detail);
    assert!(as_raw_get(&out[1].1).not_found);
    let c = as_raw_get(&out[2].1);
    assert_eq!(c.error, "disk full");
    assert!(c.region_error.is_none());
}

#[test]
fn raw_region_failure_is_broadcast_without_hooks() {
    let ids = vec![1, 2];
    let hooks = vec![hook(1), hook(2)];
    let ret: Result<Vec<RawGetResult>, RawError> =
        Err(RawError::Region(RegionError::ServerIsBusy));
    let out = batch_raw_get_responses(&ids, &hooks, &ret);
    assert_eq!(out.len(), 2);
    for (_, resp) in &out {
        let r = as_raw_get(resp);
        assert_eq!(r.region_error, Some(RegionError::ServerIsBusy));
        assert!(r.error.is_empty());
        assert_eq!(r.exec_details, no_details());
    }
}

#[test]
fn raw_message_failure_is_broadcast() {
    let ids = vec![3];
    let hooks = vec![hook(3)];
    let ret: Result<Vec<RawGetResult>, RawError> = Err(RawError::Message("boom".to_string()));
    let out = batch_raw_get_responses(&ids, &hooks, &ret);
    assert_eq!(out.len(), 1);
    assert_eq!(as_raw_get(&out[0].1).error, "boom");
}
