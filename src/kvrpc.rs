//! Requests and responses of the point-read calls, and the errors a storage
//! engine answers with.
use vstd::prelude::*;

verus! {

/// The priority class a request was sent with.
#[derive(Clone, Copy, Debug, PartialEq, Eq, Structural)]
pub enum CommandPri {
    Normal,
    Low,
    High,
}

/// Routing and scheduling information that comes with every request.
#[derive(Clone, Copy, Debug, PartialEq, Eq, Structural)]
pub struct Context {
    pub region_id: u64,
    pub priority: CommandPri,
}

/// A transactional point read of `key` as of timestamp `version`.
#[derive(Debug)]
pub struct GetRequest {
    pub context: Context,
    pub key: Vec<u8>,
    pub version: u64,
}

/// A raw (non-transactional) point read of `key` in column family `cf`.
#[derive(Debug)]
pub struct RawGetRequest {
    pub context: Context,
    pub key: Vec<u8>,
    pub cf: String,
}

/// A routing failure: the request reached a replica that cannot serve it.
#[derive(Clone, Copy, Debug, PartialEq, Eq, Structural)]
pub enum RegionError {
    NotLeader { region_id: u64, leader_store_id: u64 },
    RegionNotFound { region_id: u64 },
    EpochNotMatch { region_id: u64 },
    ServerIsBusy,
    StaleCommand,
}

/// A failure that concerns the key read, not the route to it.
#[derive(Clone, Copy, Debug, PartialEq, Eq, Structural)]
pub enum KeyError {
    Locked { lock_version: u64, lock_ttl: u64 },
    WriteConflict { start_ts: u64, conflict_ts: u64 },
    Abort,
}

/// An error of the transactional engine.
#[derive(Clone, Copy, Debug, PartialEq, Eq, Structural)]
pub enum StorageError {
    Region(RegionError),
    Key(KeyError),
}

/// An error of the raw engine: a routing failure, or a message.
#[derive(Debug)]
pub enum RawError {
    Region(RegionError),
    Message(String),
}

/// How much data a read went through.
#[derive(Clone, Copy, Debug, PartialEq, Eq, Structural)]
pub struct ScanDetail {
    pub processed_versions: u64,
    pub total_versions: u64,
}

/// Where the time of a request went.
#[derive(Clone, Copy, Debug, PartialEq, Eq, Structural)]
pub struct TimeDetail {
    pub wait_wall_time_ms: u64,
    pub process_wall_time_ms: u64,
}

#[derive(Clone, Copy, Debug, PartialEq, Eq, Structural)]
pub struct ExecDetails {
    pub scan_detail: ScanDetail,
    pub time_detail: TimeDetail,
}

pub open spec fn no_scan_detail() -> ScanDetail {
    ScanDetail { processed_versions: 0, total_versions: 0 }
}

pub open spec fn no_time_detail() -> TimeDetail {
    TimeDetail { wait_wall_time_ms: 0, process_wall_time_ms: 0 }
}

pub open spec fn no_exec_details() -> ExecDetails {
    ExecDetails { scan_detail: no_scan_detail(), time_detail: no_time_detail() }
}

impl ExecDetails {
    pub fn empty() -> (r: ExecDetails)
        ensures
            r == no_exec_details(),
    {
        ExecDetails {
            scan_detail: ScanDetail { processed_versions: 0, total_versions: 0 },
            time_detail: TimeDetail { wait_wall_time_ms: 0, process_wall_time_ms: 0 },
        }
    }
}

/// The answer to a get. Exactly one of `region_error`, `error`, `not_found`
/// and `value` carries the outcome.
#[derive(Debug, PartialEq)]
pub struct GetResponse {
    pub region_error: Option<RegionError>,
    pub error: Option<KeyError>,
    pub value: Vec<u8>,
    pub not_found: bool,
    pub exec_details: ExecDetails,
}

/// The answer to a raw get. An empty `error` means no error.
#[derive(Debug, PartialEq)]
pub struct RawGetResponse {
    pub region_error: Option<RegionError>,
    pub error: String,
    pub value: Vec<u8>,
    pub not_found: bool,
    pub exec_details: ExecDetails,
}

impl GetResponse {
    pub fn empty() -> (r: GetResponse)
        ensures
            r.region_error is None,
            r.error is None,
            r.value@.len() == 0,
            !r.not_found,
            r.exec_details == no_exec_details(),
    {
        GetResponse {
            region_error: None,
            error: None,
            value: Vec::new(),
            not_found: false,
            exec_details: ExecDetails::empty(),
        }
    }
}

impl RawGetResponse {
    pub fn empty() -> (r: RawGetResponse)
        ensures
            r.region_error is None,
            r.error@.len() == 0,
            r.value@.len() == 0,
            !r.not_found,
            r.exec_details == no_exec_details(),
    {
        RawGetResponse {
            region_error: None,
            error: String::new(),
            value: Vec::new(),
            not_found: false,
            exec_details: ExecDetails::empty(),
        }
    }
}

/// One response on the multiplexed outbound stream.
#[derive(Debug, PartialEq)]
pub enum BatchResponse {
    Get(GetResponse),
    RawGet(RawGetResponse),
}

/// The single-use hook of one request: it writes the request's own timing
/// into its response before the response is sent.
#[derive(Clone, Copy, Debug, PartialEq, Eq, Structural)]
pub struct ReportRoutine {
    pub time_detail: TimeDetail,
}

impl ReportRoutine {
    pub fn report_get(self, resp: &mut GetResponse)
        ensures
            final(resp).region_error == old(resp).region_error,
            final(resp).error == old(resp).error,
            final(resp).value == old(resp).value,
            final(resp).not_found == old(resp).not_found,
            final(resp).exec_details.scan_detail == old(resp).exec_details.scan_detail,
            final(resp).exec_details.time_detail == self.time_detail,
    {
        resp.exec_details.time_detail = self.time_detail;
    }

    pub fn report_raw_get(self, resp: &mut RawGetResponse)
        ensures
            final(resp).region_error == old(resp).region_error,
            final(resp).error == old(resp).error,
            final(resp).value == old(resp).value,
            final(resp).not_found == old(resp).not_found,
            final(resp).exec_details.scan_detail == old(resp).exec_details.scan_detail,
            final(resp).exec_details.time_detail == self.time_detail,
    {
        resp.exec_details.time_detail = self.time_detail;
    }
}

} // verus!
