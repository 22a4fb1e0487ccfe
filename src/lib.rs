//! The read path of a transactional key-value server: a batcher that folds
//! point reads into grouped engine calls and routes the answers back by
//! request id, and per-thread tracers that gather spans while raft proposals
//! are handled and raft logs are applied.
pub mod trace;
pub mod tracer;
pub mod kvrpc;
pub mod batch;
