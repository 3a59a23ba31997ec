//! A query-replay execution engine: it replays an ordered list of query
//! texts against a remote endpoint, measures the elapsed time of each
//! operation on a monotonic clock, classifies failures without aborting the
//! run, and emits a streaming tabular report.

pub mod dispatch;
pub mod errors;
pub mod render;
pub mod report;
pub mod runner;
pub mod timing;
