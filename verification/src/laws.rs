//! What holds of the operations, call by call.
//!
//! Each law speaks of calls alone: of what goes into an operation and of what comes out of it, or of
//! how the results of several calls are related.

pub mod cluster;
pub mod cron;
pub mod dlq;
pub mod error;
pub mod flow;
pub mod host_blocker;
pub mod listing;
pub mod publish;
pub mod serve;
pub mod startup_banner;
pub mod text;
pub mod topic;
pub mod worker;
