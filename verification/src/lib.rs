//! Message-broker front end: the request, scheduling, dead-letter and
//! destination-blocking rules of a webhook broker, verified with Verus.

pub mod cluster;
pub mod cron;
pub mod delayed;
pub mod dlq;
pub mod error;
pub mod flow;
pub mod host_blocker;
pub mod ids;
pub mod laws;
pub mod outside;
pub mod publish;
pub mod queue;
pub mod routes;
pub mod serve;
pub mod startup_banner;
pub mod text;
pub mod topic;
pub mod worker;
