//! Regression detection for benchmark results: a baseline is computed from
//! recent history, boundaries are derived from it under a threshold policy,
//! and each new measurement is classified against those boundaries.

pub mod baseline;
pub mod boundary;
pub mod critical;
pub mod endpoint;
pub mod endpoints;
pub mod json;
pub mod lookup;
pub mod metrics;
pub mod numeric;
pub mod organization;
pub mod perf;
pub mod project;
pub mod repo;
pub mod resource_id;
pub mod series;
pub mod tables;
mod text;
pub mod threshold;
pub mod user;
pub mod verdict;
