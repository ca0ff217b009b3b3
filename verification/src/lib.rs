//! Health-scope aggregation engine.
//!
//! A *scope* groups a set of workload components whose combined health is
//! tracked. This library holds the verified core of the controller: the
//! interval gate that decides when a scope is due for re-aggregation, the
//! refresh of per-component statuses, the probe-pair dispatch, and the fold
//! that turns a scope's stored component statuses into a single verdict.
//! The surrounding process (listing scopes, fetching component instances,
//! patching scopes, serving queries over HTTP) performs the I/O and feeds
//! plain values into these functions.

pub mod aggregate;
pub mod clock;
pub mod gate;
pub mod model;
pub mod query;
