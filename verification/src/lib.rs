//! Deployment lifecycle, listing protocol and call dispatch for a deploy service.
//!
//! The crate holds the rules of the service as verified functions on plain
//! values: the status model, the deployment record, cursor pagination, the
//! operation handlers over an in-memory record set, the name-routed dispatch
//! with its status-code taxonomy, and the layered server configuration.

pub mod config;
pub mod dispatch;
pub mod error;
pub mod framing;
pub mod mock;
pub mod model;
pub mod pagination;
pub mod rpc;
pub mod service;
pub mod status;
pub mod tags;
pub mod text;
