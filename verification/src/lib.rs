//! Host telemetry agent library.
//!
//! The agent samples operating-system metrics and reports them to a remote
//! monitoring server. This crate holds the verified core: the network rate
//! tracker, the snapshot builders for the host descriptor and the state
//! sample, and the control state machine of the reporting loop. Reading the
//! metrics from the platform and carrying the reports over the wire are left
//! to the surrounding program, which hands plain values in and out.

pub mod agent_loop;
pub mod args;
pub mod get_info;
pub mod rate_tracker;
pub mod server_comm;
pub mod text;
