//! The desktop front-end's command layer: request and event records,
//! and the decisions its commands make around the library.
pub mod bus_monitor;
pub mod dbc;
pub mod diagnose;
pub mod flash;
pub mod live_data;
pub mod logs;
pub mod pit_diag;
pub mod provision;
pub mod recv_errors;
pub mod swd;
