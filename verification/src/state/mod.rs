//! UI state: navigation, connection and sync status, network counters,
//! wallet contents, the developer event log, and display formatting.

pub mod app_state;
pub mod connection;
pub mod dev_log;
pub mod network;
pub mod view_models;
pub mod wallet;
