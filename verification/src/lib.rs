//! Verified core of a lightweight Dash SPV wallet: amount parsing and display
//! formatting, the UI state machines fed by backend events, configuration
//! rules, and an in-memory wallet backend.

pub mod text;
pub mod backend;
pub mod state;
pub mod screens;
pub mod components;
pub mod config;
pub mod cli;
pub mod event_bridge;
