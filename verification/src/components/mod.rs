//! Display helpers of the shared UI components.

pub mod dev_panel;
