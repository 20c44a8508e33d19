//! Application configuration: defaults, per-network sections, command-line
//! overrides and the directory layout derived from them.

pub mod paths;

pub mod settings;
