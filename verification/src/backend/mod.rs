//! Backend-facing data: the wallet and sync model, the events a backend
//! emits, its error type, and an in-memory backend.

pub mod error;
pub mod events;
pub mod mock;
pub mod records;
pub mod types;
