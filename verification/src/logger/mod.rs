//! The telemetry bridge: log events, with the fields of the scopes around
//! them, become rows of the log table.

pub mod consumer;
pub mod entity;
pub mod layer;
pub mod level_serializer;
pub mod visitor;
