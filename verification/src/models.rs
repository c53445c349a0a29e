//! The data model and the operations on it.

pub mod auditlog;
pub mod errors;
pub mod interop;
pub mod message;
pub mod path;
pub mod payload;
pub mod rules;
pub mod services;
pub mod task;
pub mod text;
pub mod value;
pub mod workflow;
