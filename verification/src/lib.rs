//! Financial-message envelopes with an append-only, field-level audit trail.
//!
//! A [`models::message::Message`] wraps a payload, tracks its processing
//! status, and records every change to its canonical data in an audit log.

pub mod models;
