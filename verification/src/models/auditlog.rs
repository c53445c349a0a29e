//! The audit trail: entries that say what was changed, by whom and why.

use vstd::prelude::*;
use super::errors::{failure, ErrorKind, FunctionResponseError};
use super::services::{id_unavailable, fresh_stamp, Stamp};
use super::value::{Json, JsonValue};

verus! {

/// One changed field: where it is, what it held before and after, and why
/// it was changed.
#[derive(Debug, Clone, PartialEq)]
pub struct ChangeLog {
    /// The dotted path of the field in the canonical data.
    pub field: String,
    pub old_value: Option<JsonValue>,
    pub new_value: Option<JsonValue>,
    pub reason: String,
}

/// What a [`ChangeLog`] says.
pub ghost struct ChangeModel {
    pub field: Seq<char>,
    pub old_value: Option<Json>,
    pub new_value: Option<Json>,
    pub reason: Seq<char>,
}

/// The document that an optional value holds.
pub open spec fn optional_model(value: Option<JsonValue>) -> Option<Json> {
    match value {
        Some(value) => Some(value@),
        None => None,
    }
}

impl View for ChangeLog {
    type V = ChangeModel;

    open spec fn view(&self) -> ChangeModel {
        ChangeModel {
            field: self.field@,
            old_value: optional_model(self.old_value),
            new_value: optional_model(self.new_value),
            reason: self.reason@,
        }
    }
}

/// What a list of change logs says, entry by entry.
pub open spec fn changes_model(changes: Seq<ChangeLog>) -> Seq<ChangeModel> {
    Seq::new(changes.len(), |i: int| changes[i]@)
}

impl ChangeLog {
    /// The record of one change to `field`.
    pub fn new(
        field: String,
        reason: String,
        old_value: Option<JsonValue>,
        new_value: Option<JsonValue>,
    ) -> (change: Self)
        ensures
            change == (ChangeLog { field, old_value, new_value, reason }),
    {
        ChangeLog { field, old_value, new_value, reason }
    }
}

impl Default for ChangeLog {
    /// A record that names no field and holds no values.
    fn default() -> (change: Self)
        ensures
            change@ == (ChangeModel {
                field: Seq::empty(),
                old_value: None,
                new_value: None,
                reason: Seq::empty(),
            }),
    {
        ChangeLog { field: String::new(), old_value: None, new_value: None, reason: String::new() }
    }
}

/// One entry of the audit trail.
#[derive(Debug, Clone, PartialEq)]
pub struct AuditLog {
    pub id: u64,
    pub timestamp: time::OffsetDateTime,
    /// Provenance: empty where it does not apply.
    pub workflow: String,
    pub task: String,
    pub description: String,
    /// An integrity tag; the model never computes it.
    pub hash: String,
    pub service: String,
    pub instance: String,
    pub version: String,
    pub changes: Vec<ChangeLog>,
}

/// What an [`AuditLog`] says.
pub ghost struct AuditModel {
    pub id: u64,
    pub timestamp: time::OffsetDateTime,
    pub workflow: Seq<char>,
    pub task: Seq<char>,
    pub description: Seq<char>,
    pub hash: Seq<char>,
    pub service: Seq<char>,
    pub instance: Seq<char>,
    pub version: Seq<char>,
    pub changes: Seq<ChangeModel>,
}

impl View for AuditLog {
    type V = AuditModel;

    open spec fn view(&self) -> AuditModel {
        AuditModel {
            id: self.id,
            timestamp: self.timestamp,
            workflow: self.workflow@,
            task: self.task@,
            description: self.description@,
            hash: self.hash@,
            service: self.service@,
            instance: self.instance@,
            version: self.version@,
            changes: changes_model(self.changes@),
        }
    }
}

/// The entry that records `changes` under `stamp`, with no integrity tag
/// and no service, instance or version.
pub open spec fn entry_model(
    stamp: Stamp,
    workflow: Seq<char>,
    task: Seq<char>,
    description: Seq<char>,
    changes: Seq<ChangeModel>,
) -> AuditModel {
    AuditModel {
        id: stamp.id,
        timestamp: stamp.timestamp,
        workflow,
        task,
        description,
        hash: Seq::empty(),
        service: Seq::empty(),
        instance: Seq::empty(),
        version: Seq::empty(),
        changes,
    }
}

impl AuditLog {
    /// The entry that records `changes` under the identity `stamp`.
    pub fn stamped(
        stamp: Stamp,
        workflow: String,
        task: String,
        description: String,
        changes: Vec<ChangeLog>,
    ) -> (entry: Self)
        ensures
            entry@ == entry_model(
                stamp,
                workflow@,
                task@,
                description@,
                changes_model(changes@),
            ),
            entry.changes == changes,
    {
        AuditLog {
            id: stamp.id,
            timestamp: stamp.timestamp,
            workflow,
            task,
            description,
            hash: String::new(),
            service: String::new(),
            instance: String::new(),
            version: String::new(),
            changes,
        }
    }

    /// The entry that records `changes`, under a fresh identifier and the
    /// current time. Fails where the identifier service gives none.
    pub fn new(workflow: String, task: String, description: String, changes: Vec<ChangeLog>) -> (entry:
        Result<Self, FunctionResponseError>)
        ensures
            match entry {
                Ok(entry) => entry@ == entry_model(
                    Stamp { id: entry.id, timestamp: entry.timestamp },
                    workflow@,
                    task@,
                    description@,
                    changes_model(changes@),
                ),
                Err(error) => error@ == failure(
                    ErrorKind::IdUnavailable,
                    "AuditLog"@,
                    "No identifier could be generated"@,
                ),
            },
    {
        match fresh_stamp() {
            Some(stamp) => Ok(AuditLog::stamped(stamp, workflow, task, description, changes)),
            None => Err(id_unavailable("AuditLog")),
        }
    }
}

} // verus!
