//! Workflows: named, versioned lists of tasks, as configuration.

use vstd::prelude::*;
use super::task::{document_or_empty, text_or_empty, BuilderError, Task};
use super::value::JsonValue;

verus! {

/// Whether a workflow may be used.
#[derive(Debug, Clone, Copy, PartialEq, Eq, Structural)]
pub enum WorkflowStatus {
    Draft,
    Active,
    Deprecated,
}

impl WorkflowStatus {
    /// The tag that stands for this status on the wire.
    pub open spec fn tag(self) -> Seq<char> {
        match self {
            WorkflowStatus::Draft => "Draft"@,
            WorkflowStatus::Active => "Active"@,
            WorkflowStatus::Deprecated => "Deprecated"@,
        }
    }

    /// The status that a wire tag stands for, if it is one.
    pub open spec fn of_tag(tag: Seq<char>) -> Option<Self> {
        if tag == "Draft"@ {
            Some(WorkflowStatus::Draft)
        } else if tag == "Active"@ {
            Some(WorkflowStatus::Active)
        } else if tag == "Deprecated"@ {
            Some(WorkflowStatus::Deprecated)
        } else {
            None
        }
    }

    /// The tag that stands for this status on the wire.
    pub fn wire_tag(&self) -> (tag: &'static str)
        ensures
            tag@ == self.tag(),
    {
        match self {
            WorkflowStatus::Draft => "Draft",
            WorkflowStatus::Active => "Active",
            WorkflowStatus::Deprecated => "Deprecated",
        }
    }

    /// Reads a wire tag.
    pub fn from_wire_tag(tag: &str) -> (read: Option<Self>)
        ensures
            read == Self::of_tag(tag@),
    {
        if *tag == *"Draft" {
            Some(WorkflowStatus::Draft)
        } else if *tag == *"Active" {
            Some(WorkflowStatus::Active)
        } else if *tag == *"Deprecated" {
            Some(WorkflowStatus::Deprecated)
        } else {
            None
        }
    }

    /// Reading the tag of a status gives the status back.
    pub proof fn lemma_tag_round_trip(self)
        ensures
            Self::of_tag(self.tag()) == Some(self),
    {
        reveal_strlit("Draft");
        reveal_strlit("Active");
        reveal_strlit("Deprecated");
        assert("Draft"@.len() == 5 && "Active"@.len() == 6 && "Deprecated"@.len() == 10);
    }
}

/// A named, versioned list of tasks.
#[derive(Debug, Clone, PartialEq)]
pub struct Workflow {
    pub name: String,
    pub description: String,
    pub version: u16,
    pub tags: Vec<String>,
    pub status: WorkflowStatus,
    pub tasks: Vec<Task>,
    /// The rule that decides whether the workflow applies to a message.
    pub condition: JsonValue,
}

/// Collects the fields of a [`Workflow`]; each field that is not set gets
/// its default when the workflow is built.
#[derive(Debug, Clone, PartialEq)]
pub struct WorkflowBuilder {
    pub name: Option<String>,
    pub description: Option<String>,
    pub version: Option<u16>,
    pub tags: Option<Vec<String>>,
    pub status: Option<WorkflowStatus>,
    pub tasks: Option<Vec<Task>>,
    pub condition: Option<JsonValue>,
}

impl Default for WorkflowBuilder {
    /// A builder with no field set.
    fn default() -> (builder: Self)
        ensures
            builder == (WorkflowBuilder {
                name: None,
                description: None,
                version: None,
                tags: None,
                status: None,
                tasks: None,
                condition: None,
            }),
    {
        WorkflowBuilder {
            name: None,
            description: None,
            version: None,
            tags: None,
            status: None,
            tasks: None,
            condition: None,
        }
    }
}

impl WorkflowBuilder {
    /// Sets the name of the workflow.
    pub fn name(self, value: String) -> (builder: Self)
        ensures
            builder == (WorkflowBuilder { name: Some(value), ..self }),
    {
        WorkflowBuilder { name: Some(value), ..self }
    }

    /// Sets the description of the workflow.
    pub fn description(self, value: String) -> (builder: Self)
        ensures
            builder == (WorkflowBuilder { description: Some(value), ..self }),
    {
        WorkflowBuilder { description: Some(value), ..self }
    }

    /// Sets the version of the workflow.
    pub fn version(self, value: u16) -> (builder: Self)
        ensures
            builder == (WorkflowBuilder { version: Some(value), ..self }),
    {
        WorkflowBuilder { version: Some(value), ..self }
    }

    /// Sets the tags of the workflow.
    pub fn tags(self, value: Vec<String>) -> (builder: Self)
        ensures
            builder == (WorkflowBuilder { tags: Some(value), ..self }),
    {
        WorkflowBuilder { tags: Some(value), ..self }
    }

    /// Sets the status of the workflow.
    pub fn status(self, value: WorkflowStatus) -> (builder: Self)
        ensures
            builder == (WorkflowBuilder { status: Some(value), ..self }),
    {
        WorkflowBuilder { status: Some(value), ..self }
    }

    /// Sets the tasks of the workflow.
    pub fn tasks(self, value: Vec<Task>) -> (builder: Self)
        ensures
            builder == (WorkflowBuilder { tasks: Some(value), ..self }),
    {
        WorkflowBuilder { tasks: Some(value), ..self }
    }

    /// Sets the rule that decides whether the workflow applies.
    pub fn condition(self, value: JsonValue) -> (builder: Self)
        ensures
            builder == (WorkflowBuilder { condition: Some(value), ..self }),
    {
        WorkflowBuilder { condition: Some(value), ..self }
    }

    /// The workflow with the fields that were set. A text that was not set
    /// is empty, the version is 0, the lists are empty, the status is
    /// `Draft`, and the condition is the object without fields. Every field
    /// has a default, so this never fails.
    pub fn build(self) -> (built: Result<Workflow, BuilderError>)
        ensures
            built matches Ok(workflow) && {
                &&& workflow.name@ == text_or_empty(self.name)
                &&& workflow.description@ == text_or_empty(self.description)
                &&& workflow.version == match self.version {
                    Some(version) => version,
                    None => 0,
                }
                &&& workflow.tags@ == match self.tags {
                    Some(tags) => tags@,
                    None => Seq::empty(),
                }
                &&& workflow.status == match self.status {
                    Some(status) => status,
                    None => WorkflowStatus::Draft,
                }
                &&& workflow.tasks@ == match self.tasks {
                    Some(tasks) => tasks@,
                    None => Seq::empty(),
                }
                &&& workflow.condition@ == document_or_empty(self.condition)
            },
    {
        Ok(
            Workflow {
                name: match self.name {
                    Some(text) => text,
                    None => String::new(),
                },
                description: match self.description {
                    Some(text) => text,
                    None => String::new(),
                },
                version: match self.version {
                    Some(version) => version,
                    None => 0,
                },
                tags: match self.tags {
                    Some(tags) => tags,
                    None => Vec::new(),
                },
                status: match self.status {
                    Some(status) => status,
                    None => WorkflowStatus::Draft,
                },
                tasks: match self.tasks {
                    Some(tasks) => tasks,
                    None => Vec::new(),
                },
                condition: match self.condition {
                    Some(document) => document,
                    None => JsonValue::empty_object(),
                },
            },
        )
    }
}

} // verus!
