//! Tasks: the steps of a workflow, as configuration.

use vstd::prelude::*;
use super::value::{Json, JsonValue};

verus! {

/// What a task does to a message.
#[derive(Debug, Clone, Copy, PartialEq, Eq, Structural)]
pub enum FunctionType {
    Validate,
    Enrich,
    Publish,
}

impl FunctionType {
    /// The tag that stands for this function on the wire.
    pub open spec fn tag(self) -> Seq<char> {
        match self {
            FunctionType::Validate => "Validate"@,
            FunctionType::Enrich => "Enrich"@,
            FunctionType::Publish => "Publish"@,
        }
    }

    /// The function that a wire tag stands for, if it is one.
    pub open spec fn of_tag(tag: Seq<char>) -> Option<Self> {
        if tag == "Validate"@ {
            Some(FunctionType::Validate)
        } else if tag == "Enrich"@ {
            Some(FunctionType::Enrich)
        } else if tag == "Publish"@ {
            Some(FunctionType::Publish)
        } else {
            None
        }
    }

    /// The tag that stands for this function on the wire.
    pub fn wire_tag(&self) -> (tag: &'static str)
        ensures
            tag@ == self.tag(),
    {
        match self {
            FunctionType::Validate => "Validate",
            FunctionType::Enrich => "Enrich",
            FunctionType::Publish => "Publish",
        }
    }

    /// Reads a wire tag.
    pub fn from_wire_tag(tag: &str) -> (read: Option<Self>)
        ensures
            read == Self::of_tag(tag@),
    {
        if *tag == *"Validate" {
            Some(FunctionType::Validate)
        } else if *tag == *"Enrich" {
            Some(FunctionType::Enrich)
        } else if *tag == *"Publish" {
            Some(FunctionType::Publish)
        } else {
            None
        }
    }

    /// Reading the tag of a function gives the function back.
    pub proof fn lemma_tag_round_trip(self)
        ensures
            Self::of_tag(self.tag()) == Some(self),
    {
        reveal_strlit("Validate");
        reveal_strlit("Enrich");
        reveal_strlit("Publish");
        assert("Validate"@.len() == 8 && "Enrich"@.len() == 6 && "Publish"@.len() == 7);
    }
}

/// One step of a workflow.
#[derive(Debug, Clone, PartialEq)]
pub struct Task {
    pub task_id: String,
    pub name: String,
    pub description: String,
    /// The rule that decides whether the task runs.
    pub trigger_condition: JsonValue,
    pub function: FunctionType,
    /// What the function is given.
    pub input: JsonValue,
}

/// A builder that was asked for a value it cannot make.
#[derive(Debug, Clone, PartialEq)]
pub struct BuilderError {
    /// The field that stood in the way.
    pub field: String,
}

/// The text that a builder holds for a field, or the empty text.
pub open spec fn text_or_empty(text: Option<String>) -> Seq<char> {
    match text {
        Some(text) => text@,
        None => Seq::empty(),
    }
}

/// The document that a builder holds for a field, or the object without
/// fields.
pub open spec fn document_or_empty(document: Option<JsonValue>) -> Json {
    match document {
        Some(document) => document@,
        None => Json::Object(Map::empty()),
    }
}

/// Collects the fields of a [`Task`]; each field that is not set gets its
/// default when the task is built.
#[derive(Debug, Clone, PartialEq)]
pub struct TaskBuilder {
    pub task_id: Option<String>,
    pub name: Option<String>,
    pub description: Option<String>,
    pub trigger_condition: Option<JsonValue>,
    pub function: Option<FunctionType>,
    pub input: Option<JsonValue>,
}

impl Default for TaskBuilder {
    /// A builder with no field set.
    fn default() -> (builder: Self)
        ensures
            builder == (TaskBuilder {
                task_id: None,
                name: None,
                description: None,
                trigger_condition: None,
                function: None,
                input: None,
            }),
    {
        TaskBuilder {
            task_id: None,
            name: None,
            description: None,
            trigger_condition: None,
            function: None,
            input: None,
        }
    }
}

impl TaskBuilder {
    /// Sets the identifier of the task.
    pub fn task_id(self, value: String) -> (builder: Self)
        ensures
            builder == (TaskBuilder { task_id: Some(value), ..self }),
    {
        TaskBuilder { task_id: Some(value), ..self }
    }

    /// Sets the name of the task.
    pub fn name(self, value: String) -> (builder: Self)
        ensures
            builder == (TaskBuilder { name: Some(value), ..self }),
    {
        TaskBuilder { name: Some(value), ..self }
    }

    /// Sets the description of the task.
    pub fn description(self, value: String) -> (builder: Self)
        ensures
            builder == (TaskBuilder { description: Some(value), ..self }),
    {
        TaskBuilder { description: Some(value), ..self }
    }

    /// Sets the rule that decides whether the task runs.
    pub fn trigger_condition(self, value: JsonValue) -> (builder: Self)
        ensures
            builder == (TaskBuilder { trigger_condition: Some(value), ..self }),
    {
        TaskBuilder { trigger_condition: Some(value), ..self }
    }

    /// Sets what the task does.
    pub fn function(self, value: FunctionType) -> (builder: Self)
        ensures
            builder == (TaskBuilder { function: Some(value), ..self }),
    {
        TaskBuilder { function: Some(value), ..self }
    }

    /// Sets what the function is given.
    pub fn input(self, value: JsonValue) -> (builder: Self)
        ensures
            builder == (TaskBuilder { input: Some(value), ..self }),
    {
        TaskBuilder { input: Some(value), ..self }
    }

    /// The task with the fields that were set. A text that was not set is
    /// empty, a document that was not set is the object without fields, and
    /// the function is `Validate`. Every field has a default, so this never
    /// fails.
    pub fn build(self) -> (built: Result<Task, BuilderError>)
        ensures
            built matches Ok(task) && {
                &&& task.task_id@ == text_or_empty(self.task_id)
                &&& task.name@ == text_or_empty(self.name)
                &&& task.description@ == text_or_empty(self.description)
                &&& task.trigger_condition@ == document_or_empty(self.trigger_condition)
                &&& task.function == match self.function {
                    Some(function) => function,
                    None => FunctionType::Validate,
                }
                &&& task.input@ == document_or_empty(self.input)
            },
    {
        Ok(
            Task {
                task_id: match self.task_id {
                    Some(text) => text,
                    None => String::new(),
                },
                name: match self.name {
                    Some(text) => text,
                    None => String::new(),
                },
                description: match self.description {
                    Some(text) => text,
                    None => String::new(),
                },
                trigger_condition: match self.trigger_condition {
                    Some(document) => document,
                    None => JsonValue::empty_object(),
                },
                function: match self.function {
                    Some(function) => function,
                    None => FunctionType::Validate,
                },
                input: match self.input {
                    Some(document) => document,
                    None => JsonValue::empty_object(),
                },
            },
        )
    }
}

} // verus!
