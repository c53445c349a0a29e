//! The message: a payload, its canonical data, and the audit trail of
//! everything that was done to that data.

use vstd::prelude::*;
use vstd::string::{StrSliceExecFns, StringExecFns};
use super::auditlog::{
    changes_model, entry_model, AuditLog, AuditModel, ChangeLog, ChangeModel,
};
use super::errors::{failure, ErrorKind, ErrorModel, FunctionResponseError};
use super::path::{lemma_split_dots, split_dots, split_path};
use super::payload::Payload;
use super::rules::{evaluation, Evaluator};
use super::services::{fresh_id, fresh_stamp, id_unavailable, Stamp};
use super::text::{capitalize, capitalized, lowercase_of};
use super::value::{keys_model, Json, JsonValue};

verus! {

/// How far the processing of a message has come.
#[derive(Debug, Clone, Copy, PartialEq, Eq, Structural)]
pub enum MessageStatus {
    Recieved,
    Processing,
    Completed,
    Failed,
}

impl MessageStatus {
    /// The tag that stands for this status on the wire. The first keeps the
    /// spelling that stored messages have.
    pub open spec fn tag(self) -> Seq<char> {
        match self {
            MessageStatus::Recieved => "Recieved"@,
            MessageStatus::Processing => "Processing"@,
            MessageStatus::Completed => "Completed"@,
            MessageStatus::Failed => "Failed"@,
        }
    }

    /// The status that a wire tag stands for, if it is one.
    pub open spec fn of_tag(tag: Seq<char>) -> Option<Self> {
        if tag == "Recieved"@ {
            Some(MessageStatus::Recieved)
        } else if tag == "Processing"@ {
            Some(MessageStatus::Processing)
        } else if tag == "Completed"@ {
            Some(MessageStatus::Completed)
        } else if tag == "Failed"@ {
            Some(MessageStatus::Failed)
        } else {
            None
        }
    }

    /// The tag that stands for this status on the wire.
    pub fn wire_tag(&self) -> (tag: &'static str)
        ensures
            tag@ == self.tag(),
    {
        match self {
            MessageStatus::Recieved => "Recieved",
            MessageStatus::Processing => "Processing",
            MessageStatus::Completed => "Completed",
            MessageStatus::Failed => "Failed",
        }
    }

    /// Reads a wire tag.
    pub fn from_wire_tag(tag: &str) -> (read: Option<Self>)
        ensures
            read == Self::of_tag(tag@),
    {
        if *tag == *"Recieved" {
            Some(MessageStatus::Recieved)
        } else if *tag == *"Processing" {
            Some(MessageStatus::Processing)
        } else if *tag == *"Completed" {
            Some(MessageStatus::Completed)
        } else if *tag == *"Failed" {
            Some(MessageStatus::Failed)
        } else {
            None
        }
    }

    /// Reading the tag of a status gives the status back.
    pub proof fn lemma_tag_round_trip(self)
        ensures
            Self::of_tag(self.tag()) == Some(self),
    {
        reveal_strlit("Recieved");
        reveal_strlit("Processing");
        reveal_strlit("Completed");
        reveal_strlit("Failed");
        assert("Recieved"@.len() == 8 && "Processing"@.len() == 10);
        assert("Completed"@.len() == 9 && "Failed"@.len() == 6);
    }
}

/// The processing state of a message. The owning system moves it on; the
/// model only sets it up.
#[derive(Debug, Clone, PartialEq)]
pub struct Progress {
    pub status: MessageStatus,
    pub workflow_id: String,
    pub prev_task: String,
    pub prev_status_code: String,
    pub timestamp: time::OffsetDateTime,
}

/// One enrichment rule: the field to write, the rule that computes its
/// value, and why.
#[derive(Debug, Clone, PartialEq)]
pub struct EnrichmentConfig {
    /// A dotted path that starts at `data`.
    pub field: String,
    pub rule: JsonValue,
    pub description: Option<String>,
}

/// A financial message on its way through processing.
#[derive(Debug, Clone, PartialEq)]
pub struct Message {
    pub id: u64,
    pub parent_id: Option<String>,
    pub payload: Payload,
    pub tenant: String,
    pub origin: String,
    /// The canonical data: null until the payload is parsed.
    pub data: JsonValue,
    pub metadata: JsonValue,
    pub progress: Progress,
    /// The audit trail, oldest entry first. Entries are only ever added.
    pub audit: Vec<AuditLog>,
}

/// What the decoder made of the content of a payload.
#[derive(Debug, Clone, PartialEq)]
pub enum DecodeOutcome {
    /// The content could not be read; the text says why.
    Unreadable(String),
    /// The content is malformed; the text says where.
    Malformed(String),
    /// The content breaks the rules of its schema; the text says which.
    Invalid(String),
    /// The content is valid; this is its canonical form.
    Valid(JsonValue),
}

/// Where the content of a payload is to be read from.
#[derive(Debug, PartialEq)]
pub enum ContentSource<'a> {
    Inline(&'a Vec<u8>),
    External(&'a String),
    Missing,
}

/// The alias of a message, or `Message` where none is given.
pub open spec fn alias_text(alias: Option<String>) -> Seq<char> {
    match alias {
        Some(alias) => alias@,
        None => "Message"@,
    }
}

/// The description of the audit entry that records the creation of a
/// message: the capitalized alias, then ` created`.
pub open spec fn creation_description(alias: Seq<char>) -> Seq<char> {
    (if alias.len() == 0 {
        "Message"@
    } else {
        capitalized(alias)
    }) + " created"@
}

/// The reason given for the creation of a message.
pub open spec fn creation_reason(alias: Seq<char>) -> Seq<char> {
    "Initial message creation for "@ + lowercase_of(alias)
}

/// The text of an optional description, or `otherwise` where none is given.
pub open spec fn description_text(description: Option<String>, otherwise: Seq<char>) -> Seq<char> {
    match description {
        Some(description) => description@,
        None => otherwise,
    }
}

/// Whether `message` is the new message with the identifier `id`: received
/// at `received`, with no parent, no data and no metadata, and with one
/// audit entry, stamped `entry`, that records its creation.
pub open spec fn created(
    message: Message,
    id: u64,
    entry: Stamp,
    received: time::OffsetDateTime,
    payload: Payload,
    tenant: String,
    origin: String,
    alias: Option<String>,
) -> bool {
    &&& message.id == id
    &&& message.parent_id is None
    &&& message.payload == payload
    &&& message.tenant == tenant
    &&& message.origin == origin
    &&& message.data@ is Null
    &&& message.metadata@ is Null
    &&& message.progress.status == MessageStatus::Recieved
    &&& message.progress.workflow_id@.len() == 0
    &&& message.progress.prev_task@.len() == 0
    &&& message.progress.prev_status_code@.len() == 0
    &&& message.progress.timestamp == received
    &&& message.audit@.len() == 1
    &&& message.audit@[0]@ == entry_model(
        entry,
        Seq::empty(),
        Seq::empty(),
        creation_description(alias_text(alias)),
        seq![
            ChangeModel {
                field: "payload"@,
                old_value: None,
                new_value: None,
                reason: creation_reason(alias_text(alias)),
            },
        ],
    )
}

/// Whether two messages agree in everything but their data and their audit
/// trail.
pub open spec fn same_envelope(a: Message, b: Message) -> bool {
    &&& a.id == b.id
    &&& a.parent_id == b.parent_id
    &&& a.payload == b.payload
    &&& a.tenant == b.tenant
    &&& a.origin == b.origin
    &&& a.metadata == b.metadata
    &&& a.progress == b.progress
}

/// Whether `after` is `before` with one more entry at its end.
pub open spec fn appended(before: Seq<AuditLog>, after: Seq<AuditLog>, entry: AuditModel) -> bool {
    &&& after.len() == before.len() + 1
    &&& after.drop_last() == before
    &&& after.last()@ == entry
}

/// Why parsing fails, if it does: the payload names no source, or the
/// decoder reports a failure.
pub open spec fn parse_failure(payload: Payload, outcome: DecodeOutcome) -> Option<ErrorModel> {
    if payload.content is None && payload.url is None {
        Some(failure(ErrorKind::MissingSource, "Parse"@, "No content or URL provided"@))
    } else {
        match outcome {
            DecodeOutcome::Unreadable(detail) => Some(
                failure(ErrorKind::SourceUnavailable, "Parse"@, "File open error: "@ + detail@),
            ),
            DecodeOutcome::Malformed(detail) => Some(
                failure(ErrorKind::DecodeFailure, "Parse"@, "ISO20022 parsing error: "@ + detail@),
            ),
            DecodeOutcome::Invalid(detail) => Some(
                failure(
                    ErrorKind::SchemaValidationFailure,
                    "Parse"@,
                    "Schema validation error: "@ + detail@,
                ),
            ),
            DecodeOutcome::Valid(_) => None,
        }
    }
}

/// The change that parsing records: the data was populated.
pub open spec fn parsed_change() -> ChangeModel {
    ChangeModel {
        field: "data"@,
        old_value: None,
        new_value: None,
        reason: "ISO20022 message parsed"@,
    }
}

/// What parsing under `stamp` makes of `before`, where it succeeds.
pub open spec fn parsed(
    before: Message,
    after: Message,
    stamp: Stamp,
    document: Json,
    description: Option<String>,
) -> bool {
    &&& same_envelope(before, after)
    &&& after.data@ == document
    &&& appended(
        before.audit@,
        after.audit@,
        entry_model(
            stamp,
            Seq::empty(),
            Seq::empty(),
            description_text(description, "ISO20022 message parsed"@),
            seq![parsed_change()],
        ),
    )
}

impl EnrichmentConfig {
    /// The segments of the field path.
    pub open spec fn segments(&self) -> Seq<Seq<char>> {
        split_dots(self.field@)
    }

    /// Whether the field path starts at the canonical data.
    pub open spec fn is_rooted(&self) -> bool {
        self.segments()[0] == "data"@
    }

    /// The path of the field below the root. It is empty where the field
    /// path names the root alone: such a rule writes nothing.
    pub open spec fn target(&self) -> Seq<Seq<char>> {
        self.segments().skip(1)
    }

    /// The reason recorded for the change: the description of the rule, or
    /// `Enriched field ` and the field path.
    pub open spec fn reason(&self) -> Seq<char> {
        description_text(self.description, "Enriched field "@ + self.field@)
    }

    /// Why this rule fails, if it does, given what its evaluation gave: the
    /// field path does not start at the data, or (only then) the evaluation
    /// gave nothing.
    pub open spec fn failure(&self, outcome: Option<Json>) -> Option<ErrorKind> {
        if !self.is_rooted() {
            Some(ErrorKind::InvalidFieldPath)
        } else if outcome is None {
            Some(ErrorKind::RuleEvaluationFailure)
        } else {
            None
        }
    }

    /// The change recorded when this rule writes `value` into `data`.
    pub open spec fn change(&self, data: Json, value: Json) -> ChangeModel {
        ChangeModel {
            field: self.field@,
            old_value: Some(data.at(self.target())),
            new_value: Some(value),
            reason: self.reason(),
        }
    }
}

/// The first rule from `from` on that fails, or the number of rules where
/// none does.
pub open spec fn first_failure(
    rules: Seq<EnrichmentConfig>,
    outcomes: Seq<Option<Json>>,
    from: int,
) -> int
    decreases rules.len() - from,
{
    if from < 0 || from >= rules.len() {
        rules.len() as int
    } else if rules[from].failure(outcomes[from]) is Some {
        from
    } else {
        first_failure(rules, outcomes, from + 1)
    }
}

/// The data after the first `count` rules have written their values, one
/// after the other.
pub open spec fn written(
    data: Json,
    rules: Seq<EnrichmentConfig>,
    outcomes: Seq<Option<Json>>,
    count: nat,
) -> Json
    decreases count,
{
    if count == 0 {
        data
    } else {
        written(data, rules, outcomes, (count - 1) as nat).with(
            rules[count - 1].target(),
            outcomes[count - 1]->0,
        )
    }
}

/// The changes that the first `count` rules record: one for each rule that
/// writes, with the value that the field held just before.
pub open spec fn recorded(
    data: Json,
    rules: Seq<EnrichmentConfig>,
    outcomes: Seq<Option<Json>>,
    count: nat,
) -> Seq<ChangeModel>
    decreases count,
{
    if count == 0 {
        Seq::empty()
    } else {
        let earlier = recorded(data, rules, outcomes, (count - 1) as nat);
        let rule = rules[count - 1];
        if rule.target().len() == 0 {
            earlier
        } else {
            earlier.push(
                rule.change(
                    written(data, rules, outcomes, (count - 1) as nat),
                    outcomes[count - 1]->0,
                ),
            )
        }
    }
}

/// What the evaluation of each rule against `input` gives.
pub open spec fn evaluations(rules: Seq<EnrichmentConfig>, input: Json) -> Seq<Option<Json>> {
    Seq::new(rules.len(), |i: int| evaluation(rules[i].rule@, input))
}

/// What a list of evaluation results holds for each of `count` rules: the
/// document, or nothing where the evaluation failed or the list is too
/// short to hold a result for the rule.
pub open spec fn outcomes_model(outcomes: Seq<Result<JsonValue, String>>, count: nat) -> Seq<
    Option<Json>,
> {
    Seq::new(
        count,
        |i: int|
            if i < outcomes.len() {
                match outcomes[i] {
                    Ok(value) => Some(value@),
                    Err(_) => None,
                }
            } else {
                None
            },
    )
}

/// Whether `error` reports a failure of kind `kind` in an enrichment.
pub open spec fn enrichment_error(error: ErrorModel, kind: ErrorKind) -> bool {
    &&& error.kind == kind
    &&& error.function == "Enrichment"@
    &&& error.code == kind.spec_code()
    &&& kind == ErrorKind::InvalidFieldPath ==> error.message == "Invalid field path"@
}

/// What an enrichment under `stamp` makes of `before`.
///
/// The rules are applied in order up to the first that fails. Where none
/// fails, one audit entry records the changes. Where one fails, the rules
/// before it stay applied and nothing is recorded.
pub open spec fn enriched(
    before: Message,
    after: Message,
    stamp: Stamp,
    rules: Seq<EnrichmentConfig>,
    outcomes: Seq<Option<Json>>,
    description: Option<String>,
    result: Result<(), FunctionResponseError>,
) -> bool {
    let failed = first_failure(rules, outcomes, 0);
    &&& same_envelope(before, after)
    &&& after.data@ == written(before.data@, rules, outcomes, failed as nat)
    &&& match result {
        Ok(()) => failed == rules.len() && appended(
            before.audit@,
            after.audit@,
            entry_model(
                stamp,
                Seq::empty(),
                Seq::empty(),
                description_text(description, "Enrichment applied"@),
                recorded(before.data@, rules, outcomes, failed as nat),
            ),
        ),
        Err(error) => failed < rules.len() && after.audit == before.audit && enrichment_error(
            error@,
            rules[failed].failure(outcomes[failed])->0,
        ),
    }
}

/// Whether `values` and `error` are what the rules give up to their first
/// failure: the values of the rules before it, and the failure itself.
pub open spec fn is_progress(
    values: Seq<JsonValue>,
    error: Option<FunctionResponseError>,
    rules: Seq<EnrichmentConfig>,
    outcomes: Seq<Option<Json>>,
) -> bool {
    let failed = first_failure(rules, outcomes, 0);
    &&& 0 <= failed <= rules.len()
    &&& values.len() == failed
    &&& forall|i: int| 0 <= i < failed ==> outcomes[i] == Some(#[trigger] values[i]@)
    &&& match error {
        None => failed == rules.len(),
        Some(error) => failed < rules.len() && enrichment_error(
            error@,
            rules[failed].failure(outcomes[failed])->0,
        ),
    }
}

/// The first failure is at `at` where no rule from `from` up to `at` fails
/// and the rule at `at` does, or `at` is the number of rules.
pub proof fn lemma_first_failure(
    rules: Seq<EnrichmentConfig>,
    outcomes: Seq<Option<Json>>,
    from: int,
    at: int,
)
    requires
        0 <= from <= at <= rules.len(),
        forall|j: int| from <= j < at ==> rules[j].failure(outcomes[j]) is None,
        at < rules.len() ==> rules[at].failure(outcomes[at]) is Some,
    ensures
        first_failure(rules, outcomes, from) == at,
    decreases at - from,
{
    if from < at {
        lemma_first_failure(rules, outcomes, from + 1, at);
    }
}

/// The first failure from `from` on lies between `from` and the number of
/// rules, and the rule there, if it is one, fails.
pub proof fn lemma_first_failure_fails(
    rules: Seq<EnrichmentConfig>,
    outcomes: Seq<Option<Json>>,
    from: int,
)
    requires
        0 <= from <= rules.len(),
    ensures
        from <= first_failure(rules, outcomes, from) <= rules.len(),
        first_failure(rules, outcomes, from) < rules.len() ==> rules[first_failure(
            rules,
            outcomes,
            from,
        )].failure(outcomes[first_failure(rules, outcomes, from)]) is Some,
        forall|j: int|
            from <= j < first_failure(rules, outcomes, from) ==> rules[j].failure(outcomes[j])
                is None,
    decreases rules.len() - from,
{
    if from < rules.len() && rules[from].failure(outcomes[from]) is None {
        lemma_first_failure_fails(rules, outcomes, from + 1);
    }
}

/// A batch in which every rule names a field below the root records one
/// change for each rule, in order: the field of the rule, the value that
/// the field held after the rules before it, the value that the rule gave,
/// and the reason of the rule.
pub proof fn lemma_one_change_per_rule(
    data: Json,
    rules: Seq<EnrichmentConfig>,
    outcomes: Seq<Option<Json>>,
    count: nat,
)
    requires
        count <= rules.len(),
        forall|i: int| 0 <= i < count ==> rules[i].target().len() > 0,
    ensures
        recorded(data, rules, outcomes, count).len() == count,
        forall|i: int|
            0 <= i < count ==> recorded(data, rules, outcomes, count)[i] == rules[i].change(
                written(data, rules, outcomes, i as nat),
                outcomes[i]->0,
            ),
    decreases count,
{
    if count > 0 {
        lemma_one_change_per_rule(data, rules, outcomes, (count - 1) as nat);
    }
}

/// A batch with a rule whose field path does not start at the data fails:
/// at that rule with `InvalidFieldPath`, unless an earlier rule fails.
pub proof fn lemma_unrooted_rule_fails(
    rules: Seq<EnrichmentConfig>,
    outcomes: Seq<Option<Json>>,
    at: int,
)
    requires
        0 <= at < rules.len(),
        !rules[at].is_rooted(),
    ensures
        0 <= first_failure(rules, outcomes, 0) <= at,
        rules[first_failure(rules, outcomes, 0)].failure(
            outcomes[first_failure(rules, outcomes, 0)],
        ) is Some,
        (forall|j: int| 0 <= j < at ==> rules[j].failure(outcomes[j]) is None) ==> first_failure(
            rules,
            outcomes,
            0,
        ) == at && rules[at].failure(outcomes[at]) == Some(ErrorKind::InvalidFieldPath),
{
    lemma_failure_before(rules, outcomes, 0, at);
    if forall|j: int| 0 <= j < at ==> rules[j].failure(outcomes[j]) is None {
        lemma_first_failure(rules, outcomes, 0, at);
    }
}

/// An enrichment that succeeds on a batch in which every rule names a
/// field below the root adds exactly one audit entry, and that entry holds
/// exactly one change for each rule, in order: the field of the rule, the
/// value that the field held just before the rule, the value that the rule
/// gave, and the reason of the rule.
pub proof fn lemma_enrichment_records_every_rule(
    before: Message,
    after: Message,
    stamp: Stamp,
    rules: Seq<EnrichmentConfig>,
    outcomes: Seq<Option<Json>>,
    description: Option<String>,
)
    requires
        enriched(before, after, stamp, rules, outcomes, description, Ok(())),
        forall|i: int| 0 <= i < rules.len() ==> rules[i].target().len() > 0,
    ensures
        after.audit@.len() == before.audit@.len() + 1,
        after.audit@.last()@.changes.len() == rules.len(),
        forall|i: int|
            0 <= i < rules.len() ==> after.audit@.last()@.changes[i] == rules[i].change(
                written(before.data@, rules, outcomes, i as nat),
                outcomes[i]->0,
            ),
{
    lemma_one_change_per_rule(before.data@, rules, outcomes, rules.len());
}

/// An enrichment of a batch with a rule whose field path does not start at
/// the data fails: with `InvalidFieldPath`, unless an earlier rule fails.
pub proof fn lemma_enrichment_with_unrooted_rule_fails(
    before: Message,
    after: Message,
    stamp: Stamp,
    rules: Seq<EnrichmentConfig>,
    outcomes: Seq<Option<Json>>,
    description: Option<String>,
    result: Result<(), FunctionResponseError>,
    at: int,
)
    requires
        enriched(before, after, stamp, rules, outcomes, description, result),
        0 <= at < rules.len(),
        !rules[at].is_rooted(),
    ensures
        result is Err,
        after.audit == before.audit,
        (forall|j: int| 0 <= j < at ==> rules[j].failure(outcomes[j]) is None)
            ==> result->Err_0.kind == ErrorKind::InvalidFieldPath,
{
    lemma_unrooted_rule_fails(rules, outcomes, at);
}

/// Adding an entry keeps every earlier entry at its place.
pub proof fn lemma_appended_keeps_entries(
    before: Seq<AuditLog>,
    after: Seq<AuditLog>,
    entry: AuditModel,
)
    requires
        appended(before, after, entry),
    ensures
        forall|i: int| 0 <= i < before.len() ==> after[i] == before[i],
{
    assert forall|i: int| 0 <= i < before.len() implies after[i] == before[i] by {
        assert(after.drop_last()[i] == after[i]);
    }
}

/// Where the rule at `at` fails, the first failure from `from` on is at a
/// failing rule no later than `at`.
pub proof fn lemma_failure_before(
    rules: Seq<EnrichmentConfig>,
    outcomes: Seq<Option<Json>>,
    from: int,
    at: int,
)
    requires
        0 <= from <= at < rules.len(),
        rules[at].failure(outcomes[at]) is Some,
    ensures
        from <= first_failure(rules, outcomes, from) <= at,
        rules[first_failure(rules, outcomes, from)].failure(
            outcomes[first_failure(rules, outcomes, from)],
        ) is Some,
    decreases at - from,
{
    if from < at && rules[from].failure(outcomes[from]) is None {
        lemma_failure_before(rules, outcomes, from + 1, at);
    }
}

/// The segments of the field path of `rule`.
fn rule_segments(rule: &EnrichmentConfig) -> (segments: Vec<String>)
    ensures
        keys_model(segments@) == rule.segments(),
        segments@.len() >= 1,
{
    let segments = split_path(rule.field.as_str());
    proof {
        lemma_split_dots(rule.field@);
        assert(keys_model(segments@).len() == segments@.len());
    }
    segments
}

/// Whether a field path with the segments `segments` starts at the data.
fn starts_at_data(segments: &Vec<String>) -> (yes: bool)
    requires
        segments@.len() >= 1,
    ensures
        yes == (keys_model(segments@)[0] == "data"@),
{
    *segments[0].as_str() == *"data"
}

/// The first rule whose field path does not start at the data, if there is
/// one. A caller that wants no rule applied unless every path is valid asks
/// this before an enrichment.
pub fn first_unrooted(config: &Vec<EnrichmentConfig>) -> (found: Option<usize>)
    ensures
        match found {
            Some(at) => at < config@.len() && !config@[at as int].is_rooted() && forall|j: int|
                0 <= j < at ==> config@[j].is_rooted(),
            None => forall|j: int| 0 <= j < config@.len() ==> config@[j].is_rooted(),
        },
{
    let mut i: usize = 0;
    while i < config.len()
        invariant
            i <= config.len(),
            forall|j: int| 0 <= j < i ==> config@[j].is_rooted(),
        decreases config.len() - i,
    {
        let segments = rule_segments(&config[i]);
        if !starts_at_data(&segments) {
            return Some(i);
        }
        i += 1;
    }
    None
}

/// The failure to report for a rule whose field path does not start at the
/// data.
fn invalid_field_path() -> (error: FunctionResponseError)
    ensures
        enrichment_error(error@, ErrorKind::InvalidFieldPath),
{
    FunctionResponseError::new(
        ErrorKind::InvalidFieldPath,
        "Enrichment".to_owned(),
        "Invalid field path".to_owned(),
    )
}

/// The failure to report for a rule whose evaluation gave nothing.
fn rule_evaluation_failure(message: String) -> (error: FunctionResponseError)
    ensures
        enrichment_error(error@, ErrorKind::RuleEvaluationFailure),
{
    FunctionResponseError::new(ErrorKind::RuleEvaluationFailure, "Enrichment".to_owned(), message)
}

/// Goes through the rules with the results that the caller has for them,
/// up to the first rule that fails.
fn gather(config: &Vec<EnrichmentConfig>, outcomes: Vec<Result<JsonValue, String>>) -> (progress: (
    Vec<JsonValue>,
    Option<FunctionResponseError>,
))
    ensures
        is_progress(
            progress.0@,
            progress.1,
            config@,
            outcomes_model(outcomes@, config@.len()),
        ),
{
    let ghost given = outcomes@;
    let ghost model = outcomes_model(given, config@.len());
    let mut outcomes = outcomes;
    let mut values: Vec<JsonValue> = Vec::new();
    let mut error: Option<FunctionResponseError> = None;
    let mut i: usize = 0;
    while i < config.len() && error.is_none()
        invariant
            i <= config.len(),
            model == outcomes_model(given, config@.len()),
            outcomes@.len() == given.len(),
            error is None ==> forall|j: int| i <= j < outcomes@.len() ==> outcomes@[j] == given[j],
            error is None ==> values@.len() == i,
            error is None ==> forall|j: int| 0 <= j < i ==> config@[j].failure(model[j]) is None,
            error is None ==> forall|j: int| 0 <= j < i ==> model[j] == Some(#[trigger] values@[j]@),
            error is Some ==> is_progress(values@, error, config@, model),
        decreases config.len() - i, if error is None { 1nat } else { 0nat },
    {
        let segments = rule_segments(&config[i]);
        if !starts_at_data(&segments) {
            error = Some(invalid_field_path());
            proof {
                lemma_first_failure(config@, model, 0, i as int);
            }
        } else if i < outcomes.len() {
            let mut outcome: Result<JsonValue, String> = Err(String::new());
            std::mem::swap(&mut outcomes[i], &mut outcome);
            match outcome {
                Ok(value) => {
                    values.push(value);
                    i += 1;
                },
                Err(message) => {
                    error = Some(rule_evaluation_failure(message));
                    proof {
                        lemma_first_failure(config@, model, 0, i as int);
                    }
                },
            }
        } else {
            error = Some(rule_evaluation_failure("No result was given for the rule".to_owned()));
            proof {
                lemma_first_failure(config@, model, 0, i as int);
            }
        }
    }
    proof {
        if error is None {
            lemma_first_failure(config@, model, 0, config@.len() as int);
        }
    }
    (values, error)
}

/// Goes through the rules, evaluating each against `input`, up to the
/// first rule that fails.
fn evaluate_rules(config: &Vec<EnrichmentConfig>, input: &JsonValue) -> (progress: (
    Vec<JsonValue>,
    Option<FunctionResponseError>,
))
    ensures
        is_progress(progress.0@, progress.1, config@, evaluations(config@, input@)),
{
    let ghost model = evaluations(config@, input@);
    let evaluator = Evaluator::new(input);
    let mut values: Vec<JsonValue> = Vec::new();
    let mut error: Option<FunctionResponseError> = None;
    let mut i: usize = 0;
    while i < config.len() && error.is_none()
        invariant
            i <= config.len(),
            evaluator.input() == input@,
            model == evaluations(config@, input@),
            error is None ==> values@.len() == i,
            error is None ==> forall|j: int| 0 <= j < i ==> config@[j].failure(model[j]) is None,
            error is None ==> forall|j: int| 0 <= j < i ==> model[j] == Some(#[trigger] values@[j]@),
            error is Some ==> is_progress(values@, error, config@, model),
        decreases config.len() - i, if error is None { 1nat } else { 0nat },
    {
        let segments = rule_segments(&config[i]);
        if !starts_at_data(&segments) {
            error = Some(invalid_field_path());
            proof {
                lemma_first_failure(config@, model, 0, i as int);
            }
        } else {
            match evaluator.evaluate(&config[i].rule) {
                Ok(value) => {
                    values.push(value);
                    i += 1;
                },
                Err(message) => {
                    error = Some(rule_evaluation_failure(message));
                    proof {
                        lemma_first_failure(config@, model, 0, i as int);
                    }
                },
            }
        }
    }
    proof {
        if error is None {
            lemma_first_failure(config@, model, 0, config@.len() as int);
        }
    }
    (values, error)
}

/// Writes the values of the first rules into `data`, one after the other,
/// and returns the record of each change.
fn write_values(
    data: &mut JsonValue,
    config: &Vec<EnrichmentConfig>,
    values: Vec<JsonValue>,
    Ghost(outcomes): Ghost<Seq<Option<Json>>>,
) -> (changes: Vec<ChangeLog>)
    requires
        values@.len() <= config@.len(),
        values@.len() <= outcomes.len(),
        forall|i: int| 0 <= i < values@.len() ==> outcomes[i] == Some(#[trigger] values@[i]@),
    ensures
        final(data)@ == written(old(data)@, config@, outcomes, values@.len()),
        changes_model(changes@) == recorded(old(data)@, config@, outcomes, values@.len()),
{
    let ghost given = values@;
    let mut values = values;
    let mut changes: Vec<ChangeLog> = Vec::new();
    let mut k: usize = 0;
    while k < values.len()
        invariant
            k <= values@.len(),
            values@.len() == given.len(),
            given.len() <= config@.len(),
            given.len() <= outcomes.len(),
            forall|i: int| k <= i < given.len() ==> values@[i] == given[i],
            forall|i: int| 0 <= i < given.len() ==> outcomes[i] == Some(#[trigger] given[i]@),
            data@ == written(old(data)@, config@, outcomes, k as nat),
            changes_model(changes@) == recorded(old(data)@, config@, outcomes, k as nat),
        decreases values@.len() - k,
    {
        let rule = &config[k];
        let segments = rule_segments(rule);
        let ghost before = data@;
        let ghost earlier = changes@;
        let mut value = JsonValue::Null;
        std::mem::swap(&mut values[k], &mut value);
        assert(outcomes[k as int] == Some(given[k as int]@));
        if segments.len() > 1 {
            let new_value = value.clone();
            let old_value = data.write_below(&segments, 1, value);
            let reason = match &rule.description {
                Some(description) => description.clone(),
                None => "Enriched field ".to_owned().concat(rule.field.as_str()),
            };
            let change = ChangeLog::new(
                rule.field.clone(),
                reason,
                Some(old_value),
                Some(new_value),
            );
            proof {
                assert(change@ == rule.change(before, value@));
            }
            changes.push(change);
            proof {
                assert(changes_model(changes@) =~= changes_model(earlier).push(
                    rule.change(before, value@),
                ));
            }
        } else {
            proof {
                assert(rule.target().len() == 0);
            }
        }
        k += 1;
    }
    changes
}

impl Message {
    /// Whether this message has an identifier and the record of its
    /// creation.
    pub open spec fn wf(&self) -> bool {
        &&& self.id > 0
        &&& self.audit@.len() >= 1
    }

    /// The audit trail, oldest entry first.
    pub fn audit(&self) -> (audit: &Vec<AuditLog>)
        ensures
            audit == self.audit,
    {
        &self.audit
    }

    /// The canonical data.
    pub fn data(&self) -> (data: &JsonValue)
        ensures
            data == self.data,
    {
        &self.data
    }

    /// Where the content of the payload is to be read from: inline content
    /// goes before a reference.
    pub fn source(&self) -> (source: ContentSource<'_>)
        ensures
            source == (match (self.payload.content, self.payload.url) {
                (Some(content), _) => ContentSource::Inline(&content),
                (None, Some(url)) => ContentSource::External(&url),
                (None, None) => ContentSource::Missing,
            }),
    {
        match &self.payload.content {
            Some(content) => ContentSource::Inline(content),
            None => match &self.payload.url {
                Some(url) => ContentSource::External(url),
                None => ContentSource::Missing,
            },
        }
    }

    /// The new message with the identifier `id`, whose creation is recorded
    /// under `entry`, received at `received`. An identifier is a positive
    /// number.
    pub fn assemble(
        id: u64,
        entry: Stamp,
        received: time::OffsetDateTime,
        payload: Payload,
        tenant: String,
        origin: String,
        message_alias: Option<String>,
    ) -> (message: Self)
        ensures
            created(message, id, entry, received, payload, tenant, origin, message_alias),
            message.wf() <==> id > 0,
    {
        let alias = match message_alias {
            Some(alias) => alias,
            None => "Message".to_owned(),
        };
        let head = if alias.as_str().unicode_len() == 0 {
            "Message".to_owned()
        } else {
            capitalize(alias.as_str())
        };
        let description = head.concat(" created");
        let lower = alias.as_str().to_lowercase();
        let reason = "Initial message creation for ".to_owned().concat(lower.as_str());
        let change = ChangeLog::new("payload".to_owned(), reason, None, None);
        let mut changes: Vec<ChangeLog> = Vec::new();
        changes.push(change);
        let ghost recorded = changes@;
        let first = AuditLog::stamped(entry, String::new(), String::new(), description, changes);
        proof {
            assert(changes_model(recorded) =~= seq![recorded[0]@]);
        }
        let mut audit: Vec<AuditLog> = Vec::new();
        audit.push(first);
        Message {
            id,
            parent_id: None,
            payload,
            tenant,
            origin,
            data: JsonValue::Null,
            metadata: JsonValue::Null,
            progress: Progress {
                status: MessageStatus::Recieved,
                workflow_id: String::new(),
                prev_task: String::new(),
                prev_status_code: String::new(),
                timestamp: received,
            },
            audit,
        }
    }

    /// A new message, under a fresh identifier and the current time. Fails,
    /// with no message made, where the identifier service gives no
    /// identifier.
    pub fn new(payload: Payload, tenant: String, origin: String, message_alias: Option<String>) -> (made:
        Result<Self, FunctionResponseError>)
        ensures
            match made {
                Ok(message) => message.wf() && created(
                    message,
                    message.id,
                    Stamp { id: message.audit@[0].id, timestamp: message.audit@[0].timestamp },
                    message.progress.timestamp,
                    payload,
                    tenant,
                    origin,
                    message_alias,
                ),
                Err(error) => error@ == failure(
                    ErrorKind::IdUnavailable,
                    "Message"@,
                    "No identifier could be generated"@,
                ),
            },
    {
        let id = match fresh_id() {
            Some(id) => id,
            None => return Err(id_unavailable("Message")),
        };
        let entry = match fresh_stamp() {
            Some(entry) => entry,
            None => return Err(id_unavailable("Message")),
        };
        let received = time::OffsetDateTime::now_utc();
        Ok(Message::assemble(id, entry, received, payload, tenant, origin, message_alias))
    }

    /// Judges what the decoder reports: the error that parsing ends with, or
    /// the canonical form of the content.
    pub fn judge(&self, outcome: DecodeOutcome) -> (judged: Result<JsonValue, FunctionResponseError>)
        ensures
            match judged {
                Ok(document) => parse_failure(self.payload, outcome) is None
                    && outcome == DecodeOutcome::Valid(document),
                Err(error) => parse_failure(self.payload, outcome) == Some(error@),
            },
    {
        if self.payload.content.is_none() && self.payload.url.is_none() {
            return Err(
                FunctionResponseError::new(
                    ErrorKind::MissingSource,
                    "Parse".to_owned(),
                    "No content or URL provided".to_owned(),
                ),
            );
        }
        match outcome {
            DecodeOutcome::Unreadable(detail) => Err(
                FunctionResponseError::new(
                    ErrorKind::SourceUnavailable,
                    "Parse".to_owned(),
                    "File open error: ".to_owned().concat(detail.as_str()),
                ),
            ),
            DecodeOutcome::Malformed(detail) => Err(
                FunctionResponseError::new(
                    ErrorKind::DecodeFailure,
                    "Parse".to_owned(),
                    "ISO20022 parsing error: ".to_owned().concat(detail.as_str()),
                ),
            ),
            DecodeOutcome::Invalid(detail) => Err(
                FunctionResponseError::new(
                    ErrorKind::SchemaValidationFailure,
                    "Parse".to_owned(),
                    "Schema validation error: ".to_owned().concat(detail.as_str()),
                ),
            ),
            DecodeOutcome::Valid(document) => Ok(document),
        }
    }

    /// Takes `document` as the canonical data, whatever the data was, and
    /// records that under `stamp`.
    pub fn accept(&mut self, stamp: Stamp, document: JsonValue, description: Option<String>)
        ensures
            parsed(*old(self), *final(self), stamp, document@, description),
            old(self).wf() ==> final(self).wf(),
    {
        self.data = document;
        let change = ChangeLog::new(
            "data".to_owned(),
            "ISO20022 message parsed".to_owned(),
            None,
            None,
        );
        let mut changes: Vec<ChangeLog> = Vec::new();
        changes.push(change);
        let ghost recorded = changes@;
        let description = match description {
            Some(description) => description,
            None => "ISO20022 message parsed".to_owned(),
        };
        let entry = AuditLog::stamped(stamp, String::new(), String::new(), description, changes);
        proof {
            assert(changes_model(recorded) =~= seq![recorded[0]@]);
        }
        self.audit.push(entry);
        proof {
            assert(self.audit@.drop_last() =~= old(self).audit@);
        }
    }

    /// Ends the parsing of the payload, given what the decoder reports, with
    /// the audit entry stamped `stamp`.
    ///
    /// Fails, and leaves the message as it is, where the payload names no
    /// source or the decoder reports a failure. Otherwise the decoded
    /// document replaces the data and one audit entry is added.
    pub fn parse_at(
        &mut self,
        stamp: Stamp,
        outcome: DecodeOutcome,
        description: Option<String>,
    ) -> (result: Result<(), FunctionResponseError>)
        ensures
            match result {
                Ok(()) => parse_failure(old(self).payload, outcome) is None && parsed(
                    *old(self),
                    *final(self),
                    stamp,
                    outcome->Valid_0@,
                    description,
                ),
                Err(error) => parse_failure(old(self).payload, outcome) == Some(error@)
                    && *final(self) == *old(self),
            },
            old(self).wf() ==> final(self).wf(),
    {
        match self.judge(outcome) {
            Ok(document) => {
                self.accept(stamp, document, description);
                Ok(())
            },
            Err(error) => Err(error),
        }
    }

    /// Ends the parsing of the payload, given what the decoder reports,
    /// with an audit entry under a fresh identifier and the current time.
    ///
    /// Fails, and leaves the message as it is, where the payload names no
    /// source, the decoder reports a failure, or (only then) the identifier
    /// service gives no identifier.
    pub fn parse(&mut self, outcome: DecodeOutcome, description: Option<String>) -> (result: Result<
        (),
        FunctionResponseError,
    >)
        ensures
            match result {
                Ok(()) => parse_failure(old(self).payload, outcome) is None && parsed(
                    *old(self),
                    *final(self),
                    Stamp {
                        id: final(self).audit@.last().id,
                        timestamp: final(self).audit@.last().timestamp,
                    },
                    outcome->Valid_0@,
                    description,
                ),
                Err(error) => *final(self) == *old(self) && match parse_failure(
                    old(self).payload,
                    outcome,
                ) {
                    Some(expected) => error@ == expected,
                    None => error@ == failure(
                        ErrorKind::IdUnavailable,
                        "Parse"@,
                        "No identifier could be generated"@,
                    ),
                },
            },
            old(self).wf() ==> final(self).wf(),
    {
        match self.judge(outcome) {
            Ok(document) => match fresh_stamp() {
                Some(stamp) => {
                    self.accept(stamp, document, description);
                    Ok(())
                },
                None => Err(id_unavailable("Parse")),
            },
            Err(error) => Err(error),
        }
    }

    /// Writes the values of the rules before the first failure, and then
    /// either records the changes under `stamp` or reports the failure.
    fn finish(
        &mut self,
        stamp: Option<Stamp>,
        config: &Vec<EnrichmentConfig>,
        values: Vec<JsonValue>,
        error: Option<FunctionResponseError>,
        description: Option<String>,
        Ghost(outcomes): Ghost<Seq<Option<Json>>>,
    ) -> (result: Result<(), FunctionResponseError>)
        requires
            outcomes.len() == config@.len(),
            is_progress(values@, error, config@, outcomes),
            error is None ==> stamp is Some,
        ensures
            enriched(*old(self), *final(self), stamp->0, config@, outcomes, description, result),
            result is Ok <==> error is None,
            old(self).wf() ==> final(self).wf(),
    {
        let changes = write_values(&mut self.data, config, values, Ghost(outcomes));
        match error {
            Some(error) => Err(error),
            None => {
                let description = match description {
                    Some(description) => description,
                    None => "Enrichment applied".to_owned(),
                };
                let entry = AuditLog::stamped(
                    stamp.unwrap(),
                    String::new(),
                    String::new(),
                    description,
                    changes,
                );
                self.audit.push(entry);
                proof {
                    assert(self.audit@.drop_last() =~= old(self).audit@);
                }
                Ok(())
            },
        }
    }

    /// Applies the rules in order, each with the result that the caller has
    /// for it, and records the changes under `stamp`.
    ///
    /// A rule fails where its field path does not start at `data`, or where
    /// `outcomes` holds an error for it or nothing at all. The rules before
    /// the first failure stay applied; nothing is recorded then.
    pub fn enrich_with(
        &mut self,
        stamp: Stamp,
        config: Vec<EnrichmentConfig>,
        outcomes: Vec<Result<JsonValue, String>>,
        description: Option<String>,
    ) -> (result: Result<(), FunctionResponseError>)
        ensures
            enriched(
                *old(self),
                *final(self),
                stamp,
                config@,
                outcomes_model(outcomes@, config@.len()),
                description,
                result,
            ),
            old(self).wf() ==> final(self).wf(),
    {
        let ghost model = outcomes_model(outcomes@, config@.len());
        let (values, error) = gather(&config, outcomes);
        self.finish(Some(stamp), &config, values, error, description, Ghost(model))
    }

    /// Applies the rules in order, each evaluated against `data`, and
    /// records the changes under `stamp`.
    ///
    /// A rule fails where its field path does not start at `data`, or where
    /// its evaluation gives nothing: the evaluator reports an error, or the
    /// rule or `data` names one of the operators `+`, `-`, `*`, `/` and
    /// `substr`, on which the evaluator may abort. The rules before the
    /// first failure stay applied; nothing is recorded then.
    pub fn enrich_at(
        &mut self,
        stamp: Stamp,
        config: Vec<EnrichmentConfig>,
        data: JsonValue,
        description: Option<String>,
    ) -> (result: Result<(), FunctionResponseError>)
        ensures
            enriched(
                *old(self),
                *final(self),
                stamp,
                config@,
                evaluations(config@, data@),
                description,
                result,
            ),
            old(self).wf() ==> final(self).wf(),
    {
        let ghost model = evaluations(config@, data@);
        let (values, error) = evaluate_rules(&config, &data);
        self.finish(Some(stamp), &config, values, error, description, Ghost(model))
    }

    /// Applies the rules in order, each evaluated against `data`, and
    /// records the changes under a fresh identifier and the current time.
    ///
    /// A rule fails where its field path does not start at `data`, or where
    /// its evaluation gives nothing: the evaluator reports an error, or the
    /// rule or `data` names one of the operators `+`, `-`, `*`, `/` and
    /// `substr`, on which the evaluator may abort. The rules before the
    /// first failure stay applied; nothing is recorded then. Where no rule
    /// fails but the identifier service gives no identifier, nothing is
    /// applied.
    pub fn enrich(
        &mut self,
        config: Vec<EnrichmentConfig>,
        data: JsonValue,
        description: Option<String>,
    ) -> (result: Result<(), FunctionResponseError>)
        ensures
            match result {
                Err(error) if error.kind == ErrorKind::IdUnavailable => {
                    &&& *final(self) == *old(self)
                    &&& first_failure(config@, evaluations(config@, data@), 0) == config@.len()
                    &&& error@ == failure(
                        ErrorKind::IdUnavailable,
                        "Enrichment"@,
                        "No identifier could be generated"@,
                    )
                },
                _ => enriched(
                    *old(self),
                    *final(self),
                    Stamp {
                        id: final(self).audit@.last().id,
                        timestamp: final(self).audit@.last().timestamp,
                    },
                    config@,
                    evaluations(config@, data@),
                    description,
                    result,
                ),
            },
            old(self).wf() ==> final(self).wf(),
    {
        let ghost model = evaluations(config@, data@);
        let (values, error) = evaluate_rules(&config, &data);
        proof {
            lemma_first_failure_fails(config@, model, 0);
        }
        let stamp = if error.is_none() {
            match fresh_stamp() {
                Some(stamp) => Some(stamp),
                None => return Err(id_unavailable("Enrichment")),
            }
        } else {
            None
        };
        self.finish(stamp, &config, values, error, description, Ghost(model))
    }
}

} // verus!
