use core_data::models::auditlog::{AuditLog, ChangeLog};
use core_data::models::errors::{ErrorKind, FunctionResponseError};
use core_data::models::message::{first_unrooted, EnrichmentConfig, Message};
use core_data::models::payload::{Encoding, Payload, PayloadFormat, PayloadSchema};
use core_data::models::services::{fresh_id, fresh_stamp, id_unavailable, identifier, Stamp};
use core_data::models::value::JsonValue;

fn text(s: &str) -> JsonValue {
    JsonValue::String(s.to_string())
}

fn number(n: i64) -> JsonValue {
    JsonValue::Number(serde_json::Number::from(n))
}

fn object(entries: Vec<(&str, JsonValue)>) -> JsonValue {
    JsonValue::Object(entries.into_iter().map(|(k, v)| (k.to_string(), v)).collect())
}

fn var(name: &str) -> JsonValue {
    object(vec![("var", text(name))])
}

fn stamp(id: u64) -> Stamp {
    Stamp { id, timestamp: time::OffsetDateTime::UNIX_EPOCH }
}

fn rule(field: &str, rule: JsonValue, description: Option<&str>) -> EnrichmentConfig {
    EnrichmentConfig {
        field: field.to_string(),
        rule,
        description: description.map(|d| d.to_string()),
    }
}

fn message() -> Message {
    Message::assemble(
        5,
        stamp(6),
        time::OffsetDateTime::UNIX_EPOCH,
        Payload::new_inline(None, PayloadFormat::Json, PayloadSchema::ISO20022, Encoding::Utf8),
        "tenant".to_string(),
        "origin".to_string(),
        None,
    )
}

#[test]
fn every_rule_records_one_change_in_order() {
    let mut message = message();
    message.data = object(vec![("a", number(1))]);
    let input = object(vec![("x", number(10)), ("y", number(20)), ("z", number(30))]);
    let config = vec![
        rule("data.a", var("x"), Some("first")),
        rule("data.b.c", var("y"), None),
        rule("data.a", var("z"), Some("third")),
    ];
    message.enrich_at(stamp(7), config, input, Some("batch".to_string())).unwrap();
    assert_eq!(message.data, object(vec![("a", number(30)), ("b", object(vec![("c", number(20))]))]));
    assert_eq!(message.audit.len(), 2);
    let entry = &message.audit[1];
    assert_eq!(entry.id, 7);
    assert_eq!(entry.description, "batch");
    assert_eq!(
        entry.changes,
        vec![
            ChangeLog::new(
                "data.a".to_string(),
                "first".to_string(),
                Some(number(1)),
                Some(number(10))
            ),
            ChangeLog::new(
                "data.b.c".to_string(),
                "Enriched field data.b.c".to_string(),
                Some(JsonValue::Null),
                Some(number(20))
            ),
            ChangeLog::new(
                "data.a".to_string(),
                "third".to_string(),
                Some(number(10)),
                Some(number(30))
            ),
        ]
    );
}

#[test]
fn an_empty_batch_records_an_entry_without_changes() {
    let mut message = message();
    message.enrich_at(stamp(7), vec![], JsonValue::Null, None).unwrap();
    assert!(message.data.is_null());
    assert_eq!(message.audit.len(), 2);
    assert_eq!(message.audit[1].description, "Enrichment applied");
    assert!(message.audit[1].changes.is_empty());
}

#[test]
fn a_rule_for_the_root_alone_writes_nothing() {
    let mut message = message();
    message.data = object(vec![("a", number(1))]);
    let input = object(vec![("x", number(10))]);
    message
        .enrich_at(stamp(7), vec![rule("data", var("x"), None)], input, None)
        .unwrap();
    assert_eq!(message.data, object(vec![("a", number(1))]));
    assert_eq!(message.audit.len(), 2);
    assert!(message.audit[1].changes.is_empty());
}

#[test]
fn a_failure_in_the_middle_keeps_the_earlier_writes_and_records_nothing() {
    let mut message = message();
    let input = object(vec![("x", number(10))]);
    let config = vec![
        rule("data.a", var("x"), None),
        rule("elsewhere.b", var("x"), None),
        rule("data.c", var("x"), None),
    ];
    let error = message.enrich_at(stamp(7), config, input, None).unwrap_err();
    assert_eq!(error.kind, ErrorKind::InvalidFieldPath);
    assert_eq!(message.data, object(vec![("a", number(10))]));
    assert_eq!(message.audit.len(), 1);
}

#[test]
fn a_rule_that_cannot_be_evaluated_reports_rule_evaluation_failure() {
    let mut message = message();
    let before = message.clone();
    let config = vec![rule("data.a", object(vec![("no_such_operator", text("x"))]), None)];
    let error = message.enrich(config, JsonValue::Null, None).unwrap_err();
    assert_eq!(error.kind, ErrorKind::RuleEvaluationFailure);
    assert_eq!(error.function, "Enrichment");
    assert_eq!(error.code, 400);
    assert_eq!(error.message, "Unknown operator: no_such_operator");
    assert_eq!(message, before);
}

#[test]
fn the_root_is_checked_before_the_rule_is_evaluated() {
    let mut message = message();
    let config = vec![rule("other.a", object(vec![("no_such_operator", text("x"))]), None)];
    let error = message.enrich(config, JsonValue::Null, None).unwrap_err();
    assert_eq!(error.kind, ErrorKind::InvalidFieldPath);
}

#[test]
fn a_root_that_only_starts_with_data_is_refused() {
    for field in ["database.a", "Data.a", "", ".data", " data.a", "dat"] {
        let mut message = message();
        let error = message
            .enrich_at(stamp(7), vec![rule(field, var("x"), None)], JsonValue::Null, None)
            .unwrap_err();
        assert_eq!(error.kind, ErrorKind::InvalidFieldPath);
    }
}

#[test]
fn later_rules_see_what_earlier_rules_wrote() {
    let mut message = message();
    let input = object(vec![("x", number(1)), ("y", number(2))]);
    let config = vec![rule("data.a", var("x"), None), rule("data.a.b", var("y"), None)];
    message.enrich_at(stamp(7), config, input, None).unwrap();
    assert_eq!(message.data, object(vec![("a", object(vec![("b", number(2))]))]));
    let changes = &message.audit[1].changes;
    assert_eq!(changes[0].old_value, Some(JsonValue::Null));
    assert_eq!(changes[1].old_value, Some(JsonValue::Null));
    assert_eq!(changes[1].new_value, Some(number(2)));
}

#[test]
fn enrich_with_takes_the_results_as_given() {
    let mut message = message();
    let config = vec![rule("data.sum", JsonValue::Null, None), rule("data.b", JsonValue::Null, None)];
    let outcomes = vec![Ok(number(3)), Ok(text("x"))];
    message.enrich_with(stamp(7), config, outcomes, None).unwrap();
    assert_eq!(message.data, object(vec![("sum", number(3)), ("b", text("x"))]));
    assert_eq!(message.audit[1].changes.len(), 2);
}

#[test]
fn enrich_with_reports_a_failed_result() {
    let mut message = message();
    let config = vec![rule("data.a", JsonValue::Null, None), rule("data.b", JsonValue::Null, None)];
    let outcomes = vec![Ok(number(3)), Err("division by zero".to_string())];
    let error = message.enrich_with(stamp(7), config, outcomes, None).unwrap_err();
    assert_eq!(error.kind, ErrorKind::RuleEvaluationFailure);
    assert_eq!(error.message, "division by zero");
    assert_eq!(message.data, object(vec![("a", number(3))]));
    assert_eq!(message.audit.len(), 1);
}

#[test]
fn enrich_with_reports_a_missing_result() {
    let mut message = message();
    let config = vec![rule("data.a", JsonValue::Null, None), rule("data.b", JsonValue::Null, None)];
    let error = message.enrich_with(stamp(7), config, vec![Ok(number(3))], None).unwrap_err();
    assert_eq!(error.kind, ErrorKind::RuleEvaluationFailure);
    assert_eq!(error.message, "No result was given for the rule");
    assert_eq!(message.data, object(vec![("a", number(3))]));
}

#[test]
fn enrich_with_ignores_results_beyond_the_rules() {
    let mut message = message();
    let config = vec![rule("data.a", JsonValue::Null, None)];
    message.enrich_with(stamp(7), config, vec![Ok(number(3)), Ok(number(4))], None).unwrap();
    assert_eq!(message.data, object(vec![("a", number(3))]));
}

#[test]
fn enrich_under_a_fresh_identifier() {
    let mut message = message();
    let before = message.clone();
    let input = object(vec![("x", number(10))]);
    match message.enrich(vec![rule("data.a", var("x"), None)], input, None) {
        Ok(()) => {
            assert_eq!(message.data, object(vec![("a", number(10))]));
            assert_eq!(message.audit.len(), 2);
        }
        Err(error) => {
            assert_eq!(
                error,
                FunctionResponseError::new(
                    ErrorKind::IdUnavailable,
                    "Enrichment".to_string(),
                    "No identifier could be generated".to_string()
                )
            );
            assert_eq!(message, before);
        }
    }
}

#[test]
fn audit_entries_under_a_stamp_and_under_a_fresh_identifier() {
    let change = ChangeLog::new("data.a".to_string(), "why".to_string(), None, Some(number(1)));
    let entry = AuditLog::stamped(
        stamp(9),
        "wf".to_string(),
        "task".to_string(),
        "what".to_string(),
        vec![change.clone()],
    );
    assert_eq!(entry.id, 9);
    assert_eq!(entry.workflow, "wf");
    assert_eq!(entry.task, "task");
    assert_eq!(entry.description, "what");
    assert_eq!(entry.hash, "");
    assert_eq!(entry.changes, vec![change.clone()]);
    match AuditLog::new("wf".to_string(), "task".to_string(), "what".to_string(), vec![change]) {
        Ok(fresh) => {
            assert_eq!(fresh.workflow, entry.workflow);
            assert_eq!(fresh.description, entry.description);
            assert_eq!(fresh.changes, entry.changes);
        }
        Err(error) => assert_eq!(error, id_unavailable("AuditLog")),
    }
}

#[test]
fn the_default_change_log_is_empty() {
    let change = ChangeLog::default();
    assert_eq!(change.field, "");
    assert_eq!(change.reason, "");
    assert_eq!(change.old_value, None);
    assert_eq!(change.new_value, None);
}

#[test]
fn fresh_identifiers_and_stamps() {
    match (fresh_id(), fresh_stamp()) {
        (Some(id), Some(stamp)) => {
            assert!(id > 0);
            assert!(stamp.id > 0);
            assert!(stamp.timestamp > time::OffsetDateTime::UNIX_EPOCH);
        }
        (None, None) => {}
        _ => panic!("the identifier service answered one call and not the other"),
    }
}

#[test]
fn error_codes_by_kind() {
    assert_eq!(ErrorKind::MissingSource.code(), 400);
    assert_eq!(ErrorKind::SourceUnavailable.code(), 400);
    assert_eq!(ErrorKind::DecodeFailure.code(), 400);
    assert_eq!(ErrorKind::SchemaValidationFailure.code(), 400);
    assert_eq!(ErrorKind::InvalidFieldPath.code(), 400);
    assert_eq!(ErrorKind::RuleEvaluationFailure.code(), 400);
    assert_eq!(ErrorKind::IdUnavailable.code(), 503);
}

#[test]
fn the_first_unrooted_rule_is_found() {
    let rooted = rule("data.a", var("x"), None);
    let root_alone = rule("data", var("x"), None);
    let unrooted = rule("meta.a", var("x"), None);
    assert_eq!(first_unrooted(&vec![]), None);
    assert_eq!(first_unrooted(&vec![rooted.clone(), root_alone.clone()]), None);
    assert_eq!(first_unrooted(&vec![rooted.clone(), unrooted.clone(), unrooted.clone()]), Some(1));
    assert_eq!(first_unrooted(&vec![unrooted, rooted]), Some(0));
}

#[test]
fn an_answer_of_the_identifier_service_is_read() {
    assert_eq!(identifier(Ok(sonyflake::Id::from(7))), Some(7));
    assert_eq!(identifier(Ok(sonyflake::Id::from(u64::MAX))), Some(u64::MAX));
    assert_eq!(identifier(Ok(sonyflake::Id::from(0))), None);
    assert_eq!(identifier(Err(sonyflake::Error::OverTimeLimit)), None);
    assert_eq!(identifier(Err(sonyflake::Error::NoPrivateIPv4)), None);
}
