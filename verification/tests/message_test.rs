use core_data::models::auditlog::AuditLog;
use core_data::models::errors::{ErrorKind, FunctionResponseError};
use core_data::models::message::{DecodeOutcome, EnrichmentConfig, Message, MessageStatus};
use core_data::models::payload::{Encoding, Payload, PayloadFormat, PayloadSchema};
use core_data::models::services::Stamp;
use core_data::models::value::JsonValue;

fn text(s: &str) -> JsonValue {
    JsonValue::String(s.to_string())
}

fn object(entries: Vec<(&str, JsonValue)>) -> JsonValue {
    JsonValue::Object(entries.into_iter().map(|(k, v)| (k.to_string(), v)).collect())
}

fn var(name: &str) -> JsonValue {
    object(vec![("var", JsonValue::Array(vec![text(name)]))])
}

fn stamp(id: u64) -> Stamp {
    Stamp { id, timestamp: time::OffsetDateTime::UNIX_EPOCH }
}

/// A message from the identifier service where it answers, and with fixed
/// identifiers where it does not.
fn new_message(payload: Payload, tenant: &str, origin: &str, alias: Option<&str>) -> Message {
    let alias = alias.map(|a| a.to_string());
    match Message::new(payload.clone(), tenant.to_string(), origin.to_string(), alias.clone()) {
        Ok(message) => message,
        Err(error) => {
            assert_eq!(error.kind, ErrorKind::IdUnavailable);
            Message::assemble(
                1001,
                stamp(1002),
                time::OffsetDateTime::UNIX_EPOCH,
                payload,
                tenant.to_string(),
                origin.to_string(),
                alias,
            )
        }
    }
}

/// An enrichment under a fresh identifier where the service answers, and
/// under a fixed one where it does not.
fn enrich(
    message: &mut Message,
    config: Vec<EnrichmentConfig>,
    data: JsonValue,
    description: Option<String>,
) -> Result<(), FunctionResponseError> {
    let before = message.clone();
    match message.enrich(config.clone(), data.clone(), description.clone()) {
        Err(error) if error.kind == ErrorKind::IdUnavailable => {
            assert_eq!(*message, before);
            message.enrich_at(stamp(2001), config, data, description)
        }
        other => other,
    }
}

/// The end of a parse under a fresh identifier where the service answers,
/// and under a fixed one where it does not.
fn parse(
    message: &mut Message,
    outcome: DecodeOutcome,
    description: Option<String>,
) -> Result<(), FunctionResponseError> {
    let before = message.clone();
    match message.parse(outcome.clone(), description.clone()) {
        Err(error) if error.kind == ErrorKind::IdUnavailable => {
            assert_eq!(*message, before);
            message.parse_at(stamp(3001), outcome, description)
        }
        other => other,
    }
}

const PACS008: &str = "<Document><FIToFICstmrCdtTrf><GrpHdr><MsgId>MSG-1</MsgId></GrpHdr></FIToFICstmrCdtTrf></Document>";

fn pacs008_document() -> JsonValue {
    object(vec![(
        "FIToFICstmrCdtTrf",
        object(vec![("GrpHdr", object(vec![("MsgId", text("MSG-1"))]))]),
    )])
}

#[test]
fn test_message_creation_and_parse() {
    let xml_bytes = PACS008.as_bytes().to_vec();

    let payload = Payload::new_inline(
        Some(xml_bytes.clone()),
        PayloadFormat::Xml,
        PayloadSchema::ISO20022,
        Encoding::Utf8,
    );

    let mut message = new_message(payload, "test_tenant", "test_origin", Some("TestMessage"));

    assert!(message.data.is_null());
    assert!(message.audit.len() == 1);
    assert!(message.audit[0].description.contains("TestMessage created"));

    parse(
        &mut message,
        DecodeOutcome::Valid(pacs008_document()),
        Some("Test XML parsing".to_string()),
    )
    .expect("Failed to parse XML message");

    assert!(!message.data.is_null());
    assert!(message.audit.len() == 2);
    assert_eq!(message.audit[1].description, "Test XML parsing");
}

#[test]
fn test_message_enrichment() {
    let mut message = new_message(
        Payload::new_inline(None, PayloadFormat::Json, PayloadSchema::ISO20022, Encoding::Utf8),
        "test_tenant",
        "test_origin",
        None,
    );

    message.data = object(vec![
        ("field1", text("value1")),
        ("nested", object(vec![("field2", text("value2"))])),
    ]);

    let config = vec![
        EnrichmentConfig {
            field: "data.field1".to_string(),
            rule: var("new_value1"),
            description: Some("Update field1".to_string()),
        },
        EnrichmentConfig {
            field: "data.nested.field2".to_string(),
            rule: var("new_value2"),
            description: Some("Update nested field2".to_string()),
        },
    ];

    let enrich_data =
        object(vec![("new_value1", text("updated1")), ("new_value2", text("updated2"))]);

    enrich(&mut message, config, enrich_data, Some("Test enrichment".to_string()))
        .expect("Failed to enrich message");

    assert_eq!(message.data.get("field1"), Some(&text("updated1")));
    assert_eq!(message.data.get("nested").unwrap().get("field2"), Some(&text("updated2")));
    assert!(message.audit.len() > 1);

    let enrich_audit = message.audit.last().unwrap();
    assert_eq!(enrich_audit.changes.len(), 2);
    assert!(enrich_audit.changes.iter().any(|c| c.field == "data.field1"));
    assert!(enrich_audit.changes.iter().any(|c| c.field == "data.nested.field2"));
}

#[test]
fn test_invalid_enrichment() {
    let mut message = new_message(
        Payload::new_inline(None, PayloadFormat::Json, PayloadSchema::ISO20022, Encoding::Utf8),
        "test_tenant",
        "test_origin",
        None,
    );

    let invalid_config = vec![EnrichmentConfig {
        field: "invalid.path".to_string(),
        rule: var("non_existent"),
        description: Some("Invalid update".to_string()),
    }];

    let result = message.enrich(
        invalid_config,
        object(vec![]),
        Some("Invalid enrichment".to_string()),
    );
    assert!(result.is_err());
}

#[test]
fn invalid_root_reports_invalid_field_path_and_changes_nothing() {
    let mut message = new_message(
        Payload::new_inline(None, PayloadFormat::Json, PayloadSchema::ISO20022, Encoding::Utf8),
        "t",
        "o",
        None,
    );
    let before = message.clone();
    let config = vec![EnrichmentConfig {
        field: "metadata.x".to_string(),
        rule: var("a"),
        description: None,
    }];
    let error = message.enrich(config, object(vec![]), None).unwrap_err();
    assert_eq!(error.kind, ErrorKind::InvalidFieldPath);
    assert_eq!(error.function, "Enrichment");
    assert_eq!(error.code, 400);
    assert_eq!(error.message, "Invalid field path");
    assert_eq!(message, before);
}

#[test]
fn assembled_message_starts_empty_with_one_audit_entry() {
    let payload =
        Payload::new_inline(None, PayloadFormat::Json, PayloadSchema::ISO20022, Encoding::Utf8);
    let message = Message::assemble(
        42,
        stamp(43),
        time::OffsetDateTime::UNIX_EPOCH,
        payload.clone(),
        "tenant".to_string(),
        "origin".to_string(),
        Some("payment Order".to_string()),
    );
    assert_eq!(message.id, 42);
    assert_eq!(message.parent_id, None);
    assert_eq!(message.payload, payload);
    assert_eq!(message.tenant, "tenant");
    assert_eq!(message.origin, "origin");
    assert_eq!(message.data, JsonValue::Null);
    assert_eq!(message.metadata, JsonValue::Null);
    assert_eq!(message.progress.status, MessageStatus::Recieved);
    assert_eq!(message.progress.workflow_id, "");
    assert_eq!(message.progress.prev_task, "");
    assert_eq!(message.progress.prev_status_code, "");
    assert_eq!(message.progress.timestamp, time::OffsetDateTime::UNIX_EPOCH);
    assert_eq!(message.audit().len(), 1);
    let entry: &AuditLog = &message.audit()[0];
    assert_eq!(entry.id, 43);
    assert_eq!(entry.description, "Payment Order created");
    assert_eq!(entry.workflow, "");
    assert_eq!(entry.task, "");
    assert_eq!(entry.hash, "");
    assert_eq!(entry.service, "");
    assert_eq!(entry.instance, "");
    assert_eq!(entry.version, "");
    assert_eq!(entry.changes.len(), 1);
    assert_eq!(entry.changes[0].field, "payload");
    assert_eq!(entry.changes[0].reason, "Initial message creation for payment order");
    assert_eq!(entry.changes[0].old_value, None);
    assert_eq!(entry.changes[0].new_value, None);
    assert_eq!(message.data(), &JsonValue::Null);
}

#[test]
fn default_alias_is_message() {
    let payload =
        Payload::new_inline(None, PayloadFormat::Json, PayloadSchema::ISO20022, Encoding::Utf8);
    let message = Message::assemble(
        1,
        stamp(2),
        time::OffsetDateTime::UNIX_EPOCH,
        payload,
        String::new(),
        String::new(),
        None,
    );
    assert_eq!(message.audit[0].description, "Message created");
    assert_eq!(message.audit[0].changes[0].reason, "Initial message creation for message");
}

#[test]
fn empty_alias_is_described_as_message() {
    let payload =
        Payload::new_inline(None, PayloadFormat::Json, PayloadSchema::ISO20022, Encoding::Utf8);
    let message = Message::assemble(
        1,
        stamp(2),
        time::OffsetDateTime::UNIX_EPOCH,
        payload,
        String::new(),
        String::new(),
        Some(String::new()),
    );
    assert_eq!(message.audit[0].description, "Message created");
    assert_eq!(message.audit[0].changes[0].reason, "Initial message creation for ");
}

#[test]
fn alias_with_a_letter_of_several_bytes_is_capitalized() {
    let payload =
        Payload::new_inline(None, PayloadFormat::Json, PayloadSchema::ISO20022, Encoding::Utf8);
    let message = Message::assemble(
        1,
        stamp(2),
        time::OffsetDateTime::UNIX_EPOCH,
        payload,
        String::new(),
        String::new(),
        Some("élan ÉCLAT".to_string()),
    );
    assert_eq!(message.audit[0].description, "Élan ÉCLAT created");
    assert_eq!(message.audit[0].changes[0].reason, "Initial message creation for élan éclat");
}

#[test]
fn alias_whose_capital_is_two_letters() {
    let payload =
        Payload::new_inline(None, PayloadFormat::Json, PayloadSchema::ISO20022, Encoding::Utf8);
    let message = Message::assemble(
        1,
        stamp(2),
        time::OffsetDateTime::UNIX_EPOCH,
        payload,
        String::new(),
        String::new(),
        Some("ßeta".to_string()),
    );
    assert_eq!(message.audit[0].description, "SSeta created");
}

#[test]
fn new_message_has_a_positive_identifier_or_reports_the_service() {
    let payload =
        Payload::new_inline(None, PayloadFormat::Json, PayloadSchema::ISO20022, Encoding::Utf8);
    match Message::new(payload, "t".to_string(), "o".to_string(), Some("order".to_string())) {
        Ok(message) => {
            assert!(message.id > 0);
            assert!(message.data.is_null());
            assert_eq!(message.audit.len(), 1);
            assert_eq!(message.audit[0].description, "Order created");
        }
        Err(error) => {
            assert_eq!(error.kind, ErrorKind::IdUnavailable);
            assert_eq!(error.function, "Message");
            assert_eq!(error.code, 503);
            assert_eq!(error.message, "No identifier could be generated");
        }
    }
}

#[test]
fn end_to_end_parse_then_enrich_amount() {
    let payload = Payload::new_inline(
        Some(PACS008.as_bytes().to_vec()),
        PayloadFormat::Xml,
        PayloadSchema::ISO20022,
        Encoding::Utf8,
    );
    let mut message = Message::assemble(
        10,
        stamp(11),
        time::OffsetDateTime::UNIX_EPOCH,
        payload,
        "t".to_string(),
        "o".to_string(),
        None,
    );
    message.parse_at(stamp(12), DecodeOutcome::Valid(pacs008_document()), None).unwrap();
    assert!(!message.data.is_null());
    assert_eq!(message.audit.len(), 2);

    let forty_two = JsonValue::Number(serde_json::Number::from(42));
    let config = vec![EnrichmentConfig {
        field: "data.amount".to_string(),
        rule: object(vec![("var", text("new_amount"))]),
        description: None,
    }];
    message
        .enrich_at(stamp(13), config, object(vec![("new_amount", forty_two.clone())]), None)
        .unwrap();
    assert_eq!(message.data.get("amount"), Some(&forty_two));
    assert_eq!(
        message.data.get("FIToFICstmrCdtTrf"),
        pacs008_document().get("FIToFICstmrCdtTrf")
    );
    assert_eq!(message.audit.len(), 3);
    let last = message.audit.last().unwrap();
    assert_eq!(last.id, 13);
    assert_eq!(last.description, "Enrichment applied");
    assert_eq!(last.changes.len(), 1);
    assert_eq!(last.changes[0].field, "data.amount");
    assert_eq!(last.changes[0].old_value, Some(JsonValue::Null));
    assert_eq!(last.changes[0].new_value, Some(forty_two));
    assert_eq!(last.changes[0].reason, "Enriched field data.amount");
}

#[test]
fn an_identifier_is_a_positive_number() {
    let payload =
        Payload::new_inline(None, PayloadFormat::Json, PayloadSchema::ISO20022, Encoding::Utf8);
    let message = Message::assemble(
        u64::MAX,
        stamp(0),
        time::OffsetDateTime::UNIX_EPOCH,
        payload,
        String::new(),
        String::new(),
        None,
    );
    assert!(message.id > 0);
    assert_eq!(message.audit.len(), 1);
    assert_eq!(message.audit[0].id, 0);
}
