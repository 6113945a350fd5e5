use publish_dispatch::message::{build_message, envelope, payload_text};
use publish_dispatch::state::NodeIdentity;
use publish_dispatch::types::{AnchorProof, ContentAddress, Record};
use serde_json::{Number, Value};

fn identity() -> NodeIdentity {
    NodeIdentity { group: "abcd".to_string(), agent: "alice".to_string() }
}

fn record(content: &str) -> Record {
    Record {
        address: ContentAddress { text: "QmRecordAddress".to_string() },
        content: content.to_string(),
    }
}

fn anchor_proof(header: &str) -> AnchorProof {
    AnchorProof { header: header.to_string() }
}

#[test]
fn payload_text_frames_entry_and_header() {
    let text = payload_text(
        &record("{\"value\":\"1\",\"entry_type\":\"counter\"}"),
        &anchor_proof("{\"timestamp\":\"2018-10-11\"}"),
    );
    assert_eq!(
        text,
        "{\"entry\":{\"value\":\"1\",\"entry_type\":\"counter\"},\"header\":{\"timestamp\":\"2018-10-11\"}}"
    );
}

#[test]
fn payload_text_of_empty_parts_is_the_bare_frame() {
    assert_eq!(payload_text(&record(""), &anchor_proof("")), "{\"entry\":,\"header\":}");
}

#[test]
fn envelope_carries_placeholder_identities_and_address() {
    let content = Value::String("payload".to_string());
    let message = envelope(&identity(), &record("{}"), content);
    assert_eq!(message.correlation_id, "?");
    assert_eq!(message.group_identity, "abcd");
    assert_eq!(message.agent_identity, "alice");
    assert_eq!(message.target_address, "QmRecordAddress");
    assert_eq!(message.content, Value::String("payload".to_string()));
}

#[test]
fn build_message_reads_the_payload_as_a_document() {
    let message = build_message(
        &identity(),
        &record("{\"value\":\"1\",\"entry_type\":\"counter\"}"),
        &anchor_proof("{\"timestamp\":\"2018-10-11\",\"link\":null,\"position\":3}"),
    )
    .expect("both parts are documents");

    let mut entry = serde_json::Map::new();
    entry.insert("value".to_string(), Value::String("1".to_string()));
    entry.insert("entry_type".to_string(), Value::String("counter".to_string()));
    let mut header = serde_json::Map::new();
    header.insert("timestamp".to_string(), Value::String("2018-10-11".to_string()));
    header.insert("link".to_string(), Value::Null);
    header.insert("position".to_string(), Value::Number(Number::from(3u64)));
    let mut content = serde_json::Map::new();
    content.insert("entry".to_string(), Value::Object(entry));
    content.insert("header".to_string(), Value::Object(header));

    assert_eq!(message.content, Value::Object(content));
    assert_eq!(message.correlation_id, "?");
    assert_eq!(message.group_identity, "abcd");
    assert_eq!(message.agent_identity, "alice");
    assert_eq!(message.target_address, "QmRecordAddress");
}

#[test]
fn build_message_keeps_whatever_documents_the_parts_are() {
    let message = build_message(&identity(), &record("[1,2]"), &anchor_proof("\"h\""))
        .expect("both parts are documents");
    assert_eq!(
        message.content["entry"],
        Value::Array(vec![Value::Number(Number::from(1u64)), Value::Number(Number::from(2u64))])
    );
    assert_eq!(message.content["header"], Value::String("h".to_string()));
}

#[test]
fn build_message_refuses_content_that_is_no_document() {
    assert_eq!(build_message(&identity(), &record("{\"value\":"), &anchor_proof("{}")), None);
    assert_eq!(build_message(&identity(), &record(""), &anchor_proof("{}")), None);
}

#[test]
fn build_message_refuses_a_header_that_is_no_document() {
    assert_eq!(build_message(&identity(), &record("{}"), &anchor_proof("not json")), None);
    assert_eq!(build_message(&identity(), &record("{}"), &anchor_proof("")), None);
}
