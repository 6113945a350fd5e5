//! The message that carries a record and its anchor proof to the network.
use vstd::prelude::*;
use vstd::string::StringExecFns;
use crate::json::{json_document, read_document};
use crate::state::{NodeIdentity, NodeIdentityView};
use crate::types::{AnchorProof, Record, RecordView};

verus! {

/// The envelope that the transport sends. It is built for one send and has no
/// life beyond it.
#[derive(Debug, PartialEq)]
pub struct PublishMessage {
    pub correlation_id: String,
    pub group_identity: String,
    pub agent_identity: String,
    pub target_address: String,
    pub content: serde_json::Value,
}

/// What a [`PublishMessage`] is to a contract.
pub struct MessageView {
    pub correlation_id: Seq<char>,
    pub group_identity: Seq<char>,
    pub agent_identity: Seq<char>,
    pub target_address: Seq<char>,
    pub content: serde_json::Value,
}

impl View for PublishMessage {
    type V = MessageView;

    open spec fn view(&self) -> MessageView {
        MessageView {
            correlation_id: self.correlation_id@,
            group_identity: self.group_identity@,
            agent_identity: self.agent_identity@,
            target_address: self.target_address@,
            content: self.content,
        }
    }
}

/// The correlation placeholder: the pipeline does not number its messages.
pub open spec fn correlation_placeholder() -> Seq<char> {
    "?"@
}

/// The payload as text: one JSON object whose member `entry` is the record's
/// content and whose member `header` is the proof's header.
pub open spec fn payload_frame(content: Seq<char>, header: Seq<char>) -> Seq<char> {
    "{\"entry\":"@ + content + ",\"header\":"@ + header + "}"@
}

/// The message around `content`: the placeholder, the node's identities, and
/// the record's own address as the place to send to.
pub open spec fn enveloped(
    identity: NodeIdentityView,
    record: RecordView,
    content: serde_json::Value,
) -> MessageView {
    MessageView {
        correlation_id: correlation_placeholder(),
        group_identity: identity.group,
        agent_identity: identity.agent,
        target_address: record.address,
        content,
    }
}

/// The message for `record` and `proof`, where their payload reads as a JSON
/// document.
pub open spec fn message_for(
    identity: NodeIdentityView,
    record: RecordView,
    proof: Seq<char>,
) -> Option<MessageView> {
    match json_document(payload_frame(record.content, proof)) {
        Some(content) => Some(enveloped(identity, record, content)),
        None => None,
    }
}

/// Frames the record's content and the proof's header as one payload text.
pub fn payload_text(record: &Record, proof: &AnchorProof) -> (text: String)
    ensures
        text@ == payload_frame(record@.content, proof@),
{
    let mut text = "{\"entry\":".to_owned();
    text.append(record.content.as_str());
    text.append(",\"header\":");
    text.append(proof.header.as_str());
    text.append("}");
    text
}

/// Wraps a payload that has been read already.
pub fn envelope(identity: &NodeIdentity, record: &Record, content: serde_json::Value) -> (message:
    PublishMessage)
    ensures
        message@ == enveloped(identity@, record@, content),
{
    PublishMessage {
        correlation_id: "?".to_owned(),
        group_identity: identity.group.clone(),
        agent_identity: identity.agent.clone(),
        target_address: record.address.stringified(),
        content,
    }
}

/// Builds the message for `record` and `proof`. The payload is framed, read
/// back as a document, and wrapped. `None` means that the record's content
/// or the proof's header is no JSON: a fault of whoever made them.
pub fn build_message(identity: &NodeIdentity, record: &Record, proof: &AnchorProof) -> (built:
    Option<PublishMessage>)
    ensures
        match built {
            Some(message) => message_for(identity@, record@, proof@) == Some(message@),
            None => message_for(identity@, record@, proof@) is None,
        },
{
    let text = payload_text(record, proof);
    match read_document(text.as_str()) {
        Ok(content) => Some(envelope(identity, record, content)),
        Err(_) => None,
    }
}

} // verus!
