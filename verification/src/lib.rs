//! Publish dispatch for a node of a content-addressed data network.
//!
//! A publish request names a locally authored record by its content address.
//! The pipeline admits the request only while the node is ready, resolves the
//! address to its record, asks the node's own history for the record's anchor
//! proof, builds the message that carries both to the network, and files the
//! transport's answer under the identity of the request.
//!
//! The store, the history index and the transport are collaborators that the
//! caller owns. The pipeline is therefore a transition function: the caller
//! asks the collaborator that the current stage names and hands the answer
//! back as an event.
pub mod json;
pub mod message;
pub mod pipeline;
pub mod resolver;
pub mod run;
pub mod state;
pub mod types;
