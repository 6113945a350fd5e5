//! The values that travel through the pipeline, each with its mathematical view.
use vstd::prelude::*;

verus! {

/// An identifier derived from a record's content; a lookup key everywhere.
#[derive(Clone, Debug, PartialEq, Eq, Hash)]
pub struct ContentAddress {
    pub text: String,
}

impl View for ContentAddress {
    type V = Seq<char>;

    open spec fn view(&self) -> Seq<char> {
        self.text@
    }
}

impl ContentAddress {
    /// The address written as `text`.
    pub fn new(text: String) -> (address: Self)
        ensures
            address@ == text@,
    {
        ContentAddress { text }
    }

    /// The address as a string of its own.
    pub fn stringified(&self) -> (text: String)
        ensures
            text@ == self@,
    {
        self.text.clone()
    }
}

/// An atomic unit of shared data, under the address that its content yields.
#[derive(Clone, Debug, PartialEq, Eq)]
pub struct Record {
    /// The record's own address.
    pub address: ContentAddress,
    /// The record in its serialized form: a JSON document, as text.
    pub content: String,
}

/// What a [`Record`] is to a contract.
pub struct RecordView {
    pub address: Seq<char>,
    pub content: Seq<char>,
}

impl View for Record {
    type V = RecordView;

    open spec fn view(&self) -> RecordView {
        RecordView { address: self.address@, content: self.content@ }
    }
}

/// Evidence that a record stands in the node's own ordered history.
#[derive(Clone, Debug, PartialEq, Eq)]
pub struct AnchorProof {
    /// The header of the chain entry that anchors the record, in its
    /// serialized form: a JSON document, as text.
    pub header: String,
}

impl View for AnchorProof {
    type V = Seq<char>;

    open spec fn view(&self) -> Seq<char> {
        self.header@
    }
}

/// Why a stage failed, as a requester reads it in the outcome table.
#[derive(Clone, Debug, PartialEq, Eq)]
pub enum ErrorDetail {
    /// A failure known only by its description.
    Generic(String),
    /// The store could not be read.
    Io(String),
    /// What the store held does not decode to a record.
    Serialization(String),
}

/// What an [`ErrorDetail`] is to a contract.
pub enum ErrorDetailView {
    Generic(Seq<char>),
    Io(Seq<char>),
    Serialization(Seq<char>),
}

impl View for ErrorDetail {
    type V = ErrorDetailView;

    open spec fn view(&self) -> ErrorDetailView {
        match self {
            ErrorDetail::Generic(text) => ErrorDetailView::Generic(text@),
            ErrorDetail::Io(text) => ErrorDetailView::Io(text@),
            ErrorDetail::Serialization(text) => ErrorDetailView::Serialization(text@),
        }
    }
}

/// The transport's refusal of a message, by its description.
#[derive(Clone, Debug, PartialEq, Eq)]
pub struct TransportError {
    pub description: String,
}

impl View for TransportError {
    type V = Seq<char>;

    open spec fn view(&self) -> Seq<char> {
        self.description@
    }
}

/// A request to publish the record at `content_address`. Outcomes are filed
/// under `request_identity`, so two requests for one address stay apart.
#[derive(Clone, Debug, PartialEq, Eq)]
pub struct PublishRequest {
    pub request_identity: u64,
    pub content_address: ContentAddress,
}

/// What a [`PublishRequest`] is to a contract.
pub struct RequestView {
    pub request_identity: u64,
    pub content_address: Seq<char>,
}

impl View for PublishRequest {
    type V = RequestView;

    open spec fn view(&self) -> RequestView {
        RequestView {
            request_identity: self.request_identity,
            content_address: self.content_address@,
        }
    }
}

/// What a requester finds under its identity: the address of the published
/// record, or why the transport refused it.
pub type Outcome = Result<ContentAddress, ErrorDetail>;

/// What an [`Outcome`] is to a contract.
pub type OutcomeView = Result<Seq<char>, ErrorDetailView>;

/// The view of an outcome. `Result` has no view of its own.
pub open spec fn outcome_view(outcome: Outcome) -> OutcomeView {
    match outcome {
        Ok(address) => Ok(address@),
        Err(detail) => Err(detail@),
    }
}

} // verus!
