//! From the store's answer to a record.
use vstd::prelude::*;
use crate::types::{ErrorDetail, ErrorDetailView, Record, RecordView};

verus! {

/// What the store answers to a fetch: what it holds at the address, nothing,
/// or why it could not tell.
pub type Fetched = Result<Option<Record>, ErrorDetail>;

/// What a [`Fetched`] is to a contract.
pub type FetchedView = Result<Option<RecordView>, ErrorDetailView>;

/// The view of the store's answer.
pub open spec fn fetched_view(fetched: Fetched) -> FetchedView {
    match fetched {
        Ok(Some(record)) => Ok(Some(record@)),
        Ok(None) => Ok(None),
        Err(detail) => Err(detail@),
    }
}

/// The description under which a missing entry is reported.
pub open spec fn not_found() -> Seq<char> {
    "Entry not found"@
}

/// The record that the store's answer resolves to. An address that the store
/// does not hold is a failure like any other.
pub open spec fn resolution(fetched: FetchedView) -> Result<RecordView, ErrorDetailView> {
    match fetched {
        Ok(Some(record)) => Ok(record),
        Ok(None) => Err(ErrorDetailView::Generic(not_found())),
        Err(detail) => Err(detail),
    }
}

/// Resolves the store's answer: the record it holds, the store's own failure,
/// or the generic failure "Entry not found" where it holds nothing.
pub fn entry_from_cas(fetched: Fetched) -> (resolved: Result<Record, ErrorDetail>)
    ensures
        match resolved {
            Ok(record) => resolution(fetched_view(fetched)) == Ok::<RecordView, ErrorDetailView>(
                record@,
            ),
            Err(detail) => resolution(fetched_view(fetched)) == Err::<RecordView, ErrorDetailView>(
                detail@,
            ),
        },
{
    match fetched {
        Ok(Some(record)) => Ok(record),
        Ok(None) => Err(ErrorDetail::Generic("Entry not found".to_owned())),
        Err(detail) => Err(detail),
    }
}

} // verus!
