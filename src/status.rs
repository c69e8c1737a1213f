use crate::error::{Error, ErrorKind, ErrorSource};
use vstd::prelude::*;

verus! {

/// The status of a successful answer.
pub const STATUS_OK: u16 = 200;

/// The status of a request the server rejected.
pub const STATUS_BAD_REQUEST: u16 = 400;

/// The status of a lookup that found nothing.
pub const STATUS_NOT_FOUND: u16 = 404;

/// How to read the body of a search response.
#[derive(Clone, Copy, Debug, PartialEq, Eq, Structural)]
pub enum SearchStatus {
    /// The body holds a page.
    Page,
    /// The body holds the reason for a rejection.
    Rejection,
    /// The status is not part of the protocol; the body is not read.
    Unexpected,
}

/// Classifies the status of a search response.
pub fn search_status(status: u16) -> (r: SearchStatus)
    ensures
        r == (if status == STATUS_OK {
            SearchStatus::Page
        } else if status == STATUS_BAD_REQUEST {
            SearchStatus::Rejection
        } else {
            SearchStatus::Unexpected
        }),
{
    if status == STATUS_OK {
        SearchStatus::Page
    } else if status == STATUS_BAD_REQUEST {
        SearchStatus::Rejection
    } else {
        SearchStatus::Unexpected
    }
}

/// Whether an error reports `status` as undefined by the protocol.
pub open spec fn is_unexpected_status(e: Error, status: u16) -> bool {
    &&& e.spec_kind() == ErrorKind::Exception
    &&& match e.spec_source() {
        Some(ErrorSource::UnexpectedStatusCode(c)) => c.spec_code() == status,
        _ => false,
    }
}

/// Reads the status of a lookup by id: `Ok(true)` when the body holds the
/// record, `Ok(false)` when there is no such record.
pub fn lookup_status(status: u16) -> (r: Result<bool, Error>)
    ensures
        status == STATUS_OK ==> r == Ok::<bool, Error>(true),
        status == STATUS_NOT_FOUND ==> r == Ok::<bool, Error>(false),
        status != STATUS_OK && status != STATUS_NOT_FOUND ==> (r matches Err(e)
            && is_unexpected_status(e, status)),
{
    if status == STATUS_OK {
        Ok(true)
    } else if status == STATUS_NOT_FOUND {
        Ok(false)
    } else {
        Err(Error::unexpected_status_code(status))
    }
}

/// Reads the status of a request for a fixed resource: `Ok` when the body
/// holds the resource.
pub fn resource_status(status: u16) -> (r: Result<(), Error>)
    ensures
        r is Ok <==> status == STATUS_OK,
        r matches Err(e) ==> is_unexpected_status(e, status),
{
    if status == STATUS_OK {
        Ok(())
    } else {
        Err(Error::unexpected_status_code(status))
    }
}

} // verus!
