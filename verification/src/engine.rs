//! What is asked of the search engine, and what it answers.
//!
//! The engine is reached by the caller. This module fixes the vocabulary of
//! that exchange: one request per operation, and one reply per request.

use vstd::prelude::*;
use crate::error::Error;
use crate::query::{Query, QueryView};
use crate::record::{BodyView, DocumentBody};

verus! {

/// Name of the collection that holds the facilities.
pub open spec fn collection_spec() -> Seq<char> {
    "onsen"@
}

/// Name of the collection that holds the facilities.
pub fn collection() -> (name: &'static str)
    ensures
        name@ == collection_spec(),
{
    "onsen"
}

/// One call to the engine. Every request addresses the one collection.
#[derive(Debug)]
pub enum EngineRequest {
    /// Find the documents that match `query`.
    Search { query: Query },
    /// Fetch the document stored under `id`.
    Get { id: String },
    /// Store `body` as a new document; the engine chooses its identifier.
    Index { body: DocumentBody },
    /// Merge the fields of `doc` into the document stored under `id`.
    Update { id: String, doc: DocumentBody },
    /// Remove the document stored under `id`.
    Delete { id: String },
}

/// Mathematical value of a request.
pub enum RequestView {
    Search { query: QueryView },
    Get { id: Seq<char> },
    Index { body: BodyView },
    Update { id: Seq<char>, doc: BodyView },
    Delete { id: Seq<char> },
}

impl View for EngineRequest {
    type V = RequestView;

    open spec fn view(&self) -> RequestView {
        match self {
            EngineRequest::Search { query } => RequestView::Search { query: query@ },
            EngineRequest::Get { id } => RequestView::Get { id: id@ },
            EngineRequest::Index { body } => RequestView::Index { body: body@ },
            EngineRequest::Update { id, doc } => RequestView::Update { id: id@, doc: doc@ },
            EngineRequest::Delete { id } => RequestView::Delete { id: id@ },
        }
    }
}

/// A document as the engine hands it out: its identifier, the collection it
/// lies in, and its body.
#[derive(Debug)]
pub struct StoredDocument {
    pub document_id: String,
    pub index: String,
    pub body: DocumentBody,
}

/// The engine's answer to a search: the time it took, in milliseconds, and
/// the matching documents in the engine's order.
#[derive(Debug)]
pub struct SearchResult {
    pub took: i32,
    pub hits: Vec<StoredDocument>,
}

/// The engine's answer to a write: the identifier of the document written or
/// removed.
#[derive(Debug)]
pub struct Acknowledgement {
    pub document_id: String,
}

/// How one engine call ended. `T` is the payload that the operation expects.
#[derive(Debug)]
pub enum EngineReply<T> {
    /// The call did not complete.
    Failed,
    /// The engine answered with `status`; `payload` is what its answer held,
    /// where that had the expected shape.
    Answered { status: u16, payload: Option<T> },
}

/// Whether a status reports success.
pub open spec fn is_success(status: u16) -> bool {
    200 <= status < 300
}

/// The status by which the engine reports that it holds no such document.
pub const STATUS_MISSING: u16 = 404;

/// The payload of a reply, or the reason why there is none.
pub open spec fn settle_spec<T>(reply: EngineReply<T>) -> Result<T, Error> {
    match reply {
        EngineReply::Failed => Err(Error::EngineUnavailable),
        EngineReply::Answered { status, payload } => {
            if status == STATUS_MISSING {
                Err(Error::NotFound)
            } else if !is_success(status) {
                Err(Error::EngineUnavailable)
            } else {
                match payload {
                    Some(value) => Ok(value),
                    None => Err(Error::DecodeFailure),
                }
            }
        },
    }
}

/// Tells a reply's payload from the ways in which a call can fail: the call
/// did not complete or the engine reported a failure, the engine holds no
/// such document, or its answer was not of the expected shape.
pub fn settle<T>(reply: EngineReply<T>) -> (result: Result<T, Error>)
    ensures
        result == settle_spec(reply),
{
    match reply {
        EngineReply::Failed => Err(Error::EngineUnavailable),
        EngineReply::Answered { status, payload } => {
            if status == STATUS_MISSING {
                Err(Error::NotFound)
            } else if status < 200 || status >= 300 {
                Err(Error::EngineUnavailable)
            } else {
                match payload {
                    Some(value) => Ok(value),
                    None => Err(Error::DecodeFailure),
                }
            }
        },
    }
}

} // verus!
