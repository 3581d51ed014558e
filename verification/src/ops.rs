//! The five resource operations.
//!
//! Each operation is one engine call. Its first half says what to ask the
//! engine, or refuses the input before anything is asked; its second half
//! turns the engine's reply into the caller's result. Between the two the
//! caller performs the call.

use vstd::prelude::*;
use crate::codec::{body_of, decode, encode};
use crate::engine::{
    settle, settle_spec, Acknowledgement, EngineReply, EngineRequest, RequestView, SearchResult,
    StoredDocument,
};
use crate::error::{yields, Error};
use crate::query::{build, build_spec};
use crate::record::{option_view, Deleted, ListView, Onsen, OnsenList, OnsenView};

verus! {

/// The greeting served at the root.
pub fn index() -> (text: &'static str)
    ensures
        text@ == "Let's try actix-web + elasticsearch!"@,
{
    "Let's try actix-web + elasticsearch!"
}

/// What a search for `term` asks of the engine.
pub open spec fn search_request(term: Option<Seq<char>>) -> RequestView {
    RequestView::Search { query: build_spec(term) }
}

/// The record that each hit of a search stands for, in the hits' order.
pub open spec fn decode_hits(hits: Seq<StoredDocument>) -> Seq<OnsenView> {
    Seq::new(hits.len(), |i: int| hits[i].body@.with_id(hits[i].document_id@))
}

/// What a search comes to, given a reply.
pub open spec fn listed(reply: EngineReply<SearchResult>) -> Result<ListView, Error> {
    match settle_spec(reply) {
        Ok(found) => Ok(ListView { took: found.took, onsens: decode_hits(found.hits@) }),
        Err(error) => Err(error),
    }
}

/// The request of a search for an optional term.
pub fn search_onsen_request(term: Option<String>) -> (request: EngineRequest)
    ensures
        request@ == search_request(option_view(term)),
{
    EngineRequest::Search { query: build(term) }
}

/// The result of a search: the engine's time and every hit decoded, in the
/// engine's order; or the reason why the reply holds no result.
pub fn search_onsen_response(reply: EngineReply<SearchResult>) -> (result: Result<
    OnsenList,
    Error,
>)
    ensures
        yields(result, listed(reply)),
{
    match settle(reply) {
        Err(error) => Err(error),
        Ok(found) => {
            let mut onsens: Vec<Onsen> = Vec::new();
            let mut i: usize = 0;
            while i < found.hits.len()
                invariant
                    i <= found.hits.len(),
                    onsens.len() == i,
                    forall|j: int|
                        0 <= j < i ==> (#[trigger] onsens[j])@ == found.hits[j].body@.with_id(
                            found.hits[j].document_id@,
                        ),
                decreases found.hits.len() - i,
            {
                let hit = &found.hits[i];
                onsens.push(decode(&hit.document_id, &hit.body));
                i = i + 1;
            }
            let list = OnsenList { took: found.took, onsens };
            assert(list@.onsens =~= decode_hits(found.hits@));
            Ok(list)
        },
    }
}

/// What fetching the facility `id` asks of the engine.
pub open spec fn get_request(id: Seq<char>) -> RequestView {
    RequestView::Get { id }
}

/// What a fetch comes to, given a reply.
pub open spec fn fetched(reply: EngineReply<StoredDocument>) -> Result<OnsenView, Error> {
    match settle_spec(reply) {
        Ok(document) => Ok(document.body@.with_id(document.document_id@)),
        Err(error) => Err(error),
    }
}

/// The request that fetches the facility with identifier `id`.
pub fn get_onsen_request(id: String) -> (request: EngineRequest)
    ensures
        request@ == get_request(id@),
{
    EngineRequest::Get { id }
}

/// The facility that the engine handed out, decoded; or the reason why the
/// reply holds none.
pub fn get_onsen_response(reply: EngineReply<StoredDocument>) -> (result: Result<Onsen, Error>)
    ensures
        yields(result, fetched(reply)),
{
    match settle(reply) {
        Err(error) => Err(error),
        Ok(document) => Ok(decode(&document.document_id, &document.body)),
    }
}

/// What the creation of `record` asks of the engine, if anything.
pub open spec fn create_request(record: OnsenView) -> Result<RequestView, Error> {
    if record.id is Some {
        Err(Error::InvalidInput)
    } else {
        Ok(RequestView::Index { body: record.body() })
    }
}

/// What the creation of `record` comes to, given a reply.
pub open spec fn created(record: OnsenView, reply: EngineReply<Acknowledgement>) -> Result<
    OnsenView,
    Error,
> {
    if record.id is Some {
        Err(Error::InvalidInput)
    } else {
        match settle_spec(reply) {
            Ok(written) => Ok(record.body().with_id(written.document_id@)),
            Err(error) => Err(error),
        }
    }
}

/// The request that stores `record` as a new facility. A record that already
/// has an identifier is refused, and nothing is asked of the engine.
pub fn create_onsen_request(record: &Onsen) -> (result: Result<EngineRequest, Error>)
    ensures
        yields(result, create_request(record@)),
{
    match encode(record) {
        Ok(body) => Ok(EngineRequest::Index { body }),
        Err(error) => Err(error),
    }
}

/// The created facility: the submitted record under the identifier that the
/// engine assigned. A record with an identifier of its own is refused here
/// as it is on the way in, whatever the reply.
pub fn create_onsen_response(record: Onsen, reply: EngineReply<Acknowledgement>) -> (result:
    Result<Onsen, Error>)
    ensures
        yields(result, created(record@, reply)),
{
    if record.id.is_some() {
        return Err(Error::InvalidInput);
    }
    match settle(reply) {
        Err(error) => Err(error),
        Ok(written) => {
            let mut onsen = record;
            onsen.id = Some(written.document_id);
            Ok(onsen)
        },
    }
}

/// Whether a record may replace the facility with identifier `id`: it names
/// no identifier, or that one.
pub open spec fn addresses(record: OnsenView, id: Seq<char>) -> bool {
    record.id is None || record.id == Some(id)
}

/// What the update of the facility `id` with `record` asks of the engine, if
/// anything.
pub open spec fn update_request(id: Seq<char>, record: OnsenView) -> Result<RequestView, Error> {
    if addresses(record, id) {
        Ok(RequestView::Update { id, doc: record.body() })
    } else {
        Err(Error::InvalidInput)
    }
}

/// What the update of the facility `id` with `record` comes to, given a reply.
pub open spec fn updated(id: Seq<char>, record: OnsenView, reply: EngineReply<()>) -> Result<
    OnsenView,
    Error,
> {
    if !addresses(record, id) {
        Err(Error::InvalidInput)
    } else {
        match settle_spec(reply) {
            Ok(_) => Ok(record.body().with_id(id)),
            Err(error) => Err(error),
        }
    }
}

/// Whether a record may replace the facility with identifier `id`.
pub fn identifier_agrees(record: &Onsen, id: &String) -> (agrees: bool)
    ensures
        agrees == addresses(record@, id@),
{
    match &record.id {
        None => true,
        Some(own) => *own == *id,
    }
}

/// The request that merges `record` into the facility with identifier `id`.
/// A record that names another identifier is refused, and nothing is asked of
/// the engine.
pub fn update_onsen_request(id: &String, record: &Onsen) -> (result: Result<EngineRequest, Error>)
    ensures
        yields(result, update_request(id@, record@)),
{
    if identifier_agrees(record, id) {
        Ok(EngineRequest::Update { id: id.clone(), doc: body_of(record) })
    } else {
        Err(Error::InvalidInput)
    }
}

/// The updated facility: the submitted record under the addressed identifier,
/// as it was submitted and not as the engine now holds it. A record that
/// names another identifier is refused here as it is on the way in.
pub fn update_onsen_response(id: String, record: Onsen, reply: EngineReply<()>) -> (result:
    Result<Onsen, Error>)
    ensures
        yields(result, updated(id@, record@, reply)),
{
    if !identifier_agrees(&record, &id) {
        return Err(Error::InvalidInput);
    }
    match settle(reply) {
        Err(error) => Err(error),
        Ok(_) => {
            let mut onsen = record;
            onsen.id = Some(id);
            Ok(onsen)
        },
    }
}

/// What removing the facility `id` asks of the engine.
pub open spec fn delete_request(id: Seq<char>) -> RequestView {
    RequestView::Delete { id }
}

/// What a removal comes to, given a reply.
pub open spec fn removed(reply: EngineReply<Acknowledgement>) -> Result<Seq<char>, Error> {
    match settle_spec(reply) {
        Ok(gone) => Ok(gone.document_id@),
        Err(error) => Err(error),
    }
}

/// The request that removes the facility with identifier `id`.
pub fn delete_onsen_request(id: String) -> (request: EngineRequest)
    ensures
        request@ == delete_request(id@),
{
    EngineRequest::Delete { id }
}

/// The identifier of the removed facility, as the engine names it; or the
/// reason why nothing was removed.
pub fn delete_onsen_response(reply: EngineReply<Acknowledgement>) -> (result: Result<
    Deleted,
    Error,
>)
    ensures
        yields(result, removed(reply)),
{
    match settle(reply) {
        Err(error) => Err(error),
        Ok(gone) => Ok(Deleted { id: gone.document_id }),
    }
}

} // verus!
