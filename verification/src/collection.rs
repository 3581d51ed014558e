//! The engine's side of the exchange, as a mathematical model, and what the
//! operations guarantee against it.
//!
//! The engine is the only place where facilities are kept. Its contract is
//! written here as a relation between the collection before a request, the
//! request, the reply, and the collection after it. The laws below hold of
//! every engine that answers by this contract.

use vstd::prelude::*;
use crate::engine::{
    is_success, Acknowledgement, EngineReply, RequestView, SearchResult, StoredDocument,
    STATUS_MISSING,
};
use crate::error::Error;
use crate::ops::{
    addresses, create_request, created, delete_request, fetched, get_request, listed, removed,
    search_request, update_request, updated,
};
use crate::query::{QueryView, TextField};
use crate::record::{BodyView, OnsenView};

verus! {

/// The stored documents: each body under its identifier.
pub struct Collection {
    pub documents: Map<Seq<char>, BodyView>,
}

impl Collection {
    /// Whether the collection is one that an engine can hold: it stores
    /// finitely many documents.
    pub open spec fn well_formed(self) -> bool {
        self.documents.dom().finite()
    }

    /// Whether a document is stored under `id`.
    pub open spec fn holds(self, id: Seq<char>) -> bool {
        self.documents.dom().contains(id)
    }

    /// The facility stored under `id`, as a record.
    pub open spec fn record(self, id: Seq<char>) -> OnsenView {
        self.documents[id].with_id(id)
    }

    /// The number of stored documents.
    pub open spec fn count(self) -> nat {
        self.documents.dom().len()
    }
}

/// A reply, together with the kind of payload that it carries.
pub enum Reply {
    Found(EngineReply<SearchResult>),
    Document(EngineReply<StoredDocument>),
    Written(EngineReply<Acknowledgement>),
    Merged(EngineReply<()>),
}

/// Whether `term` stands in `text` from position `at` on.
pub open spec fn occurs_at(term: Seq<char>, text: Seq<char>, at: int) -> bool {
    &&& 0 <= at
    &&& at + term.len() <= text.len()
    &&& text.subrange(at, at + term.len()) == term
}

/// Whether `term` is a substring of `text`.
pub open spec fn occurs_in(term: Seq<char>, text: Seq<char>) -> bool {
    exists|at: int| occurs_at(term, text, at)
}

/// The text that a body holds in `field`.
pub open spec fn field_text(body: BodyView, field: TextField) -> Seq<char> {
    match field {
        TextField::Name => body.name,
        TextField::Address => body.address,
    }
}

/// Whether the engine owes a document with body `body` to `query`: always for
/// a query that matches all, and for a term that is a substring of one of the
/// queried fields. The engine may find more than it owes.
pub open spec fn owed(query: QueryView, body: BodyView) -> bool {
    match query {
        QueryView::MatchAll => true,
        QueryView::MultiMatch { query, fields } => exists|k: int|
            0 <= k < fields.len() && occurs_in(query, field_text(body, #[trigger] fields[k])),
    }
}

/// The identifiers of a search's hits, in the hits' order.
pub open spec fn hit_ids(hits: Seq<StoredDocument>) -> Seq<Seq<char>> {
    Seq::new(hits.len(), |i: int| hits[i].document_id@)
}

/// Whether `hits` answers `query` on `documents`: every hit is a stored
/// document, none comes twice, and every document owed to the query is there.
pub open spec fn hits_answer(
    documents: Map<Seq<char>, BodyView>,
    query: QueryView,
    hits: Seq<StoredDocument>,
) -> bool {
    &&& hit_ids(hits).no_duplicates()
    &&& forall|i: int|
        0 <= i < hits.len() ==> documents.dom().contains((#[trigger] hits[i]).document_id@)
            && documents[hits[i].document_id@] == hits[i].body@
    &&& forall|id: Seq<char>|
        #[trigger] documents.dom().contains(id) && owed(query, documents[id]) ==> hit_ids(
            hits,
        ).contains(id)
}

/// Whether `reply` reports success with a payload.
pub open spec fn succeeded<T>(reply: EngineReply<T>) -> bool {
    reply matches EngineReply::Answered { status, payload } && is_success(status) && status
        != STATUS_MISSING && payload is Some
}

/// Whether `reply` reports that the engine holds no such document.
pub open spec fn missing<T>(reply: EngineReply<T>) -> bool {
    reply matches EngineReply::Answered { status, .. } && status == STATUS_MISSING
}

/// The payload of a reply that has one.
pub open spec fn payload_of<T>(reply: EngineReply<T>) -> T {
    reply->payload->0
}

/// The engine's contract: whether an engine that holds `before` may answer
/// `request` with `reply` and hold `after` from then on.
///
/// A search or a fetch changes nothing. A new document is stored under an
/// identifier that was free. A merge or a removal of a stored document
/// succeeds, and one of a document that is not stored is reported as missing
/// and changes nothing. Every body carries all three text fields, so a
/// merge leaves none of the old ones.
pub open spec fn engine_answers(
    before: Collection,
    request: RequestView,
    reply: Reply,
    after: Collection,
) -> bool {
    match request {
        RequestView::Search { query } => {
            &&& reply matches Reply::Found(found)
            &&& succeeded(found)
            &&& hits_answer(before.documents, query, payload_of(found).hits@)
            &&& after == before
        },
        RequestView::Get { id } => {
            &&& reply matches Reply::Document(document)
            &&& after == before
            &&& if before.holds(id) {
                &&& succeeded(document)
                &&& payload_of(document).document_id@ == id
                &&& payload_of(document).body@ == before.documents[id]
            } else {
                missing(document)
            }
        },
        RequestView::Index { body } => {
            &&& reply matches Reply::Written(written)
            &&& succeeded(written)
            &&& !before.holds(payload_of(written).document_id@)
            &&& after.documents == before.documents.insert(
                payload_of(written).document_id@,
                body,
            )
        },
        RequestView::Update { id, doc } => {
            &&& reply matches Reply::Merged(merged)
            &&& if before.holds(id) {
                &&& succeeded(merged)
                &&& after.documents == before.documents.insert(id, doc)
            } else {
                &&& missing(merged)
                &&& after == before
            }
        },
        RequestView::Delete { id } => {
            &&& reply matches Reply::Written(gone)
            &&& if before.holds(id) {
                &&& succeeded(gone)
                &&& payload_of(gone).document_id@ == id
                &&& after.documents == before.documents.remove(id)
            } else {
                &&& missing(gone)
                &&& after == before
            }
        },
    }
}

/// Whatever is asked and answered, a collection of finitely many documents
/// stays one.
pub proof fn law_engine_keeps_well_formed(
    before: Collection,
    request: RequestView,
    reply: Reply,
    after: Collection,
)
    requires
        before.well_formed(),
        engine_answers(before, request, reply, after),
    ensures
        after.well_formed(),
{
}

/// A facility that was created can be fetched under the identifier that its
/// creation returned, and the fetch gives back the submitted text fields.
pub proof fn law_create_then_get(
    record: OnsenView,
    before: Collection,
    written: EngineReply<Acknowledgement>,
    between: Collection,
    document: EngineReply<StoredDocument>,
    after: Collection,
)
    requires
        record.id is None,
        engine_answers(before, create_request(record)->Ok_0, Reply::Written(written), between),
        engine_answers(
            between,
            get_request(created(record, written)->Ok_0.id->0),
            Reply::Document(document),
            after,
        ),
    ensures
        create_request(record) is Ok,
        created(record, written) is Ok,
        created(record, written)->Ok_0.id is Some,
        created(record, written)->Ok_0.body() == record.body(),
        !before.holds(created(record, written)->Ok_0.id->0),
        fetched(document) == created(record, written),
        fetched(document)->Ok_0.body() == record.body(),
{
}

/// A record that carries an identifier is never created: the creation fails
/// as invalid input before anything is asked of the engine, and whatever a
/// reply may hold.
pub proof fn law_create_refuses_identifier(record: OnsenView, reply: EngineReply<Acknowledgement>)
    requires
        record.id is Some,
    ensures
        create_request(record) == Err::<RequestView, Error>(Error::InvalidInput),
        created(record, reply) == Err::<OnsenView, Error>(Error::InvalidInput),
{
}

/// A record that names another identifier than the addressed one is never
/// merged: the update fails as invalid input before anything is asked of the
/// engine, and whatever a reply may hold.
pub proof fn law_update_refuses_mismatch(id: Seq<char>, record: OnsenView, reply: EngineReply<()>)
    requires
        record.id is Some,
        record.id != Some(id),
    ensures
        update_request(id, record) == Err::<RequestView, Error>(Error::InvalidInput),
        updated(id, record, reply) == Err::<OnsenView, Error>(Error::InvalidInput),
{
}

/// An update of a stored facility with a record that names no identifier, or
/// the addressed one, succeeds and echoes the record under that identifier;
/// a fetch that follows gives the same record, with every submitted text
/// field, and no other document has changed.
pub proof fn law_update_then_get(
    id: Seq<char>,
    record: OnsenView,
    before: Collection,
    merged: EngineReply<()>,
    between: Collection,
    document: EngineReply<StoredDocument>,
    after: Collection,
)
    requires
        record.id is None || record.id == Some(id),
        before.holds(id),
        engine_answers(before, update_request(id, record)->Ok_0, Reply::Merged(merged), between),
        engine_answers(between, get_request(id), Reply::Document(document), after),
    ensures
        update_request(id, record) is Ok,
        updated(id, record, merged) == Ok::<OnsenView, Error>(record.body().with_id(id)),
        fetched(document) == updated(id, record, merged),
        fetched(document)->Ok_0.body() == record.body(),
        forall|other: Seq<char>|
            other != id ==> after.holds(other) == before.holds(other) && (before.holds(other)
                ==> after.documents[other] == before.documents[other]),
{
}

/// After a removal, a fetch of the same identifier reports that nothing is
/// found, whether or not a document was stored under it.
pub proof fn law_delete_then_get(
    id: Seq<char>,
    before: Collection,
    gone: EngineReply<Acknowledgement>,
    between: Collection,
    document: EngineReply<StoredDocument>,
    after: Collection,
)
    requires
        engine_answers(before, delete_request(id), Reply::Written(gone), between),
        engine_answers(between, get_request(id), Reply::Document(document), after),
    ensures
        before.holds(id) ==> removed(gone) == Ok::<Seq<char>, Error>(id),
        !before.holds(id) ==> removed(gone) == Err::<Seq<char>, Error>(Error::NotFound),
        !between.holds(id),
        fetched(document) == Err::<OnsenView, Error>(Error::NotFound),
{
}

/// A search without a term, or with the empty one, lists every stored
/// facility once: as many records as the collection holds documents, and
/// each stored facility among them.
pub proof fn law_search_lists_all(
    term: Option<Seq<char>>,
    before: Collection,
    found: EngineReply<SearchResult>,
    after: Collection,
)
    requires
        term is None || term == Some(Seq::<char>::empty()),
        before.well_formed(),
        engine_answers(before, search_request(term), Reply::Found(found), after),
    ensures
        listed(found) is Ok,
        listed(found)->Ok_0.onsens.len() == before.count(),
        forall|id: Seq<char>|
            before.holds(id) ==> listed(found)->Ok_0.onsens.contains(#[trigger] before.record(id)),
        forall|i: int|
            0 <= i < listed(found)->Ok_0.onsens.len() ==> {
                let hit = #[trigger] listed(found)->Ok_0.onsens[i];
                hit.id is Some && before.holds(hit.id->0) && hit == before.record(hit.id->0)
            },
        after == before,
{
    let hits = payload_of(found).hits@;
    let ids = hit_ids(hits);
    let records = listed(found)->Ok_0.onsens;
    assert(records.len() == hits.len());
    assert forall|id: Seq<char>| before.holds(id) implies records.contains(
        #[trigger] before.record(id),
    ) by {
        assert(ids.contains(id));
        let i = choose|i: int| 0 <= i < ids.len() && ids[i] == id;
        assert(hits[i].document_id@ == id);
        assert(records[i] == before.record(id));
    }
    assert(ids.to_set() =~= before.documents.dom()) by {
        assert forall|id: Seq<char>| ids.to_set().contains(id) implies before.holds(id) by {
            let i = choose|i: int| 0 <= i < ids.len() && ids[i] == id;
            assert(hits[i].document_id@ == id);
        }
    }
    ids.unique_seq_to_set();
}

/// A search for a term lists every stored facility whose name or address has
/// the term as a substring.
pub proof fn law_search_finds_substring(
    term: Seq<char>,
    id: Seq<char>,
    before: Collection,
    found: EngineReply<SearchResult>,
    after: Collection,
)
    requires
        before.holds(id),
        occurs_in(term, before.documents[id].name) || occurs_in(term, before.documents[id].address),
        engine_answers(before, search_request(Some(term)), Reply::Found(found), after),
    ensures
        listed(found) is Ok,
        listed(found)->Ok_0.onsens.contains(before.record(id)),
        after == before,
{
    let hits = payload_of(found).hits@;
    let ids = hit_ids(hits);
    let records = listed(found)->Ok_0.onsens;
    let query = search_request(Some(term))->Search_query;
    assert(owed(query, before.documents[id])) by {
        if let QueryView::MultiMatch { query: text, fields } = query {
            assert(text == term);
            if occurs_in(term, before.documents[id].name) {
                assert(field_text(before.documents[id], fields[0]) == before.documents[id].name);
            } else {
                assert(field_text(before.documents[id], fields[1])
                    == before.documents[id].address);
            }
        }
    }
    assert(ids.contains(id));
    let i = choose|i: int| 0 <= i < ids.len() && ids[i] == id;
    assert(hits[i].document_id@ == id);
    assert(records[i] == before.record(id));
}

} // verus!
