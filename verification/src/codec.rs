//! Conversion between facility records and stored documents.
//!
//! A record's identifier never enters the stored body: on the engine's side it
//! is the document's identifier, and only `decode` puts it back into a record.

use vstd::prelude::*;
use crate::error::Error;
use crate::record::{DocumentBody, Onsen, OnsenView};

verus! {

/// The body under which `record` is stored: its three text fields, each as it
/// is, whatever its identifier.
pub fn body_of(record: &Onsen) -> (body: DocumentBody)
    ensures
        body@ == record@.body(),
{
    DocumentBody {
        area: record.area.clone(),
        name: record.name.clone(),
        address: record.address.clone(),
    }
}

/// The body for a record that is to be created. A record that already has an
/// identifier is refused, since the engine alone assigns one.
pub fn encode(record: &Onsen) -> (result: Result<DocumentBody, Error>)
    ensures
        record@.id is None ==> result is Ok && result->Ok_0@ == record@.body(),
        record@.id is Some ==> result == Err::<DocumentBody, Error>(Error::InvalidInput),
{
    if record.id.is_some() {
        Err(Error::InvalidInput)
    } else {
        Ok(body_of(record))
    }
}

/// The record that a stored document stands for: the body's fields as they
/// are, under the document's identifier.
pub fn decode(document_id: &String, body: &DocumentBody) -> (record: Onsen)
    ensures
        record@ == body@.with_id(document_id@),
{
    Onsen {
        id: Some(document_id.clone()),
        area: body.area.clone(),
        name: body.name.clone(),
        address: body.address.clone(),
    }
}

/// Decoding what was encoded gives the record back, with the identifier that
/// the document was stored under and every text field unchanged.
pub proof fn law_decode_inverts_encode(record: OnsenView, document_id: Seq<char>)
    ensures
        record.body().with_id(document_id).body() == record.body(),
        record.body().with_id(document_id).id == Some(document_id),
{
}

} // verus!
