//! What the collection is provisioned with before the first request.

use vstd::prelude::*;
use crate::engine::{collection, collection_spec};
use crate::query::{searched_fields, TextField};

verus! {

/// How the engine is to index one field of the stored document.
#[derive(Clone, Copy, Debug)]
pub struct FieldMapping {
    pub field: TextField,
    pub kind: &'static str,
    pub analyzer: &'static str,
}

/// The collection to create, with the mapping of each analysed field.
#[derive(Debug)]
pub struct IndexSetup {
    pub index: &'static str,
    pub mappings: Vec<FieldMapping>,
}

/// Whether `mapping` has `field` analysed as Japanese text.
pub open spec fn analysed_as_text(mapping: FieldMapping, field: TextField) -> bool {
    &&& mapping.field == field
    &&& mapping.kind@ == "text"@
    &&& mapping.analyzer@ == "kuromoji"@
}

/// The mapping that has `field` analysed as Japanese text.
pub fn text_mapping(field: TextField) -> (mapping: FieldMapping)
    ensures
        analysed_as_text(mapping, field),
{
    FieldMapping { field, kind: "text", analyzer: "kuromoji" }
}

/// The provisioning of the collection: it is created under its name, and
/// exactly the fields that a search term is matched against are analysed as
/// Japanese text, in the order in which a query names them.
pub fn setup_index() -> (setup: IndexSetup)
    ensures
        setup.index@ == collection_spec(),
        setup.mappings@.len() == searched_fields().len(),
        forall|k: int|
            0 <= k < searched_fields().len() ==> analysed_as_text(
                #[trigger] setup.mappings@[k],
                searched_fields()[k],
            ),
{
    let mut mappings: Vec<FieldMapping> = Vec::new();
    mappings.push(text_mapping(TextField::Name));
    mappings.push(text_mapping(TextField::Address));
    IndexSetup { index: collection(), mappings }
}

} // verus!
