//! The facility record, as callers see it, and the document body, as the
//! engine stores it.

use vstd::prelude::*;

verus! {

/// A facility as a resource: the three text fields, and the identifier where
/// the record has one.
#[derive(Debug)]
pub struct Onsen {
    pub id: Option<String>,
    pub area: String,
    pub name: String,
    pub address: String,
}

/// What the engine stores of a facility: the text fields without identifier.
/// The identifier travels beside the body, in the engine's own slot.
#[derive(Debug)]
pub struct DocumentBody {
    pub area: String,
    pub name: String,
    pub address: String,
}

/// The answer to a search: the time the engine took, in milliseconds, and the
/// facilities found, in the engine's order.
#[derive(Debug)]
pub struct OnsenList {
    pub took: i32,
    pub onsens: Vec<Onsen>,
}

/// The answer to a removal: the identifier of what was removed.
#[derive(Debug)]
pub struct Deleted {
    pub id: String,
}

/// Mathematical value of a document body.
pub struct BodyView {
    pub area: Seq<char>,
    pub name: Seq<char>,
    pub address: Seq<char>,
}

/// Mathematical value of a facility record.
pub struct OnsenView {
    pub id: Option<Seq<char>>,
    pub area: Seq<char>,
    pub name: Seq<char>,
    pub address: Seq<char>,
}

impl OnsenView {
    /// The record's text fields, without its identifier.
    pub open spec fn body(self) -> BodyView {
        BodyView { area: self.area, name: self.name, address: self.address }
    }
}

impl BodyView {
    /// The record made of this body under identifier `id`.
    pub open spec fn with_id(self, id: Seq<char>) -> OnsenView {
        OnsenView { id: Some(id), area: self.area, name: self.name, address: self.address }
    }
}

/// The values of a sequence of records, one for one.
pub open spec fn records_view(records: Seq<Onsen>) -> Seq<OnsenView> {
    Seq::new(records.len(), |i: int| records[i]@)
}

/// Mathematical value of the answer to a search.
pub struct ListView {
    pub took: i32,
    pub onsens: Seq<OnsenView>,
}

impl View for OnsenList {
    type V = ListView;

    open spec fn view(&self) -> ListView {
        ListView { took: self.took, onsens: records_view(self.onsens@) }
    }
}

impl View for Deleted {
    type V = Seq<char>;

    open spec fn view(&self) -> Seq<char> {
        self.id@
    }
}

/// View of an optional string.
pub open spec fn option_view(s: Option<String>) -> Option<Seq<char>> {
    match s {
        Some(t) => Some(t@),
        None => None,
    }
}

impl View for DocumentBody {
    type V = BodyView;

    open spec fn view(&self) -> BodyView {
        BodyView { area: self.area@, name: self.name@, address: self.address@ }
    }
}

impl View for Onsen {
    type V = OnsenView;

    open spec fn view(&self) -> OnsenView {
        OnsenView {
            id: option_view(self.id),
            area: self.area@,
            name: self.name@,
            address: self.address@,
        }
    }
}

impl Clone for DocumentBody {
    fn clone(&self) -> (copy: Self)
        ensures
            copy@ == self@,
    {
        DocumentBody {
            area: self.area.clone(),
            name: self.name.clone(),
            address: self.address.clone(),
        }
    }
}

impl Clone for Onsen {
    fn clone(&self) -> (copy: Self)
        ensures
            copy@ == self@,
    {
        let id = match &self.id {
            Some(t) => Some(t.clone()),
            None => None,
        };
        Onsen {
            id,
            area: self.area.clone(),
            name: self.name.clone(),
            address: self.address.clone(),
        }
    }
}

} // verus!
