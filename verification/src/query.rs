//! From an optional search term to the query that the engine is asked.

use vstd::prelude::*;
use crate::record::option_view;

verus! {

/// A text field of the stored document that a search term is matched against.
#[derive(Clone, Copy, Debug, PartialEq, Eq, Structural)]
pub enum TextField {
    Name,
    Address,
}

impl TextField {
    /// The field's key in the stored document.
    pub open spec fn key(self) -> Seq<char> {
        match self {
            TextField::Name => "name"@,
            TextField::Address => "address"@,
        }
    }

    /// The field's key in the stored document.
    pub fn as_str(self) -> (key: &'static str)
        ensures
            key@ == self.key(),
    {
        match self {
            TextField::Name => "name",
            TextField::Address => "address",
        }
    }
}

/// A query as the engine is asked it.
#[derive(Debug)]
pub enum Query {
    /// Every document of the collection matches.
    MatchAll,
    /// Documents are scored by the occurrence of `query` in any of `fields`.
    MultiMatch { query: String, fields: Vec<TextField> },
}

/// Mathematical value of a query.
pub enum QueryView {
    MatchAll,
    MultiMatch { query: Seq<char>, fields: Seq<TextField> },
}

impl View for Query {
    type V = QueryView;

    open spec fn view(&self) -> QueryView {
        match self {
            Query::MatchAll => QueryView::MatchAll,
            Query::MultiMatch { query, fields } => QueryView::MultiMatch {
                query: query@,
                fields: fields@,
            },
        }
    }
}

/// The fields that a search term is matched against, in the order in which
/// they are named to the engine.
pub open spec fn searched_fields() -> Seq<TextField> {
    seq![TextField::Name, TextField::Address]
}

/// The query that stands for an optional search term.
pub open spec fn build_spec(term: Option<Seq<char>>) -> QueryView {
    match term {
        Some(text) if text.len() > 0 => QueryView::MultiMatch {
            query: text,
            fields: searched_fields(),
        },
        _ => QueryView::MatchAll,
    }
}

/// Builds the query for an optional search term. No term, or the empty one,
/// asks for the whole collection; any other term is handed to the engine as it
/// is, to be matched against name and address.
pub fn build(term: Option<String>) -> (query: Query)
    ensures
        query@ == build_spec(option_view(term)),
{
    match term {
        None => Query::MatchAll,
        Some(text) => {
            if text.as_str().is_empty() {
                Query::MatchAll
            } else {
                let mut fields: Vec<TextField> = Vec::new();
                fields.push(TextField::Name);
                fields.push(TextField::Address);
                assert(fields@ =~= searched_fields());
                Query::MultiMatch { query: text, fields }
            }
        },
    }
}

} // verus!
