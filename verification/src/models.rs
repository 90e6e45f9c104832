//! The records the service stores and returns.

use vstd::prelude::*;

verus! {

/// One financial institution: its row id, its bank code and its name.
#[derive(Debug, Clone, PartialEq, Eq)]
pub struct Bank {
    pub id: i64,
    pub code: String,
    pub name: String,
}

/// A bank as a mathematical value.
pub struct BankView {
    pub id: i64,
    pub code: Seq<char>,
    pub name: Seq<char>,
}

impl View for Bank {
    type V = BankView;

    open spec fn view(&self) -> BankView {
        BankView { id: self.id, code: self.code@, name: self.name@ }
    }
}

/// The answer to a search: at most one page of matches, and how many
/// records match in all.
#[derive(Debug, Clone, PartialEq, Eq)]
pub struct SearchResponse {
    pub results: Vec<Bank>,
    pub total: usize,
}

/// A search response as a mathematical value.
pub struct SearchResponseView {
    pub results: Seq<BankView>,
    pub total: usize,
}

impl View for SearchResponse {
    type V = SearchResponseView;

    open spec fn view(&self) -> SearchResponseView {
        SearchResponseView { results: self.results@.map_values(|b: Bank| b@), total: self.total }
    }
}

/// The new code and name of a bank that is being edited.
#[derive(Debug, Clone, PartialEq, Eq)]
pub struct BankUpdate {
    pub code: String,
    pub name: String,
}

/// One entry of the access log.
#[derive(Debug, Clone, PartialEq, Eq)]
pub struct AccessLog {
    pub id: i64,
    pub ip: String,
    pub action: String,
    pub accessed_at: String,
}

} // verus!
