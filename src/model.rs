use vstd::prelude::*;

verus! {

/// One credential record. Every field is free text and may be empty.
#[derive(Debug, Clone, PartialEq)]
pub struct Entry {
    pub title: String,
    pub username: String,
    pub password_hash: String,
    pub url: String,
    pub notes: String,
    pub folder: String,
}

/// An ordered collection of credential records.
#[derive(Debug, Clone, PartialEq)]
pub struct Vault {
    pub entries: Vec<Entry>,
}

} // verus!
