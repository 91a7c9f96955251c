//! The stored entity and the error kinds of the storage layer and the
//! record service.
use vstd::prelude::*;
use crate::ident::RecordId;

verus! {

/// A record as a mathematical value.
pub struct RecordView {
    pub id: u128,
    pub content: Seq<char>,
    pub created_at: Seq<char>,
}

/// A stored text: its identifier, its content and its creation timestamp,
/// the latter kept as given.
#[derive(Debug)]
pub struct Record {
    pub id: RecordId,
    pub content: String,
    pub created_at: String,
}

impl View for Record {
    type V = RecordView;

    open spec fn view(&self) -> RecordView {
        RecordView { id: self.id.value, content: self.content@, created_at: self.created_at@ }
    }
}

impl Record {
    pub fn new(id: RecordId, content: String, created_at: String) -> (r: Record)
        ensures
            r.id == id,
            r.content@ == content@,
            r.created_at@ == created_at@,
    {
        Record { id, content, created_at }
    }

    /// A copy of the record.
    pub fn duplicate(&self) -> (r: Record)
        ensures
            r@ == self@,
    {
        Record { id: self.id, content: self.content.clone(), created_at: self.created_at.clone() }
    }
}

/// Failures of the storage layer.
#[derive(Clone, Copy, Debug, PartialEq, Eq, Structural)]
pub enum StorageError {
    /// The identifier is already taken.
    ConstraintViolation,
    /// The storage could not be reached or failed.
    ConnectionError,
}

/// Failures of the record service, as the caller sees them.
#[derive(Clone, Copy, Debug, PartialEq, Eq, Structural)]
pub enum ServiceError {
    /// The identifier or the request body is malformed.
    BadRequest,
    /// A record with that identifier exists already.
    Conflict,
    /// No record has that identifier.
    NotFound,
    /// The storage failed.
    Internal,
}

} // verus!
