//! The record service: it forwards create and read to the storage layer and
//! turns storage outcomes into service errors, and the HTTP status that each
//! outcome is answered with.
use vstd::prelude::*;
use crate::ident::{RecordId, uuid_length_ok, uuid_parse_of};
use crate::record::{Record, RecordView, ServiceError, StorageError};
use crate::store::{RecordStore, insert_spec, lookup_spec};

verus! {

/// The service error for a failed insert.
pub open spec fn create_error_of(e: StorageError) -> ServiceError {
    match e {
        StorageError::ConstraintViolation => ServiceError::Conflict,
        StorageError::ConnectionError => ServiceError::Internal,
    }
}

/// What `create` answers for the outcome of an insert.
pub open spec fn create_result_of(r: Result<(), StorageError>) -> Result<(), ServiceError> {
    match r {
        Ok(()) => Ok(()),
        Err(e) => Err(create_error_of(e)),
    }
}

/// What `read` answers for the outcome of a lookup.
pub open spec fn read_result_of(r: Result<Option<RecordView>, StorageError>) -> Result<RecordView, ServiceError> {
    match r {
        Ok(Some(v)) => Ok(v),
        Ok(None) => Err(ServiceError::NotFound),
        Err(_) => Err(ServiceError::Internal),
    }
}

/// Creating a record in a table: the new table and the answer.
pub open spec fn create_spec(t: Map<u128, RecordView>, r: RecordView) -> (Map<u128, RecordView>, Result<(), ServiceError>) {
    (insert_spec(t, r).0, create_result_of(insert_spec(t, r).1))
}

/// Reading a record from a table.
pub open spec fn read_spec(t: Map<u128, RecordView>, id: u128) -> Result<RecordView, ServiceError> {
    read_result_of(Ok(lookup_spec(t, id)))
}

/// Reading a record by the text of its identifier: a text that is no
/// identifier is a bad request, whatever the table holds.
pub open spec fn read_text_spec(t: Map<u128, RecordView>, s: Seq<char>) -> Result<RecordView, ServiceError> {
    match uuid_parse_of(s) {
        Some(v) => read_spec(t, v),
        None => Err(ServiceError::BadRequest),
    }
}

/// The HTTP status that answers a create.
pub open spec fn create_status_spec(r: Result<(), ServiceError>) -> u16 {
    match r {
        Ok(()) => 201,
        Err(ServiceError::BadRequest) => 400,
        Err(_) => 500,
    }
}

/// The HTTP status that answers a read.
pub open spec fn read_status_spec(r: Result<RecordView, ServiceError>) -> u16 {
    match r {
        Ok(_) => 200,
        Err(ServiceError::BadRequest) => 400,
        Err(ServiceError::NotFound) => 404,
        Err(_) => 500,
    }
}

/// Turns the outcome of an insert into the answer of `create`: a taken
/// identifier is a conflict, any other storage failure is internal.
pub fn create_outcome(r: Result<(), StorageError>) -> (s: Result<(), ServiceError>)
    ensures
        s == create_result_of(r),
{
    match r {
        Ok(()) => Ok(()),
        Err(StorageError::ConstraintViolation) => Err(ServiceError::Conflict),
        Err(StorageError::ConnectionError) => Err(ServiceError::Internal),
    }
}

/// Turns the outcome of a lookup into the answer of `read`: an absent record
/// is not found, a storage failure is internal.
pub fn read_outcome(r: Result<Option<Record>, StorageError>) -> (s: Result<Record, ServiceError>)
    ensures
        match r {
            Ok(Some(rec)) => s matches Ok(v) && v@ == rec@,
            Ok(None) => s == Err::<Record, ServiceError>(ServiceError::NotFound),
            Err(_) => s == Err::<Record, ServiceError>(ServiceError::Internal),
        },
{
    match r {
        Ok(Some(rec)) => Ok(rec),
        Ok(None) => Err(ServiceError::NotFound),
        Err(_) => Err(ServiceError::Internal),
    }
}

/// Builds a record from the fields of a create request; a malformed
/// identifier makes the request a bad one.
pub fn record_from_request(id: &str, content: String, created_at: String) -> (r: Result<Record, ServiceError>)
    ensures
        match uuid_parse_of(id@) {
            Some(v) => r matches Ok(rec) && rec@ == (RecordView { id: v, content: content@, created_at: created_at@ }),
            None => r == Err::<Record, ServiceError>(ServiceError::BadRequest),
        },
        !uuid_length_ok(id@) ==> r matches Err(ServiceError::BadRequest),
{
    match RecordId::parse(id) {
        Some(rid) => Ok(Record::new(rid, content, created_at)),
        None => Err(ServiceError::BadRequest),
    }
}

/// Builds a record from a stored row. A row whose identifier does not parse
/// was not written by this service: that is a storage failure.
pub fn record_from_row(id: &str, content: String, created_at: String) -> (r: Result<Record, ServiceError>)
    ensures
        match uuid_parse_of(id@) {
            Some(v) => r matches Ok(rec) && rec@ == (RecordView { id: v, content: content@, created_at: created_at@ }),
            None => r == Err::<Record, ServiceError>(ServiceError::Internal),
        },
{
    match RecordId::parse(id) {
        Some(rid) => Ok(Record::new(rid, content, created_at)),
        None => Err(ServiceError::Internal),
    }
}

/// Stores a new record.
pub fn create(store: &mut RecordStore, rec: Record) -> (r: Result<(), ServiceError>)
    requires
        old(store).wf(),
    ensures
        final(store).wf(),
        (final(store).table(), r) == create_spec(old(store).table(), rec@),
{
    let res = store.insert(rec);
    create_outcome(res)
}

/// Reads the record with the given identifier.
pub fn read(store: &RecordStore, id: RecordId) -> (r: Result<Record, ServiceError>)
    requires
        store.wf(),
    ensures
        match r {
            Ok(rec) => read_spec(store.table(), id.value) == Ok::<RecordView, ServiceError>(rec@),
            Err(e) => read_spec(store.table(), id.value) == Err::<RecordView, ServiceError>(e),
        },
{
    let found = store.lookup(id);
    read_outcome(Ok(found))
}

/// Reads the record whose identifier has the given text.
pub fn read_text(store: &RecordStore, id: &str) -> (r: Result<Record, ServiceError>)
    requires
        store.wf(),
    ensures
        match r {
            Ok(rec) => read_text_spec(store.table(), id@) == Ok::<RecordView, ServiceError>(rec@),
            Err(e) => read_text_spec(store.table(), id@) == Err::<RecordView, ServiceError>(e),
        },
        !uuid_length_ok(id@) ==> r matches Err(ServiceError::BadRequest),
{
    match RecordId::parse(id) {
        Some(rid) => read(store, rid),
        None => Err(ServiceError::BadRequest),
    }
}

/// Stores a new record given as the fields of a create request.
pub fn create_request(store: &mut RecordStore, id: &str, content: String, created_at: String) -> (r: Result<(), ServiceError>)
    requires
        old(store).wf(),
    ensures
        final(store).wf(),
        match uuid_parse_of(id@) {
            Some(v) => (final(store).table(), r) == create_spec(
                old(store).table(),
                RecordView { id: v, content: content@, created_at: created_at@ },
            ),
            None => r == Err::<(), ServiceError>(ServiceError::BadRequest) && final(store).table() == old(store).table(),
        },
        !uuid_length_ok(id@) ==> r == Err::<(), ServiceError>(ServiceError::BadRequest),
{
    match record_from_request(id, content, created_at) {
        Ok(rec) => create(store, rec),
        Err(e) => Err(e),
    }
}

/// The HTTP status that answers a create.
pub fn create_status(r: &Result<(), ServiceError>) -> (s: u16)
    ensures
        s == create_status_spec(*r),
{
    match r {
        Ok(()) => 201,
        Err(ServiceError::BadRequest) => 400,
        Err(_) => 500,
    }
}

/// The HTTP status that answers a read.
pub fn read_status(r: &Result<Record, ServiceError>) -> (s: u16)
    ensures
        s == match r {
            Ok(rec) => read_status_spec(Ok(rec@)),
            Err(e) => read_status_spec(Err(*e)),
        },
{
    match r {
        Ok(_) => 200,
        Err(ServiceError::BadRequest) => 400,
        Err(ServiceError::NotFound) => 404,
        Err(_) => 500,
    }
}

} // verus!
