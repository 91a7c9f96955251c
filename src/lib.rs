//! A small text-storage service: records with a 128-bit identifier, a text
//! content and an opaque timestamp, created once and read back by identifier.
mod ident;

pub use ident::{RecordId, hex_digits, hex_char, hyphenated_of, uuid_length_ok, uuid_parse_of};
mod record;
mod store;

pub use record::{Record, RecordView, ServiceError, StorageError};
pub use store::{RecordStore, insert_spec, lookup_spec, table_of};
mod service;
mod laws;

pub use service::{
    create, create_error_of, create_outcome, create_request, create_result_of, create_spec,
    create_status, create_status_spec, read, read_outcome, read_result_of, read_spec,
    read_status, read_status_spec, read_text, read_text_spec, record_from_request,
    record_from_row,
};
pub use laws::{
    create_all, lemma_create_then_read, lemma_distinct_creates, lemma_duplicate_create,
    lemma_malformed_id, lemma_read_absent,
};
