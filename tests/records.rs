use text_store::{
    create, create_outcome, create_request, create_status, read, read_outcome, read_status,
    read_text, record_from_request, record_from_row, Record, RecordId, RecordStore,
    ServiceError, StorageError,
};

const SAMPLE_ID: &str = "b3b5b6c0-1d2e-4f50-8a9b-0c1d2e3f4a5b";

fn sample(id: &str, content: &str, created_at: &str) -> Record {
    record_from_request(id, content.to_string(), created_at.to_string()).unwrap()
}

#[test]
fn post_then_get_returns_same_fields() {
    let mut store = RecordStore::new();
    let created = create_request(
        &mut store,
        SAMPLE_ID,
        "hello".to_string(),
        "2024-01-01T00:00:00Z".to_string(),
    );
    assert_eq!(create_status(&created), 201);
    let got = read_text(&store, SAMPLE_ID);
    assert_eq!(read_status(&got), 200);
    let rec = got.unwrap();
    assert_eq!(rec.id.to_text(), SAMPLE_ID);
    assert_eq!(rec.content, "hello");
    assert_eq!(rec.created_at, "2024-01-01T00:00:00Z");
}

#[test]
fn get_nil_id_without_create_is_not_found() {
    let store = RecordStore::new();
    let got = read_text(&store, "00000000-0000-0000-0000-000000000000");
    assert_eq!(got.as_ref().unwrap_err(), &ServiceError::NotFound);
    assert_eq!(read_status(&got), 404);
}

#[test]
fn post_with_malformed_id_is_bad_request() {
    let mut store = RecordStore::new();
    let r = create_request(&mut store, "not-a-uuid", "x".to_string(), "x".to_string());
    assert_eq!(r, Err(ServiceError::BadRequest));
    assert_eq!(create_status(&r), 400);
}

#[test]
fn create_then_read_round_trip() {
    let mut store = RecordStore::new();
    let rec = sample("123e4567-e89b-12d3-a456-426614174000", "some text", "yesterday");
    let id = rec.id;
    assert_eq!(create(&mut store, rec), Ok(()));
    let back = read(&store, id).unwrap();
    assert_eq!(back.id, id);
    assert_eq!(back.content, "some text");
    assert_eq!(back.created_at, "yesterday");
}

#[test]
fn read_never_created_is_not_found() {
    let mut store = RecordStore::new();
    create(&mut store, sample(SAMPLE_ID, "a", "t")).unwrap();
    let r = read(&store, RecordId { value: 42 });
    assert_eq!(r.unwrap_err(), ServiceError::NotFound);
}

#[test]
fn duplicate_create_fails_and_keeps_first() {
    let mut store = RecordStore::new();
    assert_eq!(create(&mut store, sample(SAMPLE_ID, "first", "t1")), Ok(()));
    let second = create(&mut store, sample(SAMPLE_ID, "second", "t2"));
    assert_eq!(second, Err(ServiceError::Conflict));
    assert_eq!(create_status(&second), 500);
    let kept = read_text(&store, SAMPLE_ID).unwrap();
    assert_eq!(kept.content, "first");
    assert_eq!(kept.created_at, "t1");
}

#[test]
fn read_with_malformed_id_is_bad_request_whatever_is_stored() {
    let mut store = RecordStore::new();
    let empty = read_text(&store, "zzz");
    assert_eq!(empty.as_ref().unwrap_err(), &ServiceError::BadRequest);
    assert_eq!(read_status(&empty), 400);
    create(&mut store, sample(SAMPLE_ID, "a", "t")).unwrap();
    let full = read_text(&store, "b3b5b6c0-1d2e-4f50-8a9b-0c1d2e3f4a5g");
    assert_eq!(full.unwrap_err(), ServiceError::BadRequest);
}

#[test]
fn distinct_creates_all_succeed_and_are_retrievable() {
    let mut store = RecordStore::new();
    let mut ids = Vec::new();
    for k in 0..20u128 {
        let id = RecordId { value: k * 0x0101_0101_0101_0101 + 5 };
        let rec = Record::new(id, format!("text {}", k), format!("t{}", k));
        assert_eq!(create(&mut store, rec), Ok(()));
        ids.push(id);
    }
    for (k, id) in ids.iter().enumerate() {
        let rec = read(&store, *id).unwrap();
        assert_eq!(rec.content, format!("text {}", k));
        assert_eq!(rec.created_at, format!("t{}", k));
    }
}

#[test]
fn identifier_text_is_canonical_hyphenated_lower_case() {
    let id = RecordId { value: 0xa1a2a3a4b1b2c1c2d1d2d3d4d5d6d7d8 };
    assert_eq!(id.to_text(), "a1a2a3a4-b1b2-c1c2-d1d2-d3d4d5d6d7d8");
    assert_eq!(RecordId { value: 0 }.to_text(), "00000000-0000-0000-0000-000000000000");
}

#[test]
fn identifier_parses_to_its_value() {
    let id = RecordId::parse("A1A2A3A4-B1B2-C1C2-D1D2-D3D4D5D6D7D8").unwrap();
    assert_eq!(id.value, 0xa1a2a3a4b1b2c1c2d1d2d3d4d5d6d7d8);
    let simple = RecordId::parse("a1a2a3a4b1b2c1c2d1d2d3d4d5d6d7d8").unwrap();
    assert_eq!(simple, id);
    assert_eq!(RecordId::parse("a1a2a3a4-b1b2"), None);
    let again = RecordId::parse(&id.to_text()).unwrap();
    assert_eq!(again, id);
}

#[test]
fn storage_outcomes_map_to_service_errors() {
    assert_eq!(create_outcome(Ok(())), Ok(()));
    assert_eq!(create_outcome(Err(StorageError::ConstraintViolation)), Err(ServiceError::Conflict));
    assert_eq!(create_outcome(Err(StorageError::ConnectionError)), Err(ServiceError::Internal));
    let found = read_outcome(Ok(Some(sample(SAMPLE_ID, "c", "t")))).unwrap();
    assert_eq!(found.content, "c");
    assert_eq!(read_outcome(Ok(None)).unwrap_err(), ServiceError::NotFound);
    let failed = read_outcome(Err(StorageError::ConnectionError));
    assert_eq!(failed.as_ref().unwrap_err(), &ServiceError::Internal);
    assert_eq!(read_status(&failed), 500);
    assert_eq!(create_status(&Err(ServiceError::Internal)), 500);
}

#[test]
fn stored_row_with_bad_id_is_internal() {
    let bad = record_from_row("garbage", "c".to_string(), "t".to_string());
    assert_eq!(bad.unwrap_err(), ServiceError::Internal);
    let good = record_from_row(SAMPLE_ID, "c".to_string(), "t".to_string()).unwrap();
    assert_eq!(good.id.to_text(), SAMPLE_ID);
}
