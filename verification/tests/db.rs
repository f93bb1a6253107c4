use router::db::{get_and_deserialize_key, RedisError, StorageImpl};

fn parse_number(bytes: Vec<u8>) -> Option<u32> {
    serde_json::from_slice::<u32>(&bytes).ok()
}

#[test]
fn fetched_bytes_are_parsed() {
    assert_eq!(get_and_deserialize_key(Ok(b"42".to_vec()), parse_number), Ok(42));
}

#[test]
fn fetched_text_is_parsed() {
    let parsed = get_and_deserialize_key(Ok(b"\"pay_1\"".to_vec()), |bytes: Vec<u8>| {
        serde_json::from_slice::<String>(&bytes).ok()
    });
    assert_eq!(parsed, Ok("pay_1".to_string()));
}

#[test]
fn bytes_of_another_type_fail_as_a_deserialization() {
    assert_eq!(
        get_and_deserialize_key(Ok(b"\"forty-two\"".to_vec()), parse_number),
        Err(RedisError::JsonDeserializationFailed)
    );
    assert_eq!(
        get_and_deserialize_key(Ok(Vec::new()), parse_number),
        Err(RedisError::JsonDeserializationFailed)
    );
}

#[test]
fn a_failed_fetch_stays_the_failure_it_was() {
    assert_eq!(get_and_deserialize_key(Err(RedisError::NotFound), parse_number), Err(RedisError::NotFound));
    assert_eq!(get_and_deserialize_key(Err(RedisError::GetFailed), parse_number), Err(RedisError::GetFailed));
}

#[test]
fn a_missing_key_is_not_a_deserialization_failure() {
    assert_ne!(
        get_and_deserialize_key(Err(RedisError::NotFound), parse_number),
        Err(RedisError::JsonDeserializationFailed)
    );
}

#[test]
fn the_backends_are_distinct() {
    assert!(StorageImpl::Mock == StorageImpl::Mock);
    assert!(StorageImpl::Postgresql != StorageImpl::PostgresqlTest);
    assert!(StorageImpl::Postgresql != StorageImpl::Mock);
}
