//! What the switch asks of its storage: which backend stands behind the
//! interface, and what a cached value comes to once it has been fetched.

use vstd::prelude::*;

verus! {

/// The backends that can stand behind the storage interface.
#[derive(Clone, Copy, Debug, PartialEq, Eq, Structural)]
pub enum StorageImpl {
    Postgresql,
    PostgresqlTest,
    Mock,
}

/// Why the key-value store could not give a value.
#[derive(Clone, Copy, Debug, PartialEq, Eq, Structural)]
pub enum RedisError {
    /// The store holds nothing under the key.
    NotFound,
    /// The store could not be read.
    GetFailed,
    /// The stored bytes are not a value of the type asked for.
    JsonDeserializationFailed,
}

/// Turns the outcome of fetching a key into a value of the type asked for.
/// A failed fetch stays the failure it was. Bytes that were fetched are handed
/// to `parse` once: the value it reads is returned, and bytes in which it reads
/// none fail as a deserialization, not as a missing key.
pub fn get_and_deserialize_key<T, P: FnOnce(Vec<u8>) -> Option<T>>(
    fetched: Result<Vec<u8>, RedisError>,
    parse: P,
) -> (value: Result<T, RedisError>)
    requires
        forall|bytes: Vec<u8>| call_requires(parse, (bytes,)),
    ensures
        match fetched {
            Ok(bytes) => match value {
                Ok(parsed) => call_ensures(parse, (bytes,), Some(parsed)),
                Err(error) => error == RedisError::JsonDeserializationFailed && call_ensures(
                    parse,
                    (bytes,),
                    None::<T>,
                ),
            },
            Err(error) => value == Err::<T, RedisError>(error),
        },
{
    match fetched {
        Ok(bytes) => match parse(bytes) {
            Some(parsed) => Ok(parsed),
            None => Err(RedisError::JsonDeserializationFailed),
        },
        Err(error) => Err(error),
    }
}

} // verus!
