//! The wrapper's own behaviour, and what each binding decides for every
//! outcome of the encoder and the decoder.

use dbson::codec;
use dbson::rusqlite_binding::{
    as_blob, column_result, column_result_outcome, to_sql, to_sql_outcome, FromSqlError, SqlValue,
    ToSqlError,
};
use dbson::sqlx_binding::{decode, decode_outcome, encode, encode_by_ref, encode_outcome, DecodeError, IsNull};
use dbson::DBson;
use std::cell::Cell;
use std::collections::HashSet;

fn four_bytes(payload: &u32) -> Result<Vec<u8>, String> {
    Ok(payload.to_le_bytes().to_vec())
}

fn refuses(_payload: &u32) -> Result<Vec<u8>, String> {
    Err("no document".to_string())
}

fn from_four_bytes(bytes: &Vec<u8>) -> Result<u32, String> {
    match bytes.as_slice() {
        [a, b, c, d] => Ok(u32::from_le_bytes([*a, *b, *c, *d])),
        _ => Err("not four bytes".to_string()),
    }
}

#[test]
fn unwrapping_gives_the_payload_back() {
    assert_eq!(DBson::new(5u32).into_inner(), 5);
    assert_eq!(DBson::new(vec![1u8, 2, 3]).into_inner(), vec![1u8, 2, 3]);
    assert_eq!(DBson::new("a").inner, "a");
}

#[test]
fn conversion_wraps() {
    let wrapped: DBson<u32> = 9u32.into();
    assert_eq!(wrapped, DBson::new(9u32));
    assert_eq!(DBson::from(vec![1u8]).into_inner(), vec![1u8]);
}

#[test]
fn equality_is_that_of_the_payload() {
    assert!(DBson::new(1u32) == DBson::new(1u32));
    assert!(DBson::new(1u32) != DBson::new(2u32));
    assert!(DBson::new("Hello".to_string()) == DBson::new("Hello".to_string()));
    assert!(DBson::new("Hello".to_string()) != DBson::new("World".to_string()));
    let pairs: [(i64, i64); 4] = [(0, 0), (0, 1), (-3, 3), (7, 7)];
    for (a, b) in pairs {
        assert_eq!(DBson::new(a) == DBson::new(b), a == b);
    }
}

#[test]
fn ordering_is_that_of_the_payload() {
    assert!(DBson::new(1u32) < DBson::new(2u32));
    assert!(DBson::new(2u32) >= DBson::new(2u32));
    assert_eq!(
        DBson::new("b").partial_cmp(&DBson::new("a")),
        "b".partial_cmp("a")
    );
    assert_eq!(DBson::new(3u8).cmp(&DBson::new(4u8)), 3u8.cmp(&4u8));
    let mut wrapped: Vec<DBson<i32>> = vec![DBson::new(3), DBson::new(-1), DBson::new(2)];
    wrapped.sort();
    assert_eq!(wrapped, vec![DBson::new(-1), DBson::new(2), DBson::new(3)]);
}

#[test]
fn wrappers_can_be_set_elements() {
    let mut seen: HashSet<DBson<u32>> = HashSet::new();
    assert!(seen.insert(DBson::new(1)));
    assert!(!seen.insert(DBson::new(1)));
    assert!(seen.insert(DBson::new(2)));
    assert!(seen.contains(&DBson::new(2)));
    assert_eq!(seen.len(), 2);
}

#[test]
fn bound_value_for_each_encoder_outcome() {
    assert_eq!(
        to_sql_outcome::<String>(Ok(vec![1, 2, 3])),
        Ok(SqlValue::Blob(vec![1, 2, 3]))
    );
    assert_eq!(
        to_sql_outcome::<String>(Ok(vec![])),
        Ok(SqlValue::Blob(vec![]))
    );
    assert_eq!(
        to_sql_outcome(Err("bad".to_string())),
        Err(ToSqlError::ConversionFailure("bad".to_string()))
    );
}

#[test]
fn binding_runs_the_encoder_on_the_payload() {
    assert_eq!(
        to_sql(&DBson::new(0x0403_0201u32), four_bytes),
        Ok(SqlValue::Blob(vec![1, 2, 3, 4]))
    );
    assert_eq!(
        to_sql(&DBson::new(1u32), refuses),
        Err(ToSqlError::ConversionFailure("no document".to_string()))
    );
}

#[test]
fn only_a_blob_has_bytes() {
    assert_eq!(
        as_blob::<String>(&SqlValue::Blob(vec![9, 8])),
        Ok(&vec![9u8, 8])
    );
    assert_eq!(as_blob::<String>(&SqlValue::Blob(vec![])), Ok(&vec![]));
    assert_eq!(as_blob::<String>(&SqlValue::Null), Err(FromSqlError::InvalidType));
    assert_eq!(
        as_blob::<String>(&SqlValue::Integer(1)),
        Err(FromSqlError::InvalidType)
    );
    assert_eq!(
        as_blob::<String>(&SqlValue::Real(1.5f64.to_bits())),
        Err(FromSqlError::InvalidType)
    );
    assert_eq!(
        as_blob::<String>(&SqlValue::Text(vec![9, 8])),
        Err(FromSqlError::InvalidType)
    );
}

#[test]
fn read_value_for_each_decoder_outcome() {
    assert_eq!(
        column_result_outcome::<u32, String>(Ok(DBson::new(4))),
        Ok(DBson::new(4))
    );
    assert_eq!(
        column_result_outcome::<u32, String>(Err("bad".to_string())),
        Err(FromSqlError::Other("bad".to_string()))
    );
}

#[test]
fn reading_runs_the_decoder_on_the_blob_only() {
    assert_eq!(
        column_result(&SqlValue::Blob(vec![1, 2, 3, 4]), from_four_bytes),
        Ok(DBson::new(0x0403_0201u32))
    );
    assert_eq!(
        column_result(&SqlValue::Blob(vec![1, 2]), from_four_bytes),
        Err(FromSqlError::Other("not four bytes".to_string()))
    );
    let calls: Cell<u32> = Cell::new(0);
    let read = column_result(&SqlValue::Text(vec![1, 2, 3, 4]), |bytes: &Vec<u8>| {
        calls.set(calls.get() + 1);
        from_four_bytes(bytes)
    });
    assert_eq!(read, Err(FromSqlError::InvalidType));
    assert_eq!(calls.get(), 0);
}

#[test]
fn round_trip_through_both_bindings() {
    let payloads: [u32; 4] = [0, 1, 0xdead_beef, u32::MAX];
    for payload in payloads {
        let bound = to_sql(&DBson::new(payload), four_bytes).expect("binds");
        let read = column_result(&bound, from_four_bytes).expect("reads");
        assert_eq!(read, DBson::new(payload));
        assert_eq!(read.into_inner(), payload);

        let mut buffer: Vec<u8> = Vec::new();
        let is_null = encode(DBson::new(payload), four_bytes, |bytes: Vec<u8>| {
            buffer = bytes;
            IsNull::No
        });
        assert_eq!(is_null, IsNull::No);
        let read = decode::<u32, String, String, _>(Ok(buffer), from_four_bytes).expect("reads");
        assert_eq!(read.into_inner(), payload);
    }
}

#[test]
fn forwarded_bytes_for_each_encoder_outcome() {
    assert_eq!(encode_outcome::<String>(Ok(vec![5, 6])), Some(vec![5, 6]));
    assert_eq!(encode_outcome(Err("bad".to_string())), None);
}

#[test]
fn a_failed_encoder_binds_null_and_writes_nothing() {
    let calls: Cell<u32> = Cell::new(0);
    let is_null = encode_by_ref(&DBson::new(1u32), refuses, |_bytes: &Vec<u8>| {
        calls.set(calls.get() + 1);
        IsNull::No
    });
    assert_eq!(is_null, IsNull::Yes);
    let is_null = encode(DBson::new(1u32), refuses, |_bytes: Vec<u8>| {
        calls.set(calls.get() + 1);
        IsNull::No
    });
    assert_eq!(is_null, IsNull::Yes);
    assert_eq!(calls.get(), 0);
}

#[test]
fn encoded_bytes_are_forwarded_unchanged() {
    let mut buffer: Vec<u8> = vec![0xff];
    let is_null = encode_by_ref(&DBson::new(0x0403_0201u32), four_bytes, |bytes: &Vec<u8>| {
        buffer.extend_from_slice(bytes);
        IsNull::No
    });
    assert_eq!(is_null, IsNull::No);
    assert_eq!(buffer, vec![0xff, 1, 2, 3, 4]);

    let is_null = encode_by_ref(&DBson::new(0u32), four_bytes, |_bytes: &Vec<u8>| IsNull::Yes);
    assert_eq!(is_null, IsNull::Yes);
}

#[test]
fn decoded_value_for_each_outcome() {
    assert_eq!(
        decode_outcome::<u32, String, String>(Ok(DBson::new(3))),
        Ok(DBson::new(3))
    );
    assert_eq!(
        decode_outcome::<u32, String, String>(Err("shape".to_string())),
        Err(DecodeError::Document("shape".to_string()))
    );
}

#[test]
fn decoding_passes_both_failures_on() {
    assert_eq!(
        decode::<u32, String, String, _>(Ok(vec![1, 2, 3, 4]), from_four_bytes),
        Ok(DBson::new(0x0403_0201u32))
    );
    assert_eq!(
        decode::<u32, String, String, _>(Ok(vec![1]), from_four_bytes),
        Err(DecodeError::Document("not four bytes".to_string()))
    );
    let calls: Cell<u32> = Cell::new(0);
    let read = decode::<u32, String, String, _>(Err("null".to_string()), |bytes: &Vec<u8>| {
        calls.set(calls.get() + 1);
        from_four_bytes(bytes)
    });
    assert_eq!(read, Err(DecodeError::Column("null".to_string())));
    assert_eq!(calls.get(), 0);
}

#[test]
fn encoding_runs_the_encoder_on_the_payload() {
    assert_eq!(
        codec::encode(&DBson::new(0x0403_0201u32), four_bytes),
        Ok(vec![1, 2, 3, 4])
    );
    assert_eq!(
        codec::encode(&DBson::new(0u32), four_bytes),
        Ok(vec![0, 0, 0, 0])
    );
    assert_eq!(
        codec::encode(&DBson::new(1u32), refuses),
        Err("no document".to_string())
    );
}

#[test]
fn decoding_wraps_the_payload() {
    assert_eq!(
        codec::decode(&vec![1, 2, 3, 4], from_four_bytes),
        Ok(DBson::new(0x0403_0201u32))
    );
    assert_eq!(
        codec::decode(&vec![], from_four_bytes),
        Err("not four bytes".to_string())
    );
}

#[test]
fn decoding_undoes_encoding() {
    let payloads: [u32; 5] = [0, 1, 255, 0x0102_0304, u32::MAX];
    for payload in payloads {
        let wrapped = DBson::new(payload);
        let bytes = codec::encode(&wrapped, four_bytes).expect("encodes");
        assert_eq!(codec::decode(&bytes, from_four_bytes), Ok(wrapped));
    }
}
