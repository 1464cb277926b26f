//! The binding for a client that binds a parameter by asking the value for an
//! SQL value, and reads a column by handing the value found there to the
//! type that is asked for.
//!
//! A wrapper is always bound as a blob. An encoder that fails is reported as
//! a conversion failure; a column that holds no blob is reported as having
//! the wrong type before the decoder sees anything.

use crate::codec::{decode, decodes, encode, encodes, faithful_on, refused_by, sound_on};
use crate::wrapper::DBson;
use vstd::prelude::*;

verus! {

/// A value as the database holds it in one column of one row.
#[derive(Debug, Clone, PartialEq, Eq)]
pub enum SqlValue {
    /// SQL NULL.
    Null,
    /// A signed integer.
    Integer(i64),
    /// A floating point number, kept as the 64 bits that make it up; the
    /// bindings never read it.
    Real(u64),
    /// Text, as the bytes the database stores.
    Text(Vec<u8>),
    /// An opaque byte sequence.
    Blob(Vec<u8>),
}

/// Why a wrapper could not be bound as a parameter.
#[derive(Debug, Clone, PartialEq, Eq)]
pub enum ToSqlError<E> {
    /// The encoder could not represent the payload; its failure is kept.
    ConversionFailure(E),
}

/// Why a column could not be read as a wrapper.
#[derive(Debug, Clone, PartialEq, Eq)]
pub enum FromSqlError<D> {
    /// The column holds something other than a blob.
    InvalidType,
    /// The blob is not a document of the expected shape; the decoder's
    /// failure is kept.
    Other(D),
}

/// The SQL value bound for each outcome of encoding: the bytes as a blob, or
/// a conversion failure that holds the encoder's.
pub open spec fn bound_value<E>(encoded: Result<Vec<u8>, E>) -> Result<SqlValue, ToSqlError<E>> {
    match encoded {
        Ok(bytes) => Ok(SqlValue::Blob(bytes)),
        Err(failure) => Err(ToSqlError::ConversionFailure(failure)),
    }
}

/// The bytes of a column: those of a blob, and for every other kind of value
/// the wrong-type error.
pub open spec fn blob_of<D>(value: SqlValue) -> Result<Vec<u8>, FromSqlError<D>> {
    match value {
        SqlValue::Blob(bytes) => Ok(bytes),
        _ => Err(FromSqlError::InvalidType),
    }
}

/// What is read for each outcome of decoding: the wrapper as it is, or an
/// error that holds the decoder's failure.
pub open spec fn read_value<T, D>(decoded: Result<DBson<T>, D>) -> Result<DBson<T>, FromSqlError<D>> {
    match decoded {
        Ok(wrapped) => Ok(wrapped),
        Err(failure) => Err(FromSqlError::Other(failure)),
    }
}

/// Whether `bound` is something that [`to_sql`] can give for `wrapped`.
pub open spec fn binds<T, E, F>(serialize: F, wrapped: DBson<T>, bound: Result<SqlValue, ToSqlError<E>>) -> bool where
    F: FnOnce(&T) -> Result<Vec<u8>, E>,
 {
    exists|encoded: Result<Vec<u8>, E>| #[trigger]
        encodes(serialize, wrapped, encoded) && bound == bound_value(encoded)
}

/// Whether `read` is something that [`column_result`] can give for `value`.
pub open spec fn reads<T, D, G>(deserialize: G, value: SqlValue, read: Result<DBson<T>, FromSqlError<D>>) -> bool where
    G: FnOnce(&Vec<u8>) -> Result<T, D>,
 {
    match blob_of::<D>(value) {
        Ok(bytes) => exists|decoded: Result<DBson<T>, D>| #[trigger]
            decodes(deserialize, bytes, decoded) && read == read_value(decoded),
        Err(e) => read == Err::<DBson<T>, FromSqlError<D>>(e),
    }
}

/// Decides what is bound once encoding is over.
pub fn to_sql_outcome<E>(encoded: Result<Vec<u8>, E>) -> (r: Result<SqlValue, ToSqlError<E>>)
    ensures
        r == bound_value(encoded),
{
    match encoded {
        Ok(bytes) => Ok(SqlValue::Blob(bytes)),
        Err(failure) => Err(ToSqlError::ConversionFailure(failure)),
    }
}

/// Binds a wrapper: encodes it with `serialize` and binds the outcome as
/// [`bound_value`] says.
pub fn to_sql<T, E, F>(wrapped: &DBson<T>, serialize: F) -> (r: Result<SqlValue, ToSqlError<E>>) where
    F: FnOnce(&T) -> Result<Vec<u8>, E>,

    requires
        serialize.requires((&wrapped@,)),
    ensures
        binds(serialize, *wrapped, r),
{
    let encoded = encode(wrapped, serialize);
    to_sql_outcome(encoded)
}

/// The bytes of a blob column; any other kind of value has the wrong type.
pub fn as_blob<D>(value: &SqlValue) -> (r: Result<&Vec<u8>, FromSqlError<D>>)
    ensures
        match blob_of::<D>(*value) {
            Ok(bytes) => r == Ok::<&Vec<u8>, FromSqlError<D>>(&bytes),
            Err(e) => r == Err::<&Vec<u8>, FromSqlError<D>>(e),
        },
{
    match value {
        SqlValue::Blob(bytes) => Ok(bytes),
        _ => Err(FromSqlError::InvalidType),
    }
}

/// Decides what is read once decoding is over.
pub fn column_result_outcome<T, D>(decoded: Result<DBson<T>, D>) -> (r: Result<DBson<T>, FromSqlError<D>>)
    ensures
        r == read_value(decoded),
{
    match decoded {
        Ok(wrapped) => Ok(wrapped),
        Err(failure) => Err(FromSqlError::Other(failure)),
    }
}

/// Reads a column as a wrapper. A column that holds no blob is refused and
/// `deserialize` is not run; otherwise the blob's bytes are decoded with it
/// and the outcome is read as [`read_value`] says.
pub fn column_result<T, D, G>(value: &SqlValue, deserialize: G) -> (r: Result<DBson<T>, FromSqlError<D>>) where
    G: FnOnce(&Vec<u8>) -> Result<T, D>,

    requires
        forall|bytes: &Vec<u8>| *value == SqlValue::Blob(*bytes) ==> deserialize.requires((bytes,)),
    ensures
        reads(deserialize, *value, r),
{
    match as_blob(value) {
        Ok(bytes) => {
            let decoded = decode(bytes, deserialize);
            column_result_outcome(decoded)
        },
        Err(e) => Err(e),
    }
}

/// The round trip through the database: where the decoder undoes the
/// encoder on a payload and the wrapper around it was bound, reading the
/// bound value back gives a wrapper equal to the first.
pub proof fn lemma_round_trip<T, E, D, F, G>(
    serialize: F,
    deserialize: G,
    wrapped: DBson<T>,
    value: SqlValue,
    read: Result<DBson<T>, FromSqlError<D>>,
) where F: FnOnce(&T) -> Result<Vec<u8>, E>, G: FnOnce(&Vec<u8>) -> Result<T, D>
    requires
        faithful_on(serialize, deserialize, wrapped@),
        binds(serialize, wrapped, Ok::<SqlValue, ToSqlError<E>>(value)),
        reads(deserialize, value, read),
    ensures
        read == Ok::<DBson<T>, FromSqlError<D>>(wrapped),
{
}

/// Never another payload: where the decoder keeps to the encoder on a
/// payload, the wrapper around it is refused when it is bound, or refused
/// when the bound value is read, or it comes back as it was.
pub proof fn lemma_never_corrupts<T, E, D, F, G>(
    serialize: F,
    deserialize: G,
    wrapped: DBson<T>,
    bound: Result<SqlValue, ToSqlError<E>>,
    read: Result<DBson<T>, FromSqlError<D>>,
) where F: FnOnce(&T) -> Result<Vec<u8>, E>, G: FnOnce(&Vec<u8>) -> Result<T, D>
    requires
        sound_on(serialize, deserialize, wrapped@),
        binds(serialize, wrapped, bound),
        bound is Ok ==> reads(deserialize, bound->Ok_0, read),
    ensures
        bound is Err || read is Err || read == Ok::<DBson<T>, FromSqlError<D>>(wrapped),
{
}

/// A mismatch fails and does not corrupt: where the decoder refuses the
/// bytes that a column holds, no wrapper is read. What is read is then the
/// decoder's failure for a blob, and the wrong-type error for anything else.
pub proof fn lemma_mismatch_fails<T, D, G>(deserialize: G, value: SqlValue, read: Result<DBson<T>, FromSqlError<D>>) where
    G: FnOnce(&Vec<u8>) -> Result<T, D>,

    requires
        reads(deserialize, value, read),
        value is Blob ==> refused_by(deserialize, value->Blob_0),
    ensures
        read is Err,
        value is Blob <==> read->Err_0 is Other,
        !(value is Blob) <==> read->Err_0 is InvalidType,
{
}

/// A failed encoder binds nothing: whatever is bound is a blob.
pub proof fn lemma_bound_is_blob<T, E, F>(serialize: F, wrapped: DBson<T>, bound: Result<SqlValue, ToSqlError<E>>) where
    F: FnOnce(&T) -> Result<Vec<u8>, E>,

    requires
        binds(serialize, wrapped, bound),
    ensures
        bound is Ok ==> bound->Ok_0 is Blob && encodes(
            serialize,
            wrapped,
            Ok::<Vec<u8>, E>(bound->Ok_0->Blob_0),
        ),
        bound is Err ==> encodes(
            serialize,
            wrapped,
            Err::<Vec<u8>, E>(bound->Err_0->ConversionFailure_0),
        ),
{
}

} // verus!
