//! The binding for a client that encodes a parameter into an argument buffer
//! and has no way to report a failure while doing so.
//!
//! A payload that cannot be encoded is bound as NULL and nothing is handed
//! to the client's own byte encoder. On reading, a failure of the client's
//! byte decoder and one of the document decoder both reach the caller.

use crate::codec::{decodes, encodes, faithful_on, refused_by, sound_on};
use crate::wrapper::DBson;
use vstd::prelude::*;

verus! {

/// Whether the value that was encoded is NULL.
#[derive(Debug, Clone, Copy, PartialEq, Eq, Structural)]
pub enum IsNull {
    /// The value is NULL; nothing was written.
    Yes,
    /// The value is not NULL.
    No,
}

/// Why a column could not be read as a wrapper.
#[derive(Debug, Clone, PartialEq, Eq)]
pub enum DecodeError<C, D> {
    /// The client could not hand the column over as bytes.
    Column(C),
    /// The bytes are not a document of the expected shape.
    Document(D),
}

/// What is handed to the client's byte encoder for each outcome of
/// encoding: the bytes, or nothing where it failed.
pub open spec fn forwarded<E>(encoded: Result<Vec<u8>, E>) -> Option<Vec<u8>> {
    match encoded {
        Ok(bytes) => Some(bytes),
        Err(_) => None,
    }
}

/// What is read for each outcome of decoding: the wrapper as it is, or an
/// error that holds the decoder's failure.
pub open spec fn decoded_value<T, C, D>(decoded: Result<DBson<T>, D>) -> Result<DBson<T>, DecodeError<C, D>> {
    match decoded {
        Ok(wrapped) => Ok(wrapped),
        Err(failure) => Err(DecodeError::Document(failure)),
    }
}

/// Whether `answer` is something that [`encode_by_ref`] can give for
/// `wrapped`: NULL where encoding failed, and else the answer of the
/// client's byte encoder on the encoded bytes.
pub open spec fn forwards_by_ref<T, E, F, W>(serialize: F, forward: W, wrapped: DBson<T>, answer: IsNull) -> bool where
    F: FnOnce(&T) -> Result<Vec<u8>, E>,
    W: FnOnce(&Vec<u8>) -> IsNull,
 {
    exists|encoded: Result<Vec<u8>, E>| #[trigger]
        encodes(serialize, wrapped, encoded) && match forwarded(encoded) {
            Some(bytes) => forward.ensures((&bytes,), answer),
            None => answer == IsNull::Yes,
        }
}

/// Whether `answer` is something that [`encode`] can give for `wrapped`:
/// as [`forwards_by_ref`], with the bytes given away.
pub open spec fn forwards<T, E, F, W>(serialize: F, forward: W, wrapped: DBson<T>, answer: IsNull) -> bool where
    F: FnOnce(&T) -> Result<Vec<u8>, E>,
    W: FnOnce(Vec<u8>) -> IsNull,
 {
    exists|encoded: Result<Vec<u8>, E>| #[trigger]
        encodes(serialize, wrapped, encoded) && match forwarded(encoded) {
            Some(bytes) => forward.ensures((bytes,), answer),
            None => answer == IsNull::Yes,
        }
}

/// Whether `read` is something that [`decode`] can give for `column`: the
/// client's failure where it gave no bytes, and else the outcome of
/// decoding the bytes.
pub open spec fn reads<T, C, D, G>(deserialize: G, column: Result<Vec<u8>, C>, read: Result<DBson<T>, DecodeError<C, D>>) -> bool where
    G: FnOnce(&Vec<u8>) -> Result<T, D>,
 {
    match column {
        Ok(bytes) => exists|decoded: Result<DBson<T>, D>| #[trigger]
            decodes(deserialize, bytes, decoded) && read == decoded_value::<T, C, D>(decoded),
        Err(failure) => read == Err::<DBson<T>, DecodeError<C, D>>(DecodeError::Column(failure)),
    }
}

/// Decides what the client's byte encoder is given once encoding is over;
/// `None` stands for NULL.
pub fn encode_outcome<E>(encoded: Result<Vec<u8>, E>) -> (r: Option<Vec<u8>>)
    ensures
        r == forwarded(encoded),
{
    match encoded {
        Ok(bytes) => Some(bytes),
        Err(_) => None,
    }
}

/// Encodes a wrapper that is only borrowed. Where encoding with `serialize`
/// fails the answer is NULL and `forward` is not run; otherwise `forward`
/// runs once on the bytes and its answer is handed on.
///
/// `forward` has to accept only bytes that the encoder gave for the payload,
/// so it cannot be run on anything else, and not at all where the encoder
/// failed.
pub fn encode_by_ref<T, E, F, W>(wrapped: &DBson<T>, serialize: F, forward: W) -> (r: IsNull) where
    F: FnOnce(&T) -> Result<Vec<u8>, E>,
    W: FnOnce(&Vec<u8>) -> IsNull,

    requires
        serialize.requires((&wrapped@,)),
        forall|bytes: &Vec<u8>|
            encodes(serialize, *wrapped, Ok::<Vec<u8>, E>(*bytes)) ==> #[trigger] forward.requires(
                (bytes,),
            ),
    ensures
        forwards_by_ref(serialize, forward, *wrapped, r),
{
    let encoded = crate::codec::encode(wrapped, serialize);
    match encode_outcome(encoded) {
        Some(bytes) => forward(&bytes),
        None => IsNull::Yes,
    }
}

/// Encodes a wrapper that is given away. As [`encode_by_ref`], but the bytes
/// are handed to `forward` for good. Here too `forward` has to accept only
/// bytes that the encoder gave for the payload.
pub fn encode<T, E, F, W>(wrapped: DBson<T>, serialize: F, forward: W) -> (r: IsNull) where
    F: FnOnce(&T) -> Result<Vec<u8>, E>,
    W: FnOnce(Vec<u8>) -> IsNull,

    requires
        serialize.requires((&wrapped@,)),
        forall|bytes: Vec<u8>|
            encodes(serialize, wrapped, Ok::<Vec<u8>, E>(bytes)) ==> #[trigger] forward.requires(
                (bytes,),
            ),
    ensures
        forwards(serialize, forward, wrapped, r),
{
    let encoded = crate::codec::encode(&wrapped, serialize);
    match encode_outcome(encoded) {
        Some(bytes) => forward(bytes),
        None => IsNull::Yes,
    }
}

/// Decides what is read once decoding is over.
pub fn decode_outcome<T, C, D>(decoded: Result<DBson<T>, D>) -> (r: Result<DBson<T>, DecodeError<C, D>>)
    ensures
        r == decoded_value::<T, C, D>(decoded),
{
    match decoded {
        Ok(wrapped) => Ok(wrapped),
        Err(failure) => Err(DecodeError::Document(failure)),
    }
}

/// Reads a column as a wrapper. `column` is what the client's byte decoder
/// gave. Where that is a failure it is passed on and `deserialize` is not
/// run; otherwise the bytes are decoded with it, and the wrapper is handed
/// on or the failure passed on.
pub fn decode<T, C, D, G>(column: Result<Vec<u8>, C>, deserialize: G) -> (r: Result<DBson<T>, DecodeError<C, D>>) where
    G: FnOnce(&Vec<u8>) -> Result<T, D>,

    requires
        forall|bytes: &Vec<u8>| column == Ok::<Vec<u8>, C>(*bytes) ==> deserialize.requires((bytes,)),
    ensures
        reads(deserialize, column, r),
{
    match column {
        Err(failure) => Err(DecodeError::Column(failure)),
        Ok(bytes) => {
            let decoded = crate::codec::decode(&bytes, deserialize);
            decode_outcome(decoded)
        },
    }
}

/// The round trip through the database: where the decoder undoes the
/// encoder on a payload, and the client hands back the bytes that the
/// wrapper around it was encoded to, the wrapper that is read equals the
/// first.
pub proof fn lemma_round_trip<T, E, C, D, F, G>(
    serialize: F,
    deserialize: G,
    wrapped: DBson<T>,
    bytes: Vec<u8>,
    read: Result<DBson<T>, DecodeError<C, D>>,
) where F: FnOnce(&T) -> Result<Vec<u8>, E>, G: FnOnce(&Vec<u8>) -> Result<T, D>
    requires
        faithful_on(serialize, deserialize, wrapped@),
        encodes(serialize, wrapped, Ok::<Vec<u8>, E>(bytes)),
        reads(deserialize, Ok::<Vec<u8>, C>(bytes), read),
    ensures
        read == Ok::<DBson<T>, DecodeError<C, D>>(wrapped),
{
}

/// Never another payload: where the decoder keeps to the encoder on a
/// payload, and the client hands back what was bound for the wrapper around
/// it, the column is refused or the wrapper comes back as it was. What was
/// bound is the encoded bytes, or NULL where the encoder failed; for a NULL
/// the client gives a failure of its own or bytes that the encoder never
/// gave, and those are read as a wrapper only if the decoder accepts them.
pub proof fn lemma_never_corrupts<T, E, C, D, F, G>(
    serialize: F,
    deserialize: G,
    wrapped: DBson<T>,
    encoded: Result<Vec<u8>, E>,
    column: Result<Vec<u8>, C>,
    read: Result<DBson<T>, DecodeError<C, D>>,
) where F: FnOnce(&T) -> Result<Vec<u8>, E>, G: FnOnce(&Vec<u8>) -> Result<T, D>
    requires
        sound_on(serialize, deserialize, wrapped@),
        encodes(serialize, wrapped, encoded),
        encoded is Ok ==> column == Ok::<Vec<u8>, C>(encoded->Ok_0),
        encoded is Err && column is Ok ==> refused_by(deserialize, column->Ok_0),
        reads(deserialize, column, read),
    ensures
        read is Err || read == Ok::<DBson<T>, DecodeError<C, D>>(wrapped),
        encoded is Err ==> read is Err,
{
}

/// A mismatch fails and does not corrupt: where the decoder refuses the
/// bytes of a column, or the client gave none, no wrapper is read.
pub proof fn lemma_mismatch_fails<T, C, D, G>(
    deserialize: G,
    column: Result<Vec<u8>, C>,
    read: Result<DBson<T>, DecodeError<C, D>>,
) where G: FnOnce(&Vec<u8>) -> Result<T, D>
    requires
        reads(deserialize, column, read),
        column is Ok ==> refused_by(deserialize, column->Ok_0),
    ensures
        read is Err,
        column is Ok <==> read->Err_0 is Document,
        column is Err ==> read->Err_0 == DecodeError::<C, D>::Column(column->Err_0),
{
}

/// A failed encoder binds NULL: where the encoder can only fail on the
/// payload, the answer is NULL whatever the client's byte encoder would do.
pub proof fn lemma_failure_is_null<T, E, F, W>(serialize: F, forward: W, wrapped: DBson<T>, answer: IsNull) where
    F: FnOnce(&T) -> Result<Vec<u8>, E>,
    W: FnOnce(&Vec<u8>) -> IsNull,

    requires
        forwards_by_ref(serialize, forward, wrapped, answer),
        forall|encoded: Result<Vec<u8>, E>| #[trigger]
            encodes(serialize, wrapped, encoded) ==> encoded is Err,
    ensures
        answer == IsNull::Yes,
{
}

} // verus!
