//! The two conversions that every binding shares: a wrapper to the bytes of
//! one blob, and such bytes back to a wrapper.
//!
//! The binary document format itself is the caller's: it is handed in as an
//! encoder from a payload to bytes and a decoder from bytes to a payload.
//! Both conversions run it exactly once, on exactly what they were given,
//! and pass its failure on untouched.

use crate::wrapper::DBson;
use vstd::prelude::*;

verus! {

/// A decoder's outcome with its payload wrapped; a failure stays as it is.
pub open spec fn wrapped_outcome<T, D>(payload: Result<T, D>) -> Result<DBson<T>, D> {
    match payload {
        Ok(payload) => Ok(DBson::wrap(payload)),
        Err(failure) => Err(failure),
    }
}

/// Whether `encoded` is something that [`encode`] can give for `wrapped`:
/// an outcome of the encoder on the payload.
pub open spec fn encodes<T, E, F>(serialize: F, wrapped: DBson<T>, encoded: Result<Vec<u8>, E>) -> bool where
    F: FnOnce(&T) -> Result<Vec<u8>, E>,
 {
    serialize.ensures((&wrapped@,), encoded)
}

/// Whether `decoded` is something that [`decode`] can give for `bytes`: an
/// outcome of the decoder on those bytes, with its payload wrapped.
pub open spec fn decodes<T, D, G>(deserialize: G, bytes: Vec<u8>, decoded: Result<DBson<T>, D>) -> bool where
    G: FnOnce(&Vec<u8>) -> Result<T, D>,
 {
    exists|payload: Result<T, D>| #[trigger]
        deserialize.ensures((&bytes,), payload) && decoded == wrapped_outcome(payload)
}

/// Whether the decoder undoes the encoder on `payload`: whatever bytes the
/// one can give for the payload, the other can only read as that payload.
pub open spec fn faithful_on<T, E, D, F, G>(serialize: F, deserialize: G, payload: T) -> bool where
    F: FnOnce(&T) -> Result<Vec<u8>, E>,
    G: FnOnce(&Vec<u8>) -> Result<T, D>,
 {
    forall|bytes: Vec<u8>, decoded: Result<T, D>|
        serialize.ensures((&payload,), Ok::<Vec<u8>, E>(bytes)) && #[trigger] deserialize.ensures(
            (&bytes,),
            decoded,
        ) ==> decoded == Ok::<T, D>(payload)
}

/// Whether the decoder keeps to the encoder on `payload`: bytes that the
/// one can give for the payload are never read by the other as a different
/// payload, though it may refuse them.
pub open spec fn sound_on<T, E, D, F, G>(serialize: F, deserialize: G, payload: T) -> bool where
    F: FnOnce(&T) -> Result<Vec<u8>, E>,
    G: FnOnce(&Vec<u8>) -> Result<T, D>,
 {
    forall|bytes: Vec<u8>, other: T|
        serialize.ensures((&payload,), Ok::<Vec<u8>, E>(bytes)) && #[trigger] deserialize.ensures(
            (&bytes,),
            Ok::<T, D>(other),
        ) ==> other == payload
}

/// Whether the decoder refuses `bytes`: it can only fail on them.
pub open spec fn refused_by<T, D, G>(deserialize: G, bytes: Vec<u8>) -> bool where
    G: FnOnce(&Vec<u8>) -> Result<T, D>,
 {
    forall|payload: Result<T, D>| #[trigger]
        deserialize.ensures((&bytes,), payload) ==> payload is Err
}

/// Encodes the payload of a wrapper as the bytes of one blob, or fails as
/// the encoder does.
pub fn encode<T, E, F>(wrapped: &DBson<T>, serialize: F) -> (r: Result<Vec<u8>, E>) where
    F: FnOnce(&T) -> Result<Vec<u8>, E>,

    requires
        serialize.requires((&wrapped@,)),
    ensures
        encodes(serialize, *wrapped, r),
{
    serialize(&wrapped.inner)
}

/// Decodes the bytes of one blob and wraps the payload, or fails as the
/// decoder does.
pub fn decode<T, D, G>(bytes: &Vec<u8>, deserialize: G) -> (r: Result<DBson<T>, D>) where
    G: FnOnce(&Vec<u8>) -> Result<T, D>,

    requires
        deserialize.requires((bytes,)),
    ensures
        decodes(deserialize, *bytes, r),
{
    match deserialize(bytes) {
        Ok(payload) => Ok(DBson::new(payload)),
        Err(failure) => Err(failure),
    }
}

/// The round trip: where the decoder undoes the encoder on a payload,
/// decoding the bytes that a wrapper around it was encoded to gives a
/// wrapper equal to the first, and so the same payload.
pub proof fn lemma_round_trip<T, E, D, F, G>(
    serialize: F,
    deserialize: G,
    wrapped: DBson<T>,
    bytes: Vec<u8>,
    decoded: Result<DBson<T>, D>,
) where F: FnOnce(&T) -> Result<Vec<u8>, E>, G: FnOnce(&Vec<u8>) -> Result<T, D>
    requires
        faithful_on(serialize, deserialize, wrapped@),
        encodes(serialize, wrapped, Ok::<Vec<u8>, E>(bytes)),
        decodes(deserialize, bytes, decoded),
    ensures
        decoded == Ok::<DBson<T>, D>(wrapped),
        decoded->Ok_0@ == wrapped@,
{
}

/// Never another payload: where the decoder keeps to the encoder on a
/// payload, the wrapper around it is refused when it is encoded, or its
/// bytes are refused when they are decoded, or it comes back as it was.
pub proof fn lemma_never_corrupts<T, E, D, F, G>(
    serialize: F,
    deserialize: G,
    wrapped: DBson<T>,
    encoded: Result<Vec<u8>, E>,
    decoded: Result<DBson<T>, D>,
) where F: FnOnce(&T) -> Result<Vec<u8>, E>, G: FnOnce(&Vec<u8>) -> Result<T, D>
    requires
        sound_on(serialize, deserialize, wrapped@),
        encodes(serialize, wrapped, encoded),
        encoded is Ok ==> decodes(deserialize, encoded->Ok_0, decoded),
    ensures
        encoded is Err || decoded is Err || decoded == Ok::<DBson<T>, D>(wrapped),
{
}

/// A mismatch fails and does not corrupt: bytes that the decoder refuses
/// are never decoded to a wrapper.
pub proof fn lemma_mismatch_fails<T, D, G>(deserialize: G, bytes: Vec<u8>, decoded: Result<DBson<T>, D>) where
    G: FnOnce(&Vec<u8>) -> Result<T, D>,

    requires
        refused_by(deserialize, bytes),
        decodes(deserialize, bytes, decoded),
    ensures
        decoded is Err,
{
}

/// Nothing is made up: the payload of a decoded wrapper is one that the
/// decoder gave for the bytes.
pub proof fn lemma_decoded_payload_is_given<T, D, G>(deserialize: G, bytes: Vec<u8>, decoded: Result<DBson<T>, D>) where
    G: FnOnce(&Vec<u8>) -> Result<T, D>,

    requires
        decodes(deserialize, bytes, decoded),
        decoded is Ok,
    ensures
        deserialize.ensures((&bytes,), Ok::<T, D>(decoded->Ok_0@)),
{
}

} // verus!
