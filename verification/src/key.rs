//! Public keys: points of the secp256k1 curve, held in compressed form.
//!
//! Whether a byte string names a point is decided by the `secp256k1`
//! crate. What this module proves rests on what it states of that crate
//! at [`compressed_point`] and nowhere else.

use vstd::prelude::*;
use vstd::slice::slice_to_vec;
use crate::error::Error;
use crate::serialize::{Deserialize, Serialize};

verus! {

/// The length of a key in compressed form.
pub const PUBLIC_KEY_SIZE: usize = 33;

/// The length of a key in uncompressed form.
pub const UNCOMPRESSED_PUBLIC_KEY_SIZE: usize = 65;

/// The compressed form of the point that `secp256k1` reads from `bytes`,
/// or none where it reads no point from them. Nothing here says which
/// byte strings are points: the curve arithmetic is the outside crate's.
pub uninterp spec fn compressed_point(bytes: Seq<u8>) -> Option<Seq<u8>>;

/// Whether `bytes` has the length and the first byte of a compressed key:
/// 33 bytes, the first one 2 or 3 for the parity of the other coordinate.
pub open spec fn is_compressed_shape(bytes: Seq<u8>) -> bool {
    bytes.len() == PUBLIC_KEY_SIZE && (bytes[0] == 2 || bytes[0] == 3)
}

/// Whether `bytes` has the length and the first byte of a key in any form
/// that is read: compressed, or 65 bytes that start with 4, 6 or 7.
pub open spec fn is_key_shape(bytes: Seq<u8>) -> bool {
    is_compressed_shape(bytes) || (bytes.len() == UNCOMPRESSED_PUBLIC_KEY_SIZE && (bytes[0] == 4
        || bytes[0] == 6 || bytes[0] == 7))
}

/// The compressed form of the key that `bytes` stands for, if any.
pub open spec fn key_of(bytes: Seq<u8>) -> Option<Seq<u8>> {
    if is_key_shape(bytes) {
        compressed_point(bytes)
    } else {
        None
    }
}

/// Calls `secp256k1::PublicKey::from_slice` on `bytes` and hands back the
/// compressed form of the key, as `secp256k1::PublicKey::serialize` gives
/// it.
///
/// Not proved, and claimed of those two functions: the result is
/// [`compressed_point`] of the input; a byte string that is read has the
/// shape of a key; the compressed form has the shape of a compressed key,
/// and read again it gives the same compressed form.
#[verifier::external_body]
fn read_point(bytes: &[u8]) -> (r: Option<[u8; 33]>)
    ensures
        compressed_point(bytes@) == match r {
            Some(c) => Some(c@),
            None => None,
        },
        r is Some ==> is_key_shape(bytes@),
        r matches Some(c) ==> is_compressed_shape(c@) && compressed_point(c@) == Some(c@),
{
    match secp256k1::PublicKey::from_slice(bytes) {
        Ok(key) => Some(key.serialize()),
        Err(_) => None,
    }
}

/// A point of the curve, in compressed form.
#[derive(Clone, Copy, Debug, PartialEq, Eq, Hash)]
pub struct PublicKey {
    compressed: [u8; 33],
}

impl View for PublicKey {
    type V = Seq<u8>;

    /// The 33 bytes of the compressed form.
    closed spec fn view(&self) -> Seq<u8> {
        self.compressed@
    }
}

impl PublicKey {
    /// The key's 33 bytes.
    pub fn to_bytes(&self) -> (out: [u8; 33])
        ensures
            out@ == self@,
    {
        self.compressed
    }

    /// A key always has 33 bytes.
    pub broadcast proof fn lemma_len(self)
        ensures
            (#[trigger] self@).len() == PUBLIC_KEY_SIZE,
    {
    }
}

impl Serialize for PublicKey {
    /// The compressed form.
    open spec fn wire(&self) -> Seq<u8> {
        self@
    }

    fn serialize(&self) -> (bytes: Vec<u8>)
        ensures
            bytes@.len() == PUBLIC_KEY_SIZE,
    {
        slice_to_vec(self.compressed.as_slice())
    }
}

impl Deserialize for PublicKey {
    /// The key that the bytes stand for; bytes that stand for none are
    /// refused as an invalid key, whatever their length.
    open spec fn parse(bytes: Seq<u8>) -> Result<Seq<u8>, Error> {
        match key_of(bytes) {
            Some(c) => Ok(c),
            None => Err(Error::ParseFailed("invalid public key")),
        }
    }

    /// The key is a point in compressed form: read from its own bytes, it
    /// is itself.
    open spec fn well_formed(&self) -> bool {
        is_compressed_shape(self@) && compressed_point(self@) == Some(self@)
    }

    fn deserialize(bytes: &[u8]) -> (r: Result<PublicKey, Error>) {
        match read_point(bytes) {
            Some(compressed) => Ok(PublicKey { compressed }),
            None => Err(Error::ParseFailed("invalid public key")),
        }
    }
}

/// A key that was written and read back is the same key.
pub proof fn lemma_public_key_round_trip(key: PublicKey)
    requires
        key.well_formed(),
    ensures
        PublicKey::parse(key.wire()) == Ok::<Seq<u8>, Error>(key@),
{
}

/// Bytes that are all zero stand for no key, however many they are.
pub proof fn lemma_zero_bytes_are_no_key(bytes: Seq<u8>)
    requires
        forall|i: int| 0 <= i < bytes.len() ==> bytes[i] == 0,
    ensures
        PublicKey::parse(bytes) == Err::<Seq<u8>, Error>(Error::ParseFailed("invalid public key")),
{
}

/// Whatever is refused is refused as an invalid key, and only bytes with
/// the shape of a key are read.
pub proof fn lemma_public_key_refusal(bytes: Seq<u8>)
    ensures
        PublicKey::parse(bytes) is Err ==> PublicKey::parse(bytes) == Err::<Seq<u8>, Error>(
            Error::ParseFailed("invalid public key"),
        ),
        !is_key_shape(bytes) ==> PublicKey::parse(bytes) is Err,
{
}

} // verus!
