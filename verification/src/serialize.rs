//! The two capabilities that every value type has: it can be written as
//! bytes, and read back from bytes.

use vstd::prelude::*;
use crate::error::Error;

verus! {

/// A value that can be written as the raw bytes of a field.
pub trait Serialize {
    /// The bytes that stand for this value.
    spec fn wire(&self) -> Seq<u8>;

    /// Writes the value. Never fails.
    fn serialize(&self) -> (bytes: Vec<u8>)
        ensures
            bytes@ == self.wire(),
    ;
}

/// A value that can be read from the raw bytes of a field.
pub trait Deserialize: Sized + View {
    /// What a byte string stands for: the view of a value, or the reason
    /// why it stands for none.
    spec fn parse(bytes: Seq<u8>) -> Result<Self::V, Error>;

    /// What holds of every value that was read from bytes.
    spec fn well_formed(&self) -> bool;

    /// Reads a value. Every byte of the input belongs to it.
    fn deserialize(bytes: &[u8]) -> (r: Result<Self, Error>)
        ensures
            match r {
                Ok(value) => Self::parse(bytes@) == Ok::<Self::V, Error>(value@)
                    && value.well_formed(),
                Err(e) => Self::parse(bytes@) == Err::<Self::V, Error>(e),
            },
    ;
}

} // verus!
