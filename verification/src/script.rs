//! Scripts: byte strings that this layer stores and hands back as they
//! are.

use vstd::prelude::*;
use vstd::slice::slice_to_vec;
use vstd::std_specs::convert::FromSpecImpl;
use crate::error::Error;
use crate::serialize::{Deserialize, Serialize};

verus! {

/// A locking or spending script. Any byte string is one; what the bytes
/// mean is decided elsewhere.
#[derive(Clone, Debug, PartialEq, Eq)]
pub struct Script {
    pub bytes: Vec<u8>,
}

impl View for Script {
    type V = Seq<u8>;

    open spec fn view(&self) -> Seq<u8> {
        self.bytes@
    }
}

impl Script {
    /// A copy of the script's bytes.
    pub fn to_bytes(&self) -> (out: Vec<u8>)
        ensures
            out@ == self@,
    {
        slice_to_vec(self.bytes.as_slice())
    }

    /// The script's bytes.
    pub fn as_bytes(&self) -> (out: &[u8])
        ensures
            out@ == self@,
    {
        self.bytes.as_slice()
    }

    /// How many bytes the script has.
    pub fn len(&self) -> (n: usize)
        ensures
            n == self@.len(),
    {
        self.bytes.len()
    }

    /// Whether the script has no bytes.
    pub fn is_empty(&self) -> (b: bool)
        ensures
            b == (self@.len() == 0),
    {
        self.bytes.len() == 0
    }
}

impl FromSpecImpl<Vec<u8>> for Script {
    open spec fn obeys_from_spec() -> bool {
        true
    }

    open spec fn from_spec(bytes: Vec<u8>) -> Script {
        Script { bytes }
    }
}

impl From<Vec<u8>> for Script {
    fn from(bytes: Vec<u8>) -> (script: Script) {
        Script { bytes }
    }
}

impl Serialize for Script {
    /// The script's own bytes, with nothing before or after them.
    open spec fn wire(&self) -> Seq<u8> {
        self@
    }

    fn serialize(&self) -> (bytes: Vec<u8>) {
        self.to_bytes()
    }
}

impl Deserialize for Script {
    /// Every byte string is the script made of its bytes.
    open spec fn parse(bytes: Seq<u8>) -> Result<Seq<u8>, Error> {
        Ok(bytes)
    }

    open spec fn well_formed(&self) -> bool {
        true
    }

    fn deserialize(bytes: &[u8]) -> (r: Result<Script, Error>)
        ensures
            r is Ok,
    {
        Ok(Script::from(slice_to_vec(bytes)))
    }
}

/// Reading a script never fails, whatever the bytes and however many.
pub proof fn lemma_script_parse_total(bytes: Seq<u8>)
    ensures
        Script::parse(bytes) == Ok::<Seq<u8>, Error>(bytes),
{
}

/// A script that was written and read back is the same script.
pub proof fn lemma_script_round_trip(script: Script)
    ensures
        Script::parse(script.wire()) == Ok::<Seq<u8>, Error>(script@),
{
}

} // verus!
