//! Key-origin descriptors: the fingerprint of a master key, and the path
//! of derivation steps that leads from it to a key.
//!
//! On the wire a descriptor is the four bytes of the fingerprint and then
//! four bytes for each step, in path order. Nothing counts the steps: the
//! length of the field does. A descriptor is read only from a field that
//! holds at least one step; a field of the fingerprint alone is refused
//! as too short, as is one whose last step is cut off.

use vstd::prelude::*;
use crate::bip32::{lemma_step_of_u32, lemma_u32_of_step, ChildNumber, Fingerprint};
use crate::consensus::{
    decode_u32, lemma_u32_value_of_wire, lemma_u32_wire_of_value, u32_value, u32_wire, write_u32,
};
use crate::error::Error;
use crate::serialize::{Deserialize, Serialize};

verus! {

/// A key-origin descriptor: where a key comes from.
pub type KeySource = (Fingerprint, Vec<ChildNumber>);

/// The bytes that stand for a path: four for each step, in path order.
pub open spec fn steps_wire(steps: Seq<ChildNumber>) -> Seq<u8> {
    Seq::new(4 * steps.len(), |j: int| u32_wire(steps[j / 4].as_u32())[j % 4])
}

/// The step that the `i`-th group of four bytes after the fingerprint
/// stands for.
pub open spec fn step_at(bytes: Seq<u8>, i: int) -> ChildNumber {
    ChildNumber::of_u32(u32_value(bytes.subrange(4 + 4 * i, 8 + 4 * i)))
}

/// The first `n` steps that follow the fingerprint in `bytes`.
pub open spec fn steps_read(bytes: Seq<u8>, n: int) -> Seq<ChildNumber> {
    Seq::new(n as nat, |i: int| step_at(bytes, i))
}

/// Whether `bytes` has the shape of a descriptor: a fingerprint and one
/// or more whole steps.
pub open spec fn is_key_source(bytes: Seq<u8>) -> bool {
    bytes.len() >= 8 && bytes.len() % 4 == 0
}

/// Whether every step of a path has a 32-bit form of its own.
pub open spec fn steps_valid(steps: Seq<ChildNumber>) -> bool {
    forall|i: int| 0 <= i < steps.len() ==> (#[trigger] steps[i]).is_valid()
}

impl Serialize for KeySource {
    /// The fingerprint, then the steps.
    open spec fn wire(&self) -> Seq<u8> {
        self.0@ + steps_wire(self.1@)
    }

    fn serialize(&self) -> (bytes: Vec<u8>)
        ensures
            bytes@.len() == 4 + 4 * self.1@.len(),
    {
        let mut rv: Vec<u8> = Vec::new();
        let fprint = self.0.to_bytes();
        rv.push(fprint[0]);
        rv.push(fprint[1]);
        rv.push(fprint[2]);
        rv.push(fprint[3]);
        assert(rv@ =~= self.0@ + steps_wire(self.1@.take(0)));
        let mut i: usize = 0;
        while i < self.1.len()
            invariant
                i <= self.1@.len(),
                rv@ == self.0@ + steps_wire(self.1@.take(i as int)),
            decreases self.1@.len() - i,
        {
            let cnum = self.1[i];
            write_u32(&mut rv, u32::from(cnum));
            proof {
                lemma_steps_wire_push(self.1@.take(i as int), cnum);
                assert(self.1@.take(i as int).push(cnum) =~= self.1@.take(i + 1));
            }
            i = i + 1;
        }
        assert(self.1@.take(i as int) =~= self.1@);
        rv
    }
}

impl Deserialize for KeySource {
    /// A field of the right shape stands for its first four bytes and the
    /// steps that follow them; any other field is too short.
    open spec fn parse(bytes: Seq<u8>) -> Result<(Seq<u8>, Seq<ChildNumber>), Error> {
        if is_key_source(bytes) {
            Ok((bytes.subrange(0, 4), steps_read(bytes, (bytes.len() - 4) / 4)))
        } else {
            Err(Error::UnexpectedEof)
        }
    }

    /// The path has a step, and every step is valid.
    open spec fn well_formed(&self) -> bool {
        self.1@.len() >= 1 && steps_valid(self.1@)
    }

    fn deserialize(bytes: &[u8]) -> (r: Result<KeySource, Error>) {
        if bytes.len() < 4 {
            return Err(Error::UnexpectedEof);
        }
        let fprint = Fingerprint { bytes: [bytes[0], bytes[1], bytes[2], bytes[3]] };
        assert(fprint@ =~= bytes@.subrange(0, 4));
        let mut dpath: Vec<ChildNumber> = Vec::new();
        let mut pos: usize = 4;
        loop
            invariant_except_break
                pos < bytes@.len() || pos == 4,
            invariant
                4 <= pos <= bytes@.len(),
                pos % 4 == 0,
                dpath@ == steps_read(bytes@, (pos - 4) / 4),
                steps_valid(dpath@),
            ensures
                pos == bytes@.len(),
                pos >= 8,
            decreases bytes@.len() - pos,
        {
            match decode_u32(bytes, pos) {
                Ok(index) => {
                    assert(pos + 4 <= bytes.len());
                    dpath.push(ChildNumber::from(index));
                    assert(dpath@ =~= steps_read(bytes@, (pos - 4) / 4 + 1));
                    pos = pos + 4;
                    if pos == bytes.len() {
                        break ;
                    }
                },
                Err(e) => {
                    return Err(e);
                },
            }
        }
        Ok((fprint, dpath))
    }
}

/// A descriptor with at least one step, all of them valid, that was
/// written and read back is the same descriptor: the same fingerprint and
/// the same steps in the same order.
pub proof fn lemma_key_source_round_trip(source: KeySource)
    requires
        source.well_formed(),
    ensures
        KeySource::parse(source.wire()) == Ok::<
            (Seq<u8>, Seq<ChildNumber>),
            Error,
        >(source@),
{
    let bytes = source.wire();
    let steps = source.1@;
    let n = steps.len() as int;
    assert(bytes.len() == 4 + 4 * n);
    assert(bytes.subrange(0, 4) =~= source.0@);
    assert forall|i: int| 0 <= i < n implies step_at(bytes, i) == steps[i] by {
        let word = bytes.subrange(4 + 4 * i, 8 + 4 * i);
        assert forall|k: int| 0 <= k < 4 implies word[k] == u32_wire(steps[i].as_u32())[k] by {
            assert((4 * i + k) / 4 == i);
            assert((4 * i + k) % 4 == k);
        }
        assert(word =~= u32_wire(steps[i].as_u32()));
        lemma_u32_value_of_wire(steps[i].as_u32());
        lemma_u32_of_step(steps[i]);
    }
    assert(steps_read(bytes, n) =~= steps);
}

/// A descriptor is written in four bytes for the fingerprint and four for
/// each step.
pub proof fn lemma_key_source_wire_len(source: KeySource)
    ensures
        source.wire().len() == 4 + 4 * source.1@.len(),
{
}

/// A field that was read as a descriptor is what the descriptor is written
/// as: no two fields stand for one descriptor.
pub proof fn lemma_key_source_wire_of_parse(bytes: Seq<u8>)
    requires
        is_key_source(bytes),
    ensures
        bytes.subrange(0, 4) + steps_wire(steps_read(bytes, (bytes.len() - 4) / 4)) == bytes,
        steps_valid(steps_read(bytes, (bytes.len() - 4) / 4)),
{
    let n = (bytes.len() - 4) / 4;
    let steps = steps_read(bytes, n);
    let written = bytes.subrange(0, 4) + steps_wire(steps);
    assert(written.len() == bytes.len());
    assert forall|j: int| 0 <= j < bytes.len() implies written[j] == bytes[j] by {
        if j >= 4 {
            let i = (j - 4) / 4;
            let k = (j - 4) % 4;
            let word = bytes.subrange(4 + 4 * i, 8 + 4 * i);
            lemma_u32_wire_of_value(word);
            lemma_step_of_u32(u32_value(word));
            assert(steps[i] == step_at(bytes, i));
            assert(word[k] == bytes[j]);
        }
    }
    assert(written =~= bytes);
    assert forall|i: int| 0 <= i < steps.len() implies (#[trigger] steps[i]).is_valid() by {
        lemma_step_of_u32(u32_value(bytes.subrange(4 + 4 * i, 8 + 4 * i)));
    }
}

/// A field that ends with the fingerprint, or in the middle of a step,
/// is refused as too short.
pub proof fn lemma_key_source_refusal(bytes: Seq<u8>)
    ensures
        bytes.len() < 8 || bytes.len() % 4 != 0 ==> KeySource::parse(bytes)
            == Err::<(Seq<u8>, Seq<ChildNumber>), Error>(Error::UnexpectedEof),
{
}

/// A path with one more step is written as the path and then the step.
pub proof fn lemma_steps_wire_push(steps: Seq<ChildNumber>, step: ChildNumber)
    ensures
        steps_wire(steps.push(step)) == steps_wire(steps) + u32_wire(step.as_u32()),
{
    let longer = steps.push(step);
    let joined = steps_wire(steps) + u32_wire(step.as_u32());
    assert(steps_wire(longer).len() == joined.len());
    assert forall|j: int| 0 <= j < joined.len() implies steps_wire(longer)[j] == joined[j] by {
        if j < 4 * steps.len() {
            assert(longer[j / 4] == steps[j / 4]);
        } else {
            assert(j / 4 == steps.len());
            assert(j % 4 == j - 4 * steps.len());
        }
    }
    assert(steps_wire(longer) =~= joined);
}

} // verus!
