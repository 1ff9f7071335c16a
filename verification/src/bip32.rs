//! The two parts of a key-origin descriptor: the fingerprint of the
//! master key, and one step of a derivation path.

use vstd::prelude::*;
use vstd::std_specs::convert::FromSpecImpl;

verus! {

/// The bit that marks a hardened step in its 32-bit form.
pub const HARDENED_BIT: u32 = 0x8000_0000;

/// The first four bytes of the hash of a master public key.
#[derive(Clone, Copy, Debug, PartialEq, Eq)]
pub struct Fingerprint {
    pub bytes: [u8; 4],
}

impl View for Fingerprint {
    type V = Seq<u8>;

    open spec fn view(&self) -> Seq<u8> {
        self.bytes@
    }
}

impl Fingerprint {
    /// The fingerprint made of the four bytes of `bytes`; none where
    /// `bytes` has another length.
    pub fn from_slice(bytes: &[u8]) -> (r: Option<Fingerprint>)
        ensures
            match r {
                Some(f) => bytes@.len() == 4 && f@ == bytes@,
                None => bytes@.len() != 4,
            },
    {
        if bytes.len() != 4 {
            return None;
        }
        let f = Fingerprint { bytes: [bytes[0], bytes[1], bytes[2], bytes[3]] };
        assert(f@ =~= bytes@);
        Some(f)
    }

    /// The four bytes.
    pub fn to_bytes(&self) -> (out: [u8; 4])
        ensures
            out@ == self@,
            out@.len() == 4,
    {
        self.bytes
    }
}

impl FromSpecImpl<[u8; 4]> for Fingerprint {
    open spec fn obeys_from_spec() -> bool {
        true
    }

    open spec fn from_spec(bytes: [u8; 4]) -> Fingerprint {
        Fingerprint { bytes }
    }
}

impl From<[u8; 4]> for Fingerprint {
    fn from(bytes: [u8; 4]) -> (f: Fingerprint) {
        Fingerprint { bytes }
    }
}

/// One step of a derivation path. In its 32-bit form the highest bit
/// tells a hardened step from a normal one, and the other 31 bits are the
/// index.
#[derive(Clone, Copy, Debug, PartialEq, Eq, Structural)]
pub enum ChildNumber {
    /// A step that a public key alone can follow.
    Normal { index: u32 },
    /// A step that needs the private key.
    Hardened { index: u32 },
}

impl ChildNumber {
    /// The index, without the mark.
    pub open spec fn index(self) -> u32 {
        match self {
            ChildNumber::Normal { index } => index,
            ChildNumber::Hardened { index } => index,
        }
    }

    /// The index fits in 31 bits. Only such a step has a 32-bit form of
    /// its own.
    pub open spec fn is_valid(self) -> bool {
        self.index() < HARDENED_BIT
    }

    /// The step that a 32-bit value stands for.
    pub open spec fn of_u32(n: u32) -> ChildNumber {
        if n >= HARDENED_BIT {
            ChildNumber::Hardened { index: (n - HARDENED_BIT) as u32 }
        } else {
            ChildNumber::Normal { index: n }
        }
    }

    /// The 32-bit form: the index, with the highest bit set where the step
    /// is hardened.
    pub open spec fn as_u32(self) -> u32 {
        match self {
            ChildNumber::Normal { index } => index,
            ChildNumber::Hardened { index } => if index < HARDENED_BIT {
                (index + HARDENED_BIT) as u32
            } else {
                index
            },
        }
    }

    /// Whether the step is hardened.
    pub fn is_hardened(&self) -> (b: bool)
        ensures
            b == (*self is Hardened),
    {
        match self {
            ChildNumber::Normal { .. } => false,
            ChildNumber::Hardened { .. } => true,
        }
    }

    /// The normal step with this index; none where the index does not fit
    /// in 31 bits.
    pub fn from_normal_idx(index: u32) -> (r: Option<ChildNumber>)
        ensures
            r == if index < HARDENED_BIT {
                Some(ChildNumber::Normal { index })
            } else {
                None
            },
    {
        if index < HARDENED_BIT {
            Some(ChildNumber::Normal { index })
        } else {
            None
        }
    }

    /// The hardened step with this index; none where the index does not
    /// fit in 31 bits.
    pub fn from_hardened_idx(index: u32) -> (r: Option<ChildNumber>)
        ensures
            r == if index < HARDENED_BIT {
                Some(ChildNumber::Hardened { index })
            } else {
                None
            },
    {
        if index < HARDENED_BIT {
            Some(ChildNumber::Hardened { index })
        } else {
            None
        }
    }
}

impl FromSpecImpl<u32> for ChildNumber {
    open spec fn obeys_from_spec() -> bool {
        true
    }

    open spec fn from_spec(n: u32) -> ChildNumber {
        ChildNumber::of_u32(n)
    }
}

impl From<u32> for ChildNumber {
    fn from(n: u32) -> (step: ChildNumber) {
        assert((n & 0x8000_0000u32 != 0) == (n >= 0x8000_0000u32)) by (bit_vector);
        if n & HARDENED_BIT != 0 {
            assert(n >= 0x8000_0000u32 ==> n ^ 0x8000_0000u32 == (n - 0x8000_0000u32) as u32)
                by (bit_vector);
            ChildNumber::Hardened { index: n ^ HARDENED_BIT }
        } else {
            ChildNumber::Normal { index: n }
        }
    }
}

impl FromSpecImpl<ChildNumber> for u32 {
    open spec fn obeys_from_spec() -> bool {
        true
    }

    open spec fn from_spec(step: ChildNumber) -> u32 {
        step.as_u32()
    }
}

impl From<ChildNumber> for u32 {
    fn from(step: ChildNumber) -> (n: u32) {
        match step {
            ChildNumber::Normal { index } => index,
            ChildNumber::Hardened { index } => {
                assert(index < 0x8000_0000u32 ==> index | 0x8000_0000u32 == (index
                    + 0x8000_0000u32) as u32) by (bit_vector);
                assert(index >= 0x8000_0000u32 ==> index | 0x8000_0000u32 == index)
                    by (bit_vector);
                index | HARDENED_BIT
            },
        }
    }
}

/// A 32-bit value is the 32-bit form of the step that it stands for, and
/// that step is valid.
pub proof fn lemma_step_of_u32(n: u32)
    ensures
        ChildNumber::of_u32(n).is_valid(),
        ChildNumber::of_u32(n).as_u32() == n,
{
}

/// A valid step is the step that its 32-bit form stands for.
pub proof fn lemma_u32_of_step(step: ChildNumber)
    requires
        step.is_valid(),
    ensures
        ChildNumber::of_u32(step.as_u32()) == step,
{
}

} // verus!
