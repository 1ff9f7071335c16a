//! Typed byte codecs for the values stored in the fields of a
//! partially signed transaction: scripts, public keys and key-origin
//! descriptors.
//!
//! Every value type implements [`Serialize`] and [`Deserialize`]. Each
//! implementation states, over `Seq<u8>`, which bytes stand for a value
//! and which value a byte string stands for, and each comes with the proof
//! that a value written and read back is the same value. A type with a
//! canonical encoding of its own, such as a transaction, joins by
//! implementing the two traits with that encoding.

pub mod error;
pub mod consensus;
pub mod bip32;
pub mod serialize;
pub mod script;
pub mod key_source;
pub mod key;

pub use error::Error;
pub use bip32::{ChildNumber, Fingerprint};
pub use key::PublicKey;
pub use key_source::KeySource;
pub use script::Script;
pub use serialize::{Deserialize, Serialize};
