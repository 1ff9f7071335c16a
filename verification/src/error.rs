//! The one error type of every decoder.

use vstd::prelude::*;

verus! {

/// Why a byte string does not stand for a value.
#[derive(Clone, Copy, Debug, PartialEq, Eq)]
pub enum Error {
    /// The input ended before a required field was complete.
    UnexpectedEof,
    /// The input has the right shape but names no value of the type;
    /// the text says which check it failed.
    ParseFailed(&'static str),
}

impl Error {
    /// The reason in words.
    pub open spec fn reason(self) -> Seq<char> {
        match self {
            Error::UnexpectedEof => "unexpected end of input"@,
            Error::ParseFailed(why) => why@,
        }
    }

    /// Whether the input was too short, as opposed to malformed.
    pub fn is_eof(&self) -> (b: bool)
        ensures
            b == (*self is UnexpectedEof),
    {
        match self {
            Error::UnexpectedEof => true,
            Error::ParseFailed(_) => false,
        }
    }

    /// The reason in words, for a caller that shows it.
    pub fn message(&self) -> (text: &'static str)
        ensures
            text@ == self.reason(),
    {
        match self {
            Error::UnexpectedEof => "unexpected end of input",
            Error::ParseFailed(why) => why,
        }
    }
}

} // verus!
