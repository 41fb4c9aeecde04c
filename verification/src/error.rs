//! The ways in which producing a code can fail.

use vstd::prelude::*;

verus! {

/// Why no code, step or secret could be produced.
#[derive(Debug, Clone, Copy, PartialEq, Eq, Structural)]
pub enum TotpError {
    /// The text is not a base32 encoding of a secret.
    Decode,
    /// The clock could not be read, or it shows a time before the start time.
    Clock,
    /// The step size is zero, or the code width is outside `1..=9`.
    Config,
    /// The keyed hash could not be computed.
    Crypto,
}

impl TotpError {
    /// A short description, for messages.
    pub fn message(&self) -> (text: &'static str)
        ensures
            text@ == Self::message_of(*self)@,
    {
        match self {
            TotpError::Decode => "secret is not valid base32",
            TotpError::Clock => "clock unavailable or before the start time",
            TotpError::Config => "step size or code width out of range",
            TotpError::Crypto => "keyed hash computation failed",
        }
    }

    /// The description that [`TotpError::message`] returns.
    pub open spec fn message_of(e: TotpError) -> &'static str {
        match e {
            TotpError::Decode => "secret is not valid base32",
            TotpError::Clock => "clock unavailable or before the start time",
            TotpError::Config => "step size or code width out of range",
            TotpError::Crypto => "keyed hash computation failed",
        }
    }
}

} // verus!
