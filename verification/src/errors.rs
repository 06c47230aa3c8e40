use vstd::prelude::*;

verus! {

/// Which secret field an interactive prompt failed to collect.
#[derive(Debug, Clone, Copy, PartialEq, Eq, Structural)]
pub enum SecretField {
    RoomIdentifier,
    Passphrase,
}

/// Errors of the handshake and transfer front end.
///
/// `SecretInputUnavailable` reports a failed interactive prompt (no
/// terminal, or an input error). `InvalidSecretFormat` reports an
/// environment-supplied secret with no separator. `Engine` carries an
/// opaque failure text forwarded verbatim from the transfer engine.
#[derive(Debug, Clone)]
pub enum Error {
    SecretInputUnavailable { field: SecretField },
    InvalidSecretFormat,
    Engine { message: String },
}

impl Error {
    /// True exactly for the malformed-environment-secret error.
    pub fn is_invalid_secret_format(&self) -> (r: bool)
        ensures
            r == (*self is InvalidSecretFormat),
    {
        match self {
            Error::InvalidSecretFormat => true,
            _ => false,
        }
    }

    /// True exactly for a failed interactive prompt on the given field.
    pub fn is_input_unavailable(&self, f: SecretField) -> (r: bool)
        ensures
            r == (*self matches Error::SecretInputUnavailable { field } && field == f),
    {
        match self {
            Error::SecretInputUnavailable { field } => *field == f,
            _ => false,
        }
    }
}

} // verus!
