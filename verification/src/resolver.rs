use vstd::prelude::*;

use crate::errors::{Error, SecretField};
use crate::secret::Secret;

verus! {

/// Assembles the receiver secret from interactive prompt outcomes, the
/// fallback used when no environment secret is set. Each prompt is
/// attempted at most once; `None` stands for a prompt that could not be
/// read (no interactive terminal, or an input error). The room
/// identifier is collected first, so an unreadable room identifier is
/// reported even when the passphrase prompt was never reached.
pub fn secret_from_prompts(room: Option<String>, passphrase: Option<String>) -> (r: Result<
    Secret,
    Error,
>)
    ensures
        match (room, passphrase) {
            (None, _) => r == Err::<Secret, Error>(
                Error::SecretInputUnavailable { field: SecretField::RoomIdentifier },
            ),
            (Some(ri), None) => r == Err::<Secret, Error>(
                Error::SecretInputUnavailable { field: SecretField::Passphrase },
            ),
            (Some(ri), Some(p)) => r == Ok::<Secret, Error>(
                Secret { room_identifier: ri, passphrase: p },
            ),
        },
{
    match room {
        None => Err(Error::SecretInputUnavailable { field: SecretField::RoomIdentifier }),
        Some(ri) => match passphrase {
            None => Err(Error::SecretInputUnavailable { field: SecretField::Passphrase }),
            Some(p) => Ok(Secret { room_identifier: ri, passphrase: p }),
        },
    }
}

} // verus!
