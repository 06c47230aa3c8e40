use vstd::prelude::*;

use crate::errors::Error;

verus! {

/// The character separating the room identifier from the passphrase in
/// the wire/environment encoding of a secret.
pub open spec fn separator() -> char {
    '-'
}

/// Whether the text contains the secret separator anywhere.
pub open spec fn contains_separator(s: Seq<char>) -> bool {
    exists|i: int| 0 <= i < s.len() && s[i] == separator()
}

/// The canonical encoding of a secret pair: room identifier, one
/// separator, passphrase.
pub open spec fn encoded(room: Seq<char>, pass: Seq<char>) -> Seq<char> {
    room + seq![separator()] + pass
}

/// The pair identifying and authenticating a transfer session: a room
/// identifier assigned by the relay and a human-speakable passphrase.
///
/// A room identifier never contains the separator; a passphrase may
/// contain any characters, the separator included. The pair is created
/// once per run and is immutable thereafter.
#[derive(Debug, Clone)]
pub struct Secret {
    pub room_identifier: String,
    pub passphrase: String,
}

impl Secret {
    /// A well-formed secret keeps the separator out of the room
    /// identifier, so that the encoding can be parsed back unambiguously.
    pub open spec fn wf(self) -> bool {
        !contains_separator(self.room_identifier@)
    }
}

/// Serializes a secret as `room_identifier '-' passphrase`, the exact
/// convention the counterpart process parses.
pub fn encode_secret(s: &Secret) -> (r: String)
    ensures
        r@ == encoded(s.room_identifier@, s.passphrase@),
{
    let mut out = String::from_str(s.room_identifier.as_str());
    out.append("-");
    out.append(s.passphrase.as_str());
    proof {
        reveal_strlit("-");
        assert(out@ =~= encoded(s.room_identifier@, s.passphrase@));
    }
    out
}

/// Splits an encoded secret at the *first* separator into the pair.
///
/// Returns `InvalidSecretFormat` exactly when the text holds no
/// separator at all. On success the returned room identifier is
/// separator-free and re-encoding the pair reproduces the input text,
/// which pins the split to the first separator.
pub fn parse_secret(s: &str) -> (r: Result<Secret, Error>)
    ensures
        match r {
            Ok(sec) => {
                &&& sec.wf()
                &&& encoded(sec.room_identifier@, sec.passphrase@) == s@
                &&& contains_separator(s@)
            },
            Err(e) => {
                &&& e is InvalidSecretFormat
                &&& !contains_separator(s@)
            },
        },
{
    let n = s.unicode_len();
    let mut i: usize = 0;
    while i < n
        invariant
            n == s@.len(),
            0 <= i <= n,
            forall|j: int| 0 <= j < i ==> s@[j] != separator(),
        decreases n - i,
    {
        if s.get_char(i) == '-' {
            let room = s.substring_char(0, i).to_owned();
            let pass = s.substring_char(i + 1, n).to_owned();
            let sec = Secret { room_identifier: room, passphrase: pass };
            proof {
                assert(encoded(sec.room_identifier@, sec.passphrase@) =~= s@);
            }
            return Ok(sec);
        }
        i = i + 1;
    }
    Err(Error::InvalidSecretFormat)
}

/// Law: encoding then first-separator parsing is the identity on secret
/// pairs. Any separator-free room identifier and any passphrase (even
/// one containing separators) survive the round trip exactly: a
/// separator-free split of the encoded text can only be the original
/// pair.
pub proof fn lemma_secret_round_trip(
    room: Seq<char>,
    pass: Seq<char>,
    room2: Seq<char>,
    pass2: Seq<char>,
)
    requires
        !contains_separator(room),
        !contains_separator(room2),
        encoded(room2, pass2) == encoded(room, pass),
    ensures
        room2 == room,
        pass2 == pass,
{
    let e = encoded(room, pass);
    if room2.len() < room.len() {
        assert(e[room2.len() as int] == separator());
        assert(room[room2.len() as int] == separator());
        assert(false);
    }
    if room.len() < room2.len() {
        assert(e[room.len() as int] == separator());
        assert(room2[room.len() as int] == separator());
        assert(false);
    }
    assert(room2.len() == room.len());
    assert forall|i: int| 0 <= i < room.len() implies room2[i] == room[i] by {
        assert(encoded(room2, pass2)[i] == room2[i]);
        assert(encoded(room, pass)[i] == room[i]);
    }
    assert(room2 =~= room);
    assert(encoded(room2, pass2).len() == room2.len() + 1 + pass2.len());
    assert(encoded(room, pass).len() == room.len() + 1 + pass.len());
    assert(pass2.len() == pass.len());
    assert forall|i: int| 0 <= i < pass.len() implies pass2[i] == pass[i] by {
        assert(encoded(room2, pass2)[room.len() + 1 + i] == pass2[i]);
        assert(encoded(room, pass)[room.len() + 1 + i] == pass[i]);
    }
    assert(pass2 =~= pass);
}

} // verus!
