//! Text resources: the checks a loaded file must pass to be used as text.
use vstd::prelude::*;
use vstd::utf8::{valid_utf8, decode_utf8};

verus! {

/// Why a file's bytes cannot be used as text.
#[derive(Debug, Clone, Copy, PartialEq, Eq, Structural)]
pub enum Error {
    /// A byte is zero.
    FileContainsNil,
    /// The bytes are not UTF-8.
    InvalidUtf8,
}

/// Relies on `std::str::from_utf8`: it succeeds exactly on valid UTF-8 and
/// then holds the characters the bytes encode.
#[verifier::external_body]
fn utf8_text(bytes: &[u8]) -> (r: Option<String>)
    ensures
        r is Some <==> valid_utf8(bytes@),
        r matches Some(s) ==> s@ == decode_utf8(bytes@),
{
    match std::str::from_utf8(bytes) {
        Ok(s) => Some(s.to_string()),
        Err(_) => None,
    }
}

/// The text of a resource whose bytes are `buffer`: refused if a byte is
/// zero, or else if the bytes are not UTF-8.
pub fn load_string(buffer: &[u8]) -> (r: Result<String, Error>)
    ensures
        buffer@.contains(0u8) ==> r == Err::<String, Error>(Error::FileContainsNil),
        !buffer@.contains(0u8) && !valid_utf8(buffer@) ==> r == Err::<String, Error>(
            Error::InvalidUtf8,
        ),
        !buffer@.contains(0u8) && valid_utf8(buffer@) ==> (r matches Ok(s) && s@ == decode_utf8(
            buffer@,
        )),
{
    let mut i: usize = 0;
    while i < buffer.len()
        invariant
            i <= buffer@.len(),
            forall|j: int| 0 <= j < i ==> buffer@[j] != 0u8,
        decreases buffer@.len() - i,
    {
        if buffer[i] == 0 {
            return Err(Error::FileContainsNil);
        }
        i = i + 1;
    }
    match utf8_text(buffer) {
        Some(s) => Ok(s),
        None => Err(Error::InvalidUtf8),
    }
}

} // verus!
