//! Raw values attached to flags and held by environment variables.

use vstd::prelude::*;
use vstd::slice::slice_to_vec;
use vstd::string::*;
use vstd::utf8::*;

verus! {

/// The value attached to a flag, or held by an environment variable: a string
/// of bytes that need not be valid UTF-8.
#[derive(Debug, Clone, PartialEq, Eq)]
pub struct ValueToken {
    pub bytes: Vec<u8>,
}

impl View for ValueToken {
    type V = Seq<u8>;

    open spec fn view(&self) -> Seq<u8> {
        self.bytes@
    }
}

/// The views of an optional token.
pub open spec fn token_view(token: Option<ValueToken>) -> Option<Seq<u8>> {
    match token {
        Some(t) => Some(t@),
        None => None,
    }
}

/// Calls `core::str::from_utf8` and keeps the string slice of the `Ok` case. The
/// call succeeds exactly on valid UTF-8, and the slice it returns has the bytes
/// it was given.
#[verifier::external_body]
fn str_from_utf8(bytes: &[u8]) -> (r: Option<&str>)
    ensures
        r.is_some() == valid_utf8(bytes@),
        r matches Some(s) ==> s.spec_bytes() == bytes@,
{
    match core::str::from_utf8(bytes) {
        Ok(s) => Some(s),
        Err(_) => None,
    }
}

/// The text that `String::from_utf8_lossy` makes of a byte string: the text
/// that the bytes encode, with the replacement character in place of whatever
/// is not valid UTF-8.
pub uninterp spec fn lossy_text(bytes: Seq<u8>) -> Seq<char>;

/// Calls `String::from_utf8_lossy` and takes the text as an owned string. The
/// text depends on the bytes alone; nothing else is claimed of it.
#[verifier::external_body]
fn string_from_utf8_lossy(bytes: &[u8]) -> (text: String)
    ensures
        text@ == lossy_text(bytes@),
{
    String::from_utf8_lossy(bytes).into_owned()
}

/// Whether two byte strings are equal.
pub fn same_bytes(a: &[u8], b: &[u8]) -> (same: bool)
    ensures
        same == (a@ == b@),
{
    if a.len() != b.len() {
        return false;
    }
    let mut i: usize = 0;
    while i < a.len()
        invariant
            a@.len() == b@.len(),
            i <= a@.len(),
            a@.take(i as int) == b@.take(i as int),
        decreases a@.len() - i,
    {
        if a[i] != b[i] {
            return false;
        }
        proof {
            assert(a@.take(i + 1) =~= a@.take(i as int).push(a@[i as int]));
            assert(b@.take(i + 1) =~= b@.take(i as int).push(b@[i as int]));
        }
        i += 1;
    }
    proof {
        assert(a@.take(i as int) =~= a@);
        assert(b@.take(i as int) =~= b@);
    }
    true
}

impl ValueToken {
    /// A token with the given bytes.
    pub fn from_bytes(bytes: Vec<u8>) -> (token: Self)
        ensures
            token@ == bytes@,
    {
        ValueToken { bytes }
    }

    /// The token whose bytes are the UTF-8 encoding of `text`.
    pub fn from_text(text: &str) -> (token: Self)
        ensures
            token@ == encode_utf8(text@),
    {
        ValueToken { bytes: text.as_bytes_vec() }
    }

    /// The token's bytes.
    pub fn as_bytes(&self) -> (bytes: &[u8])
        ensures
            bytes@ == self@,
    {
        self.bytes.as_slice()
    }

    /// A copy of the token.
    pub fn duplicate(&self) -> (token: Self)
        ensures
            token@ == self@,
    {
        ValueToken { bytes: slice_to_vec(self.bytes.as_slice()) }
    }

    /// The text that the token encodes, if it is valid UTF-8.
    pub fn to_str(&self) -> (text: Option<&str>)
        ensures
            text.is_some() == valid_utf8(self@),
            text matches Some(s) ==> s@ == decode_utf8(self@) && encode_utf8(s@) == self@,
    {
        let text = str_from_utf8(self.bytes.as_slice());
        proof {
            if let Some(s) = text {
                encode_utf8_decode_utf8(s@);
            }
        }
        text
    }

    /// The token as text, with the replacement character wherever the token is
    /// not valid UTF-8.
    pub fn to_string_lossy(&self) -> (text: String)
        ensures
            text@ == lossy_text(self@),
    {
        string_from_utf8_lossy(self.bytes.as_slice())
    }

    /// Whether the token is exactly the UTF-8 encoding of `word`.
    pub fn is_word(&self, word: &str) -> (is: bool)
        ensures
            is == (self@ == encode_utf8(word@)),
    {
        same_bytes(self.bytes.as_slice(), word.as_bytes())
    }
}

} // verus!
