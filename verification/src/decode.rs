use vstd::prelude::*;
use vstd::utf8::{decode_utf8, valid_utf8};

verus! {

/// Each byte read as the character with the same code point (Latin-1).
pub open spec fn latin1_chars(bytes: Seq<u8>) -> Seq<char> {
    Seq::new(bytes.len(), |i: int| bytes[i] as char)
}

/// What decoding an entry's raw path bytes yields: valid UTF-8 is decoded
/// exactly; anything else falls back to reading each byte as its Latin-1
/// character, so that decoding is total and never fails.
pub open spec fn decoded_chars(bytes: Seq<u8>) -> Seq<char> {
    if valid_utf8(bytes) {
        decode_utf8(bytes)
    } else {
        latin1_chars(bytes)
    }
}

/// Relies on str::from_utf8 (std): returns Ok exactly when the bytes are
/// valid UTF-8, and the resulting text is then their UTF-8 decoding.
#[verifier::external_body]
fn utf8_to_string(bytes: &[u8]) -> (r: Option<String>)
    ensures
        r is Some <==> valid_utf8(bytes@),
        r matches Some(s) ==> s@ == decode_utf8(bytes@),
{
    match std::str::from_utf8(bytes) {
        Ok(s) => Some(s.to_owned()),
        Err(_) => None,
    }
}

/// Relies on String::push (std): appends one character to the string.
#[verifier::external_body]
fn push_char(s: &mut String, c: char)
    ensures
        final(s)@ == old(s)@.push(c),
{
    s.push(c);
}

fn latin1_string(bytes: &[u8]) -> (r: String)
    ensures
        r@ == latin1_chars(bytes@),
{
    let mut s = String::new();
    let mut i: usize = 0;
    while i < bytes.len()
        invariant
            i <= bytes@.len(),
            s@ == latin1_chars(bytes@.take(i as int)),
        decreases bytes@.len() - i,
    {
        push_char(&mut s, bytes[i] as char);
        i += 1;
        proof {
            assert(s@ =~= latin1_chars(bytes@.take(i as int)));
        }
    }
    proof {
        assert(bytes@.take(bytes@.len() as int) =~= bytes@);
    }
    s
}

/// Decode an entry's raw path bytes into text. Decoding is total: bytes that
/// are not valid UTF-8 are still decoded, bytewise, as Latin-1.
pub fn decode_filename(bytes: &[u8]) -> (r: String)
    ensures
        r@ == decoded_chars(bytes@),
{
    match utf8_to_string(bytes) {
        Some(s) => s,
        None => latin1_string(bytes),
    }
}

} // verus!
