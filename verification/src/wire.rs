//! Big-endian integers and UTF-8 text, as the responses carry them.
//!
//! The conversions themselves are done by `byteorder` and by the standard
//! library. The functions of this module that call them are trusted: each
//! states in its contract what the callee is documented to do, and nothing
//! here proves it.

use crate::error::{Sg3Error, Sg3Result};
use byteorder::{BigEndian, ByteOrder};
use vstd::prelude::*;
use vstd::string::StringSliceAdditionalSpecFns;
use vstd::utf8::*;

verus! {

/// The number that two bytes hold in big-endian order.
pub open spec fn be_u16(hi: u8, lo: u8) -> u16 {
    (hi as int * 256 + lo as int) as u16
}

/// The two bytes that hold a number in big-endian order.
pub open spec fn be_u16_bytes(n: u16) -> Seq<u8> {
    seq![(n as int / 256) as u8, (n as int % 256) as u8]
}

/// The text that a lossy UTF-8 decoder makes of some bytes: each invalid
/// sequence is replaced by U+FFFD. Where the bytes are valid UTF-8 this is
/// the text they encode; how the invalid parts are delimited is left to the
/// decoder.
pub uninterp spec fn utf8_lossy(bytes: Seq<u8>) -> Seq<char>;

/// Writing a number and reading the bytes back gives the number again.
pub proof fn lemma_be_u16_round_trip(n: u16)
    ensures
        be_u16_bytes(n).len() == 2,
        be_u16(be_u16_bytes(n)[0], be_u16_bytes(n)[1]) == n,
{
}

/// Reading two bytes and writing the number back gives the bytes again.
pub proof fn lemma_be_u16_bytes_round_trip(hi: u8, lo: u8)
    ensures
        be_u16_bytes(be_u16(hi, lo)) == seq![hi, lo],
{
    assert(be_u16_bytes(be_u16(hi, lo)) =~= seq![hi, lo]);
}

/// Trusted: `byteorder::BigEndian::read_u16`. It reads the first two bytes of
/// the slice as a big-endian number, and panics on a shorter slice, which the
/// precondition rules out.
#[verifier::external_body]
pub(crate) fn read_be_u16(buf: &[u8]) -> (n: u16)
    requires
        buf@.len() >= 2,
    ensures
        n == be_u16(buf@[0], buf@[1]),
{
    BigEndian::read_u16(buf)
}

/// Trusted: `byteorder::BigEndian::write_u16`, on a fresh two-byte array.
/// It stores the number in big-endian order.
#[verifier::external_body]
pub(crate) fn write_be_u16(n: u16) -> (bytes: [u8; 2])
    ensures
        bytes@ == be_u16_bytes(n),
{
    let mut bytes = [0u8; 2];
    BigEndian::write_u16(&mut bytes, n);
    bytes
}

/// Trusted: `std::str::from_utf8`. It succeeds exactly on valid UTF-8, and
/// the string it returns has the bytes it was given.
#[verifier::external_body]
pub(crate) fn utf8_str<'a>(bytes: &'a [u8]) -> (r: Option<&'a str>)
    ensures
        r is Some <==> valid_utf8(bytes@),
        r matches Some(s) ==> s.spec_bytes() == bytes@,
{
    match std::str::from_utf8(bytes) {
        Ok(s) => Some(s),
        Err(_) => None,
    }
}

/// Trusted: `String::from_utf8_lossy`. The result is a function of the bytes
/// alone, named [`utf8_lossy`]; on valid UTF-8 it is the text they encode.
#[verifier::external_body]
pub(crate) fn lossy_string(bytes: &[u8]) -> (r: String)
    ensures
        r@ == utf8_lossy(bytes@),
        valid_utf8(bytes@) ==> r@ == decode_utf8(bytes@),
{
    String::from_utf8_lossy(bytes).into_owned()
}

/// Decodes bytes as UTF-8 text, or reports that they are not.
pub fn decode_text<'a>(bytes: &'a [u8]) -> (r: Option<&'a str>)
    ensures
        r is Some <==> valid_utf8(bytes@),
        r matches Some(s) ==> s@ == decode_utf8(bytes@),
{
    let r = utf8_str(bytes);
    proof {
        if let Some(s) = r {
            encode_utf8_decode_utf8(s@);
        }
    }
    r
}

/// What a text field decodes to: the text its bytes encode, or
/// `TextDecode` where they are not valid UTF-8.
pub open spec fn text_of(bytes: Seq<u8>) -> Result<Seq<char>, Sg3Error> {
    if valid_utf8(bytes) {
        Ok(decode_utf8(bytes))
    } else {
        Err(Sg3Error::TextDecode)
    }
}

/// Whether `r` is the outcome `expected` of decoding a text field.
pub open spec fn is_text(r: Result<&str, Sg3Error>, expected: Result<Seq<char>, Sg3Error>) -> bool {
    match r {
        Ok(s) => expected == Ok::<Seq<char>, Sg3Error>(s@),
        Err(e) => expected == Err::<Seq<char>, Sg3Error>(e),
    }
}

/// Decodes a text field of a response.
pub fn text_field<'a>(bytes: &'a [u8]) -> (r: Sg3Result<&'a str>)
    ensures
        is_text(r, text_of(bytes@)),
{
    match decode_text(bytes) {
        Some(s) => Ok(s),
        None => Err(Sg3Error::TextDecode),
    }
}

} // verus!
