//! Decoding of embedded payloads: base64, gzip, UTF-8 and lower-casing.
//!
//! Each function here hands its input to the crate or std function that does
//! the work. Their results are named and not proved.

use vstd::prelude::*;
use vstd::utf8::{decode_utf8, encode_utf8, valid_utf8};

verus! {

/// What `str::to_lowercase` returns for `text`.
pub uninterp spec fn lowercase_of(text: Seq<char>) -> Seq<char>;

/// What `base64::decode` returns for `text`: the decoded bytes, or `None`
/// where it reports an error.
pub uninterp spec fn base64_decoded(text: Seq<char>) -> Option<Seq<u8>>;

/// What a `flate2::read::GzDecoder` over `bytes` yields when read to the end
/// as a string: the text, or `None` where reading reports an error.
pub uninterp spec fn gzip_text(bytes: Seq<u8>) -> Option<Seq<char>>;

/// The text that `bytes` encode in UTF-8, or `None` where they encode none.
pub open spec fn utf8_text(bytes: Seq<u8>) -> Option<Seq<char>> {
    if valid_utf8(bytes) {
        Some(decode_utf8(bytes))
    } else {
        None
    }
}

/// Calls `str::to_lowercase`. Trusted: the result is the named value
/// `lowercase_of`.
#[verifier::external_body]
pub(crate) fn to_lowercase(text: &str) -> (r: String)
    ensures
        r@ == lowercase_of(text@),
{
    text.to_lowercase()
}

/// Calls `base64::decode`. Trusted: the result is the named value
/// `base64_decoded`, `None` standing for the crate's error. The crate
/// estimates the decoded length from the length of the input plus three,
/// which must not overflow.
#[verifier::external_body]
pub(crate) fn decode_base64(text: &str) -> (r: Option<Vec<u8>>)
    requires
        encode_utf8(text@).len() + 3 <= usize::MAX,
    ensures
        r.is_some() == base64_decoded(text@).is_some(),
        r.is_some() ==> r.unwrap()@ == base64_decoded(text@).unwrap(),
{
    match base64::decode(text) {
        Ok(bytes) => Some(bytes),
        Err(_) => None,
    }
}

/// Reads a `flate2::read::GzDecoder` over `bytes` to the end with
/// `read_to_string`. Trusted: the result is the named value `gzip_text`,
/// `None` standing for a read error.
#[verifier::external_body]
pub(crate) fn gunzip(bytes: &[u8]) -> (r: Option<String>)
    ensures
        r.is_some() == gzip_text(bytes@).is_some(),
        r.is_some() ==> r.unwrap()@ == gzip_text(bytes@).unwrap(),
{
    let mut decoder = flate2::read::GzDecoder::new(bytes);
    let mut text = String::new();
    match std::io::Read::read_to_string(&mut decoder, &mut text) {
        Ok(_) => Some(text),
        Err(_) => None,
    }
}

/// Calls `std::str::from_utf8`. Trusted: the call succeeds exactly on valid
/// UTF-8 and then yields the characters that the bytes encode.
#[verifier::external_body]
pub(crate) fn decode_utf8_text(bytes: &[u8]) -> (r: Option<String>)
    ensures
        r.is_some() == utf8_text(bytes@).is_some(),
        r.is_some() ==> r.unwrap()@ == utf8_text(bytes@).unwrap(),
{
    match std::str::from_utf8(bytes) {
        Ok(text) => Some(String::from(text)),
        Err(_) => None,
    }
}

} // verus!
