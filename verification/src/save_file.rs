//! From the text of a save file to the save's bytes: the text is Base64 (standard alphabet)
//! of a zlib stream.
use base64::prelude::BASE64_STANDARD;
use base64::Engine;
use std::io::Read;
use vstd::prelude::*;

verus! {

#[verifier::external_type_specification]
#[verifier::external_body]
pub struct ExDecodeError(base64::DecodeError);

#[verifier::external_type_specification]
#[verifier::external_body]
pub struct ExIoError(std::io::Error);

/// A character with the Unicode property `White_Space`, as `char::is_whitespace` defines it.
pub open spec fn is_white_space(c: char) -> bool {
    ||| '\u{9}' <= c <= '\u{d}'
    ||| c == ' '
    ||| c == '\u{85}'
    ||| c == '\u{a0}'
    ||| c == '\u{1680}'
    ||| '\u{2000}' <= c <= '\u{200a}'
    ||| c == '\u{2028}'
    ||| c == '\u{2029}'
    ||| c == '\u{202f}'
    ||| c == '\u{205f}'
    ||| c == '\u{3000}'
}

/// The text without its leading white space.
pub open spec fn trimmed_start(text: Seq<char>) -> Seq<char>
    decreases text.len(),
{
    if text.len() > 0 && is_white_space(text[0]) {
        trimmed_start(text.drop_first())
    } else {
        text
    }
}

/// The text without its trailing white space.
pub open spec fn trimmed_end(text: Seq<char>) -> Seq<char>
    decreases text.len(),
{
    if text.len() > 0 && is_white_space(text.last()) {
        trimmed_end(text.drop_last())
    } else {
        text
    }
}

/// The text without its leading and trailing white space.
pub open spec fn trimmed(text: Seq<char>) -> Seq<char> {
    trimmed_end(trimmed_start(text))
}

/// What Base64 decoding with the standard alphabet and padding gives of a text, where it
/// is valid Base64.
pub uninterp spec fn base64_standard_decode(text: Seq<char>) -> Option<Seq<u8>>;

/// What inflating a zlib stream gives, where it is a valid zlib stream.
pub uninterp spec fn zlib_inflate(compressed: Seq<u8>) -> Option<Seq<u8>>;

/// `str::trim`: the text without its leading and trailing white space, white space being
/// what `char::is_whitespace` accepts (the Unicode property `White_Space`).
#[verifier::external_body]
fn trim(text: &str) -> (t: &str)
    ensures
        t@ == trimmed(text@),
{
    text.trim()
}

/// `base64::engine::GeneralPurpose::decode` with `BASE64_STANDARD`: the bytes that the text
/// encodes, or the error that makes it invalid. The result is named, not stated.
#[verifier::external_body]
fn decode_base64(text: &str) -> (res: Result<Vec<u8>, base64::DecodeError>)
    ensures
        match res {
            Ok(bytes) => base64_standard_decode(text@) == Some(bytes@),
            Err(_) => base64_standard_decode(text@) is None,
        },
{
    BASE64_STANDARD.decode(text)
}

/// `flate2::read::ZlibDecoder` read to its end over `compressed`: the inflated bytes, or the
/// error that stopped inflating. The result is named, not stated.
#[verifier::external_body]
fn inflate_zlib(compressed: &[u8]) -> (res: Result<Vec<u8>, std::io::Error>)
    ensures
        match res {
            Ok(bytes) => zlib_inflate(compressed@) == Some(bytes@),
            Err(_) => zlib_inflate(compressed@) is None,
        },
{
    let mut decoder = flate2::read::ZlibDecoder::new(compressed);
    let mut save = Vec::new();
    match decoder.read_to_end(&mut save) {
        Ok(_) => Ok(save),
        Err(e) => Err(e),
    }
}

/// Why the text of a save file gave no save bytes.
#[derive(Debug)]
pub enum OpenSaveError {
    /// The text is not valid Base64.
    Base64(base64::DecodeError),
    /// The decoded bytes are not a valid zlib stream.
    Zlib { error: std::io::Error, compressed: Vec<u8> },
}

/// The save bytes from the text of a save file: the trimmed text is Base64-decoded, then
/// inflated as zlib.
pub fn decode_save_text(save: &str) -> (res: Result<Vec<u8>, OpenSaveError>)
    ensures
        match base64_standard_decode(trimmed(save@)) {
            None => res matches Err(OpenSaveError::Base64(_)),
            Some(compressed) => match zlib_inflate(compressed) {
                None => res matches Err(OpenSaveError::Zlib { compressed: c, .. }) && c@ == compressed,
                Some(bytes) => res matches Ok(b) && b@ == bytes,
            },
        },
{
    let zlib_bytes = match decode_base64(trim(save)) {
        Ok(bytes) => bytes,
        Err(e) => return Err(OpenSaveError::Base64(e)),
    };
    match inflate_zlib(zlib_bytes.as_slice()) {
        Ok(save) => Ok(save),
        Err(error) => Err(OpenSaveError::Zlib { error, compressed: zlib_bytes }),
    }
}

} // verus!
