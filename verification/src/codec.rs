//! The encodings in which the substitution plan's portal wraps its
//! documents: base64, gzip and UTF-8.

use std::io::Write;
use vstd::prelude::*;

verus! {

/// The type of the base64 decoder's errors.
#[verifier::external_type_specification]
#[verifier::external_body]
pub struct ExDecodeError(base64::DecodeError);

/// The type of the errors of reading and writing.
#[verifier::external_type_specification]
#[verifier::external_body]
pub struct ExIoError(std::io::Error);

/// The base64 text of bytes, in the standard alphabet with padding.
pub uninterp spec fn base64_text(bytes: Seq<u8>) -> Seq<char>;

/// The bytes that a base64 text in the standard alphabet denotes; nothing
/// for a text that is no such encoding.
pub uninterp spec fn base64_bytes(text: Seq<char>) -> Option<Seq<u8>>;

/// The gzip stream that holds the given bytes, as the compressor writes it
/// at its default level.
pub uninterp spec fn gzipped(bytes: Seq<u8>) -> Option<Seq<u8>>;

/// The bytes that a gzip stream holds; nothing for bytes that are no such
/// stream.
pub uninterp spec fn gunzipped(bytes: Seq<u8>) -> Option<Seq<u8>>;

/// The text that bytes denote in UTF-8, with the replacement character in
/// place of each ill-formed sequence.
pub uninterp spec fn utf8_lossy(bytes: Seq<u8>) -> Seq<char>;

/// `base64::encode`: the text of the bytes in the standard alphabet with
/// padding, which depends on the bytes alone.
#[allow(deprecated)]
#[verifier::external_body]
pub(crate) fn base64_encode(bytes: &Vec<u8>) -> (s: String)
    ensures
        s@ == base64_text(bytes@),
{
    base64::encode(bytes)
}

/// `base64::decode`: the bytes that the text denotes in the standard
/// alphabet, which depend on the text alone, or the decoder's error.
#[allow(deprecated)]
#[verifier::external_body]
pub(crate) fn base64_decode(text: &str) -> (r: core::result::Result<Vec<u8>, base64::DecodeError>)
    ensures
        match r {
            Ok(b) => base64_bytes(text@) == Some(b@),
            Err(_) => base64_bytes(text@) is None,
        },
{
    base64::decode(text)
}

/// `flate2::write::GzEncoder` at the default level, writing to a vector:
/// the gzip stream of the bytes, which depends on the bytes alone, or the
/// error of writing.
#[verifier::external_body]
pub(crate) fn gzip(bytes: &[u8]) -> (r: core::result::Result<Vec<u8>, std::io::Error>)
    ensures
        match r {
            Ok(z) => gzipped(bytes@) == Some(z@),
            Err(_) => gzipped(bytes@) is None,
        },
{
    let mut e = flate2::write::GzEncoder::new(Vec::new(), flate2::Compression::default());
    e.write_all(bytes)?;
    e.finish()
}

/// `flate2::write::GzDecoder`, writing to a vector: the bytes that the gzip
/// stream holds, which depend on the stream alone, or the error of reading
/// it.
#[verifier::external_body]
pub(crate) fn gunzip(bytes: &Vec<u8>) -> (r: core::result::Result<Vec<u8>, std::io::Error>)
    ensures
        match r {
            Ok(d) => gunzipped(bytes@) == Some(d@),
            Err(_) => gunzipped(bytes@) is None,
        },
{
    let mut e = flate2::write::GzDecoder::new(Vec::new());
    e.write_all(bytes)?;
    e.finish()
}

/// `String::from_utf8_lossy`: the text of the bytes, with the replacement
/// character in place of each ill-formed sequence.
#[verifier::external_body]
pub(crate) fn decode_utf8_lossy(bytes: &Vec<u8>) -> (s: String)
    ensures
        s@ == utf8_lossy(bytes@),
{
    String::from_utf8_lossy(bytes).into_owned()
}

/// `chrono::Utc::now` in the format of RFC 3339. The result is the time of
/// the call, of which nothing is claimed.
#[verifier::external_body]
pub(crate) fn now_rfc3339() -> String {
    chrono::Utc::now().to_rfc3339()
}

} // verus!
