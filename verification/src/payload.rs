//! Compression sniffing and byte-to-text decoding of a request body.

use vstd::prelude::*;
use vstd::string::StringExecFns;
use vstd::utf8::decode_utf8;
use vstd::utf8::valid_utf8;

use crate::api::CaptureError;

verus! {

/// What the raw bytes actually are, decided by looking at them alone.
#[derive(Debug, Clone, Copy, PartialEq, Eq, Structural)]
pub enum SniffedEncoding {
    Gzip,
    PlainText,
}

/// True when the buffer opens with the three gzip magic bytes.
pub open spec fn spec_gzip_magic(b: Seq<u8>) -> bool {
    b.len() >= 3 && b[0] == 0x1f && b[1] == 0x8b && b[2] == 0x08
}

/// Classifies a request body by its first three bytes: the gzip magic
/// sequence means gzip, anything else (including short or empty buffers) is
/// plain text. The classification takes no declared hint, so it cannot be
/// swayed by one: declared compression is often wrong or absent.
pub fn sniff_compression(bytes: &[u8]) -> (r: SniffedEncoding)
    ensures
        r == SniffedEncoding::Gzip <==> spec_gzip_magic(bytes@),
        r == SniffedEncoding::PlainText <==> !spec_gzip_magic(bytes@),
{
    if bytes.len() >= 3 && bytes[0] == 0x1f && bytes[1] == 0x8b && bytes[2] == 0x08 {
        SniffedEncoding::Gzip
    } else {
        SniffedEncoding::PlainText
    }
}

/// The outcome of fully decompressing a gzip stream and reading it as UTF-8
/// text: `None` when the stream is corrupt, truncated, not gzip after all, or
/// not UTF-8. Decompression depends on the bytes alone, so it can be named.
pub uninterp spec fn gunzip_text(b: Seq<u8>) -> Option<Seq<char>>;

/// Relies on `flate2::read::GzDecoder` driven by std's
/// `Read::read_to_string`: decompresses the whole stream into a string,
/// failing on any invalid input. The outcome is `gunzip_text` of the bytes.
#[verifier::external_body]
fn gunzip(bytes: &[u8]) -> (r: Option<String>)
    ensures
        match r {
            Some(s) => gunzip_text(bytes@) == Some(s@),
            None => gunzip_text(bytes@) is None,
        },
{
    let mut d = flate2::read::GzDecoder::new(bytes);
    let mut s = String::new();
    match std::io::Read::read_to_string(&mut d, &mut s) {
        Ok(_) => Some(s),
        Err(_) => None,
    }
}

/// Relies on `String::from_utf8` (std): succeeds exactly on valid UTF-8 and
/// then returns the decoded characters.
#[verifier::external_body]
fn utf8_text(bytes: &[u8]) -> (r: Option<String>)
    ensures
        match r {
            Some(s) => valid_utf8(bytes@) && s@ == decode_utf8(bytes@),
            None => !valid_utf8(bytes@),
        },
{
    match String::from_utf8(bytes.to_vec()) {
        Ok(s) => Some(s),
        Err(_) => None,
    }
}

/// The text a request body decodes to, or `None` when it cannot: a body that
/// opens with the gzip magic bytes must decompress, any other body must be
/// valid UTF-8 as it stands.
pub open spec fn spec_payload_text(b: Seq<u8>) -> Option<Seq<char>> {
    if spec_gzip_magic(b) {
        gunzip_text(b)
    } else if valid_utf8(b) {
        Some(decode_utf8(b))
    } else {
        None
    }
}

/// Turns a request body into UTF-8 text, trusting the sniffed classification
/// over any declared hint. The whole buffer is accepted or rejected: no
/// partial text is ever returned, and the error names the cause.
pub fn decode_payload(bytes: &[u8]) -> (r: Result<String, CaptureError>)
    ensures
        match r {
            Ok(s) => spec_payload_text(bytes@) == Some(s@),
            Err(e) => {
                &&& spec_payload_text(bytes@) is None
                &&& spec_gzip_magic(bytes@) ==> (e matches CaptureError::RequestDecodingError(d)
                    && d@ == "invalid gzip data"@)
                &&& !spec_gzip_magic(bytes@) ==> (e matches CaptureError::RequestDecodingError(d)
                    && d@ == "invalid body encoding"@)
            },
        },
{
    match sniff_compression(bytes) {
        SniffedEncoding::Gzip => match gunzip(bytes) {
            Some(s) => Ok(s),
            None => Err(
                CaptureError::RequestDecodingError(String::from_str("invalid gzip data")),
            ),
        },
        SniffedEncoding::PlainText => match utf8_text(bytes) {
            Some(s) => Ok(s),
            None => Err(
                CaptureError::RequestDecodingError(String::from_str("invalid body encoding")),
            ),
        },
    }
}

} // verus!
