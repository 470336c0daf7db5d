//! Request and response bodies: undoing a content encoding before a body is
//! parsed, and the head of the reply that carries an encoded value.
use vstd::prelude::*;

use vstd::slice::slice_to_vec;
use vstd::string::StringExecFns;
use vstd::utf8::encode_utf8;

use crate::domain::{ascii_lower, to_ascii_lowercase};
use crate::error::CodecError;
use crate::object::PackObject;

verus! {

/// What gzip decompression of some bytes yields, if they are a valid gzip
/// stream.
pub uninterp spec fn gunzip_bytes(b: Seq<u8>) -> Option<Seq<u8>>;

/// What zlib (HTTP `deflate`) decompression of some bytes yields, if they
/// are a valid zlib stream.
pub uninterp spec fn inflate_bytes(b: Seq<u8>) -> Option<Seq<u8>>;

/// Relies on libflate's `gzip::Decoder`, read to the end; gives the error
/// text on a malformed stream.
#[verifier::external_body]
fn gunzip(b: &[u8]) -> (r: Result<Vec<u8>, String>)
    ensures
        match r {
            Ok(out) => gunzip_bytes(b@) == Some(out@),
            Err(_) => gunzip_bytes(b@) is None,
        },
{
    let mut out = Vec::new();
    match libflate::gzip::Decoder::new(b) {
        Ok(mut d) => match std::io::Read::read_to_end(&mut d, &mut out) {
            Ok(_) => Ok(out),
            Err(e) => Err(e.to_string()),
        },
        Err(e) => Err(e.to_string()),
    }
}

/// Relies on libflate's `zlib::Decoder`, read to the end; gives the error
/// text on a malformed stream.
#[verifier::external_body]
fn inflate(b: &[u8]) -> (r: Result<Vec<u8>, String>)
    ensures
        match r {
            Ok(out) => inflate_bytes(b@) == Some(out@),
            Err(_) => inflate_bytes(b@) is None,
        },
{
    let mut out = Vec::new();
    match libflate::zlib::Decoder::new(b) {
        Ok(mut d) => match std::io::Read::read_to_end(&mut d, &mut out) {
            Ok(_) => Ok(out),
            Err(e) => Err(e.to_string()),
        },
        Err(e) => Err(e.to_string()),
    }
}

/// Relies on libflate's `gzip::Encoder` writing into memory: it fails only
/// where its sink does, and a `Vec` never does; its output is a gzip stream
/// of the input. The stream's header records the current time, so nothing
/// more is said of its bytes.
#[verifier::external_body]
fn gzip(b: &[u8]) -> (r: Result<Vec<u8>, String>)
    ensures
        r is Ok,
        r matches Ok(out) ==> gunzip_bytes(out@) == Some(b@),
{
    match libflate::gzip::Encoder::new(Vec::new()) {
        Ok(mut e) => match std::io::Write::write_all(&mut e, b) {
            Ok(_) => e.finish().into_result().map_err(|e| e.to_string()),
            Err(e) => Err(e.to_string()),
        },
        Err(e) => Err(e.to_string()),
    }
}

/// The content encodings of a body.
#[derive(Debug, Clone, Copy, PartialEq, Eq)]
pub enum ContentEncoding {
    Identity,
    Gzip,
    Deflate,
    /// An encoding this codec cannot undo.
    Unsupported,
}

/// The content encoding a `Content-Encoding` value names, ignoring ASCII case:
/// identity when absent or empty.
pub open spec fn encoding_named(value: Option<Seq<char>>) -> ContentEncoding {
    match value {
        None => ContentEncoding::Identity,
        Some(v) => {
            let l = ascii_lower(v);
            if l.len() == 0 || l == "identity"@ {
                ContentEncoding::Identity
            } else if l == "gzip"@ || l == "x-gzip"@ {
                ContentEncoding::Gzip
            } else if l == "deflate"@ {
                ContentEncoding::Deflate
            } else {
                ContentEncoding::Unsupported
            }
        },
    }
}

/// What undoing an encoding yields, if it can be undone.
pub open spec fn decoded_with(enc: ContentEncoding, b: Seq<u8>) -> Option<Seq<u8>> {
    match enc {
        ContentEncoding::Identity => Some(b),
        ContentEncoding::Gzip => gunzip_bytes(b),
        ContentEncoding::Deflate => inflate_bytes(b),
        ContentEncoding::Unsupported => None,
    }
}

impl ContentEncoding {
    /// Reads a `Content-Encoding` header value (absent: `None`).
    pub fn from_header_value(value: Option<&str>) -> (r: ContentEncoding)
        ensures
            r == encoding_named(match value {
                Some(v) => Some(v@),
                None => None,
            }),
    {
        match value {
            None => ContentEncoding::Identity,
            Some(v) => {
                let l = to_ascii_lowercase(v);
                if l.as_str().is_empty() || l == String::from_str("identity") {
                    ContentEncoding::Identity
                } else if l == String::from_str("gzip") || l == String::from_str("x-gzip") {
                    ContentEncoding::Gzip
                } else if l == String::from_str("deflate") {
                    ContentEncoding::Deflate
                } else {
                    ContentEncoding::Unsupported
                }
            },
        }
    }

    /// True for the identity encoding, which leaves a body as it is.
    pub fn identity(&self) -> (r: bool)
        ensures
            r == (*self is Identity),
    {
        matches!(self, ContentEncoding::Identity)
    }

    /// Undoes this encoding, giving the reason where it cannot.
    pub fn decode_all(&self, body: Vec<u8>) -> (r: Result<Vec<u8>, String>)
        ensures
            match decoded_with(*self, body@) {
                Some(b) => r matches Ok(out) && out@ == b,
                None => r is Err,
            },
    {
        match self {
            ContentEncoding::Identity => Ok(body),
            ContentEncoding::Gzip => gunzip(body.as_slice()),
            ContentEncoding::Deflate => inflate(body.as_slice()),
            ContentEncoding::Unsupported => Err(String::from_str("unsupported content encoding")),
        }
    }
}

/// Turns a request body into the document to parse: undoes its content
/// encoding and tags the result with the negotiated format. A body that
/// cannot be decompressed is a malformed body in that format.
pub fn decode_body(format: PackObject<()>, content_encoding: Option<&str>, body: Vec<u8>) -> (r:
    Result<PackObject<Vec<u8>>, CodecError>)
    ensures
        match decoded_with(
            encoding_named(
                match content_encoding {
                    Some(v) => Some(v@),
                    None => None,
                },
            ),
            body@,
        ) {
            Some(b) => r matches Ok(p) && p@ == PackObject::<()>::tagged(format.is_text(), b),
            None => r matches Err(CodecError::MalformedBody { format: f, .. }) && f == format,
        },
{
    let enc = ContentEncoding::from_header_value(content_encoding);
    match enc.decode_all(body) {
        Ok(b) => Ok(format.with(b)),
        Err(reason) => Err(CodecError::MalformedBody { format, reason }),
    }
}

/// The smallest outgoing body worth compressing.
pub const COMPRESS_MIN_LENGTH: usize = 512;

/// Prepares an outgoing body: bodies of at least `COMPRESS_MIN_LENGTH`
/// bytes are gzip-compressed. Returns the bytes to send and whether they are
/// compressed; compressed bytes decompress back to the body.
pub fn encode_outgoing(data: Vec<u8>) -> (r: (Vec<u8>, bool))
    ensures
        r.1 == (data@.len() >= COMPRESS_MIN_LENGTH),
        !r.1 ==> r.0@ == data@,
        r.1 ==> gunzip_bytes(r.0@) == Some(data@),
{
    if data.len() >= COMPRESS_MIN_LENGTH {
        match gzip(data.as_slice()) {
            Ok(out) => (out, true),
            Err(_) => vstd::pervasive::unreached(),
        }
    } else {
        (data, false)
    }
}

/// The media type of a value's format.
pub open spec fn media_type_of(text: bool) -> Seq<char> {
    if text {
        "application/json"@
    } else {
        "application/cbor"@
    }
}

/// The plain-text media type of a serialization failure.
pub open spec fn text_plain() -> Seq<char> {
    "text/plain; charset=utf-8"@
}

/// The `Content-Type` of a value in the given format.
pub fn content_type_of<T>(v: &PackObject<T>) -> (r: &'static str)
    ensures
        r@ == media_type_of(v.is_text()),
{
    match v {
        PackObject::Json(_) => "application/json",
        PackObject::Cbor(_) => "application/cbor",
    }
}

/// An HTTP reply: status, `Content-Type` and body.
#[derive(Debug, Clone, PartialEq, Eq)]
pub struct Reply {
    pub status: u16,
    pub content_type: String,
    pub body: Vec<u8>,
}

/// The reply that carries a value encoded in the format `format`: the
/// encoded bytes with the format's media type, or, where serialization
/// failed, an internal server error whose plain-text body gives the cause.
pub fn reply_for(format: &PackObject<()>, encoded: Result<Vec<u8>, String>) -> (r: Reply)
    ensures
        match encoded {
            Ok(b) => r.status == 200 && r.content_type@ == media_type_of(format.is_text())
                && r.body@ == b@,
            Err(m) => r.status == 500 && r.content_type@ == text_plain() && r.body@
                == encode_utf8(m@),
        },
{
    match encoded {
        Ok(body) => Reply {
            status: 200,
            content_type: String::from_str(content_type_of(format)),
            body,
        },
        Err(m) => Reply {
            status: 500,
            content_type: String::from_str("text/plain; charset=utf-8"),
            body: slice_to_vec(m.as_str().as_bytes()),
        },
    }
}

} // verus!
