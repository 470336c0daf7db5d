use std::collections::HashSet;

use axum_web::body::{
    content_type_of, decode_body, encode_outgoing, reply_for, ContentEncoding, Reply,
    COMPRESS_MIN_LENGTH,
};
use axum_web::error::{CodecError, DomainError};
use axum_web::negotiate::{accept_to_format, contains, content_type_to_format, media_type_format, negotiate};
use axum_web::object::PackObject;
use axum_web::review::{review_cutoff, review_step, status_after, ReviewStep, REVIEW_DELAY_MS};

#[test]
fn content_type_wins_over_accept() {
    assert_eq!(
        negotiate(Some("application/cbor"), Some("application/json")),
        Ok(PackObject::Cbor(()))
    );
    assert_eq!(
        negotiate(Some("application/json"), Some("application/cbor")),
        Ok(PackObject::Json(()))
    );
}

#[test]
fn accept_fallback_checks_binary_first() {
    assert_eq!(
        negotiate(None, Some("application/json, application/cbor;q=0.9")),
        Ok(PackObject::Cbor(()))
    );
    assert_eq!(negotiate(None, Some("text/html, application/json")), Ok(PackObject::Json(())));
    assert_eq!(negotiate(Some("text/plain"), Some("application/json")), Ok(PackObject::Json(())));
}

#[test]
fn negotiation_failure_carries_content_type() {
    assert_eq!(
        negotiate(Some("text/plain"), Some("text/html")),
        Err(CodecError::UnsupportedMediaType("text/plain".to_string()))
    );
    assert_eq!(negotiate(None, None), Err(CodecError::UnsupportedMediaType(String::new())));
    assert_eq!(
        negotiate(Some("not a media type"), None),
        Err(CodecError::UnsupportedMediaType("not a media type".to_string()))
    );
}

#[test]
fn content_type_suffixes_and_case() {
    assert_eq!(content_type_to_format("application/vnd.api+json"), Some(PackObject::Json(())));
    assert_eq!(content_type_to_format("application/problem+cbor"), Some(PackObject::Cbor(())));
    assert_eq!(content_type_to_format("Application/CBOR; charset=utf-8"), Some(PackObject::Cbor(())));
    assert_eq!(content_type_to_format("application/json; charset=utf-8"), Some(PackObject::Json(())));
    assert_eq!(content_type_to_format("text/json"), None);
    assert_eq!(content_type_to_format("application/xml"), None);
    assert_eq!(media_type_format("APPLICATION", "x", Some("Json")), Some(PackObject::Json(())));
    assert_eq!(media_type_format("application", "cbor", Some("json")), Some(PackObject::Cbor(())));
}

#[test]
fn accept_and_substring_search() {
    assert_eq!(accept_to_format("*/*"), None);
    assert_eq!(accept_to_format("application/cbor"), Some(PackObject::Cbor(())));
    assert!(contains("abcabd", "abd"));
    assert!(contains("abc", ""));
    assert!(!contains("ab", "abc"));
    assert!(!contains("application/jso", "application/json"));
}

#[test]
fn body_identity_and_gzip() {
    let doc: Vec<u8> = (0..COMPRESS_MIN_LENGTH + 100).map(|i| (i % 7) as u8).collect();
    let (gz, compressed) = encode_outgoing(doc.clone());
    assert!(compressed);
    assert_ne!(gz, doc);
    assert_eq!(decode_body(PackObject::Cbor(()), Some("gzip"), gz.clone()), Ok(PackObject::Cbor(doc.clone())));
    assert_eq!(decode_body(PackObject::Json(()), Some("GZIP"), gz), Ok(PackObject::Json(doc.clone())));
    assert_eq!(decode_body(PackObject::Json(()), None, doc.clone()), Ok(PackObject::Json(doc.clone())));
    assert_eq!(decode_body(PackObject::Json(()), Some("identity"), doc.clone()), Ok(PackObject::Json(doc)));
}

#[test]
fn small_outgoing_body_is_not_compressed() {
    let small = vec![1u8, 2, 3];
    assert_eq!(encode_outgoing(small.clone()), (small, false));
    let edge = vec![0u8; COMPRESS_MIN_LENGTH - 1];
    assert_eq!(encode_outgoing(edge.clone()), (edge, false));
    let at_limit = vec![0u8; COMPRESS_MIN_LENGTH];
    let (gz, compressed) = encode_outgoing(at_limit.clone());
    assert!(compressed);
    assert_eq!(decode_body(PackObject::Cbor(()), Some("gzip"), gz), Ok(PackObject::Cbor(at_limit)));
}

#[test]
fn body_that_cannot_be_decompressed_is_malformed() {
    let r = decode_body(PackObject::Cbor(()), Some("gzip"), vec![1, 2, 3]);
    assert!(matches!(r, Err(CodecError::MalformedBody { format: PackObject::Cbor(()), .. })));
    let r = decode_body(PackObject::Json(()), Some("br"), vec![1, 2, 3]);
    assert!(matches!(r, Err(CodecError::MalformedBody { format: PackObject::Json(()), .. })));
    let r = decode_body(PackObject::Json(()), Some("deflate"), vec![9, 9]);
    assert!(matches!(r, Err(CodecError::MalformedBody { .. })));
}

#[test]
fn content_encoding_names() {
    assert_eq!(ContentEncoding::from_header_value(None), ContentEncoding::Identity);
    assert_eq!(ContentEncoding::from_header_value(Some("")), ContentEncoding::Identity);
    assert_eq!(ContentEncoding::from_header_value(Some("x-gzip")), ContentEncoding::Gzip);
    assert_eq!(ContentEncoding::from_header_value(Some("Deflate")), ContentEncoding::Deflate);
    assert_eq!(ContentEncoding::from_header_value(Some("zstd")), ContentEncoding::Unsupported);
    assert!(ContentEncoding::Identity.identity());
    assert!(!ContentEncoding::Gzip.identity());
}

#[test]
fn replies() {
    assert_eq!(content_type_of(&PackObject::Json(1u8)), "application/json");
    assert_eq!(content_type_of(&PackObject::Cbor(1u8)), "application/cbor");
    assert_eq!(
        reply_for(&PackObject::Cbor(()), Ok(vec![0xf6])),
        Reply { status: 200, content_type: "application/cbor".to_string(), body: vec![0xf6] }
    );
    assert_eq!(
        reply_for(&PackObject::Json(()), Err("boom".to_string())),
        Reply {
            status: 500,
            content_type: "text/plain; charset=utf-8".to_string(),
            body: b"boom".to_vec()
        }
    );
}

#[test]
fn error_statuses() {
    assert_eq!(CodecError::UnsupportedMediaType(String::new()).status(), 415);
    let m = CodecError::MalformedBody { format: PackObject::Json(()), reason: "x".to_string() };
    assert_eq!(m.status(), 400);
    assert!(m.is_client_error());
    assert_eq!(CodecError::UnknownDomainValue(DomainError::UnknownLanguage).status(), 400);
    let f = CodecError::SerializationFault("x".to_string());
    assert_eq!(f.status(), 500);
    assert!(!f.is_client_error());
}

#[test]
fn pack_object_projections() {
    let v = PackObject::Cbor(5u32);
    assert_eq!(v.unit(), PackObject::Cbor(()));
    assert_eq!(v.with("a"), PackObject::Cbor("a"));
    assert_eq!(*v.unwrap_ref(), 5);
    assert_eq!(*v, 5);
    assert_eq!(*v.as_ref(), 5);
    assert_eq!(v.with_option(Some(1i8)), Some(PackObject::Cbor(1i8)));
    assert_eq!(v.with_option::<i8>(None), None);
    assert_eq!(
        PackObject::Json(()).with_vec(vec![1, 2, 3]),
        vec![PackObject::Json(1), PackObject::Json(2), PackObject::Json(3)]
    );
    let (unit, inner) = PackObject::Json("x".to_string()).unpack();
    assert_eq!(unit, PackObject::Json(()));
    assert_eq!(inner, "x");
    assert_eq!(PackObject::Cbor(7).unwrap(), 7);
    assert_eq!(PackObject::<u8>::default(), PackObject::Json(0));
}

#[test]
fn pack_object_with_set() {
    let set: HashSet<u16> = [3, 1, 2].into_iter().collect();
    let mut out = PackObject::Cbor(()).with_set(set);
    out.sort_by_key(|p| *p.unwrap_ref());
    assert_eq!(out, vec![PackObject::Cbor(1), PackObject::Cbor(2), PackObject::Cbor(3)]);
    assert!(PackObject::Json(()).with_set(HashSet::<u8>::new()).is_empty());
}

#[test]
fn review_steps() {
    assert_eq!(review_step(-1, 0, 100), ReviewStep::Skip);
    assert_eq!(review_step(0, 101, 100), ReviewStep::Skip);
    assert_eq!(review_step(0, 100, 100), ReviewStep::Publish);
    assert_eq!(review_step(2, 50, 100), ReviewStep::Acknowledge);
    assert_eq!(status_after(ReviewStep::Publish, 0), 1);
    assert_eq!(status_after(ReviewStep::Acknowledge, 2), 2);
    assert_eq!(review_cutoff(1_000_000), 1_000_000 - REVIEW_DELAY_MS);
    assert_eq!(review_cutoff(0), -480_000);
    assert_eq!(review_cutoff(u64::MAX), i64::MAX - 480_000);
}

#[test]
fn body_deflate_is_zlib() {
    let doc = b"{\"a\":1}".to_vec();
    let mut enc = libflate::zlib::Encoder::new(Vec::new()).unwrap();
    std::io::Write::write_all(&mut enc, &doc).unwrap();
    let z = enc.finish().into_result().unwrap();
    assert_eq!(decode_body(PackObject::Json(()), Some("deflate"), z), Ok(PackObject::Json(doc)));
}
