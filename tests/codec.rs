use axum_web::codec::{
    classify_language, decode_bytes, decode_language, decode_unit, decode_uuid, decode_xid,
    encode_bytes, encode_language, encode_unit, encode_uuid, encode_xid,
};
use axum_web::domain::{Language, Uuid, Xid};
use axum_web::error::DomainError;
use axum_web::object::PackObject;
use axum_web::wire::Wire;

fn seq_xid() -> Xid {
    Xid::from_raw([1, 2, 3, 4, 5, 6, 7, 8, 9, 10, 11, 12])
}

fn seq_uuid() -> Uuid {
    Uuid::from_raw([0, 1, 2, 3, 4, 5, 6, 7, 8, 9, 10, 11, 12, 13, 14, 15])
}

fn english() -> Language {
    Language::lookup("eng").unwrap()
}

#[test]
fn bytes_round_trip_both_formats() {
    for v in [PackObject::Json(vec![0u8, 1, 250, 255]), PackObject::Cbor(vec![0u8, 1, 250, 255])] {
        let w = encode_bytes(&v);
        assert_eq!(decode_bytes(w), Ok(v));
    }
    for v in [PackObject::Json(Vec::<u8>::new()), PackObject::Cbor(Vec::<u8>::new())] {
        assert_eq!(decode_bytes(encode_bytes(&v)), Ok(v));
    }
}

#[test]
fn bytes_text_shape_is_base64url_without_padding() {
    assert_eq!(encode_bytes(&PackObject::Json(vec![0xfb, 0xff])), Wire::Text("-_8".to_string()));
    assert_eq!(encode_bytes(&PackObject::Cbor(vec![0xfb, 0xff])), Wire::Bytes(vec![0xfb, 0xff]));
    assert_eq!(decode_bytes(Wire::Text("-_8".to_string())), Ok(PackObject::Json(vec![0xfb, 0xff])));
}

#[test]
fn malformed_base64url_is_an_error() {
    let r = decode_bytes(Wire::Text("not base64!".to_string()));
    assert!(matches!(r, Err(DomainError::Malformed(_))));
    let r = decode_bytes(Wire::Text("+/8".to_string()));
    assert!(matches!(r, Err(DomainError::Malformed(_))));
    assert_eq!(decode_bytes(Wire::Unit), Err(DomainError::UnexpectedShape));
}

#[test]
fn xid_round_trip_both_formats() {
    for v in [PackObject::Json(seq_xid()), PackObject::Cbor(seq_xid())] {
        assert_eq!(decode_xid(encode_xid(&v)), Ok(v));
    }
}

#[test]
fn xid_shapes() {
    let zero = Xid::from_raw([0; 12]);
    assert_eq!(encode_xid(&PackObject::Json(zero)), Wire::Text("00000000000000000000".to_string()));
    assert_eq!(encode_xid(&PackObject::Cbor(zero)), Wire::Bytes(vec![0; 12]));
    let jarvis = Xid::parse("0000000000000jarvis0").unwrap();
    assert_eq!(jarvis.to_text(), "0000000000000jarvis0");
}

#[test]
fn xid_classified_by_observed_shape() {
    let x = seq_xid();
    let raw = x.raw().to_vec();
    assert_eq!(decode_xid(Wire::Bytes(raw)), Ok(PackObject::Cbor(x)));
    assert_eq!(decode_xid(Wire::Text(x.to_text())), Ok(PackObject::Json(x)));
}

#[test]
fn xid_wrong_length_and_bad_text() {
    assert_eq!(
        decode_xid(Wire::Bytes(vec![0; 11])),
        Err(DomainError::InvalidLength { expected: 12, got: 11 })
    );
    assert!(matches!(decode_xid(Wire::Text("xyz".to_string())), Err(DomainError::Malformed(_))));
    assert_eq!(decode_xid(Wire::Unit), Err(DomainError::UnexpectedShape));
}

#[test]
fn uuid_round_trip_both_formats() {
    for v in [PackObject::Json(seq_uuid()), PackObject::Cbor(seq_uuid())] {
        assert_eq!(decode_uuid(encode_uuid(&v)), Ok(v));
    }
}

#[test]
fn uuid_shapes() {
    assert_eq!(
        encode_uuid(&PackObject::Json(seq_uuid())),
        Wire::Text("00010203-0405-0607-0809-0a0b0c0d0e0f".to_string())
    );
    assert_eq!(encode_uuid(&PackObject::Cbor(seq_uuid())), Wire::Bytes((0u8..16).collect()));
    assert_eq!(
        decode_uuid(Wire::Text("00010203-0405-0607-0809-0A0B0C0D0E0F".to_string())),
        Ok(PackObject::Json(seq_uuid()))
    );
}

#[test]
fn uuid_fifteen_bytes_cites_expected_length() {
    assert_eq!(
        decode_uuid(Wire::Bytes(vec![7; 15])),
        Err(DomainError::InvalidLength { expected: 16, got: 15 })
    );
    assert!(matches!(decode_uuid(Wire::Text("nope".to_string())), Err(DomainError::Malformed(_))));
}

#[test]
fn language_code_and_name_classify_by_length() {
    let eng = english();
    assert_eq!(eng.code(), "eng");
    assert_eq!(decode_language(Wire::Text("eng".to_string())), Ok(PackObject::Cbor(eng.clone())));
    assert_eq!(decode_language(Wire::Text("english".to_string())), Ok(PackObject::Json(eng.clone())));
    assert_eq!(decode_language(Wire::Text("ENG".to_string())), Ok(PackObject::Cbor(eng.clone())));
    assert_eq!(decode_language(Wire::Text("en".to_string())), Ok(PackObject::Json(eng)));
}

#[test]
fn language_unknown_or_wrong_shape() {
    assert_eq!(
        decode_language(Wire::Text("klingonish".to_string())),
        Err(DomainError::UnknownLanguage)
    );
    assert_eq!(decode_language(Wire::Bytes(b"eng".to_vec())), Err(DomainError::UnexpectedShape));
    assert_eq!(decode_language(Wire::Unit), Err(DomainError::UnexpectedShape));
}

#[test]
fn language_classification_of_a_lookup() {
    let eng = english();
    assert_eq!(classify_language("eng", Some(eng.clone())), Ok(PackObject::Cbor(eng.clone())));
    assert_eq!(classify_language("English", Some(eng.clone())), Ok(PackObject::Json(eng)));
    assert_eq!(classify_language("zz", None), Err(DomainError::UnknownLanguage));
}

#[test]
fn language_round_trip_both_formats() {
    for v in [PackObject::Json(english()), PackObject::Cbor(english())] {
        assert_eq!(decode_language(encode_language(&v)), Ok(v));
    }
    let deu = Language::lookup("de").unwrap();
    let v = PackObject::Cbor(deu);
    assert_eq!(decode_language(encode_language(&v)), Ok(v));
}

#[test]
fn language_text_shape_is_autonym() {
    let deu = Language::lookup("German").unwrap();
    assert_eq!(deu.code(), "deu");
    assert_eq!(encode_language(&PackObject::Json(deu.clone())), Wire::Text("Deutsch".to_string()));
    assert_eq!(encode_language(&PackObject::Cbor(deu.clone())), Wire::Text("deu".to_string()));
    // the autonym is not one of the names the lookup accepts in lowercase
    assert_eq!(
        decode_language(Wire::Text("Deutsch".to_string())),
        Err(DomainError::UnknownLanguage)
    );
}

#[test]
fn language_three_character_autonym_reads_as_binary() {
    let lao = Language::lookup("lao").unwrap();
    let w = encode_language(&PackObject::Json(lao.clone()));
    assert_eq!(w, Wire::Text("ລາວ".to_string()));
    assert_eq!(decode_language(w), Ok(PackObject::Cbor(lao)));
}

#[test]
fn unit_keeps_the_negotiated_format() {
    assert_eq!(encode_unit(&PackObject::Json(())), Wire::Unit);
    assert_eq!(encode_unit(&PackObject::Cbor(())), Wire::Unit);
    assert_eq!(decode_unit(PackObject::Cbor(()), Wire::Unit), Ok(PackObject::Cbor(())));
    assert_eq!(decode_unit(PackObject::Json(()), Wire::Unit), Ok(PackObject::Json(())));
    assert_eq!(
        decode_unit(PackObject::Json(()), Wire::Text(String::new())),
        Err(DomainError::UnexpectedShape)
    );
}

#[test]
fn concurrent_decodes_do_not_interfere() {
    let rt = tokio::runtime::Builder::new_multi_thread().worker_threads(4).build().unwrap();
    let handles: Vec<_> = (0u8..128)
        .map(|i| {
            rt.spawn(async move {
                let mut raw = [0u8; 12];
                raw[0] = i;
                raw[11] = 255 - i;
                let x = Xid::from_raw(raw);
                let w = if i % 2 == 0 { x.to_text() } else { String::new() };
                let decoded = if i % 2 == 0 {
                    decode_xid(Wire::Text(w))
                } else {
                    decode_xid(Wire::Bytes(raw.to_vec()))
                };
                (i, x, decoded)
            })
        })
        .collect();
    for h in handles {
        let (i, x, decoded) = rt.block_on(h).unwrap();
        let expected = if i % 2 == 0 { PackObject::Json(x) } else { PackObject::Cbor(x) };
        assert_eq!(decoded, Ok(expected));
    }
}

#[test]
fn language_without_autonym_is_written_by_english_name() {
    let ghotuo = Language::lookup("aaa").unwrap();
    let v = PackObject::Json(ghotuo);
    let w = encode_language(&v);
    assert_eq!(w, Wire::Text("Ghotuo".to_string()));
    assert_eq!(decode_language(w), Ok(v));
}
