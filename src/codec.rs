//! The per-type wire rules. Each type is written in its native shape for the
//! value's format, and read back from either shape, the result being tagged
//! by the shape that was actually found.
use vstd::prelude::*;

use vstd::slice::slice_to_vec;

use crate::domain::{
    ascii_lower, base64url_bytes, base64url_text, is_code3, language_lookup,
    language_text, uuid_bytes, uuid_text, xid_bytes, xid_text, Language, Uuid, Xid,
};
use crate::error::DomainError;
use crate::object::PackObject;
use crate::wire::{Wire, WireValue};

verus! {

/// A wire shape as the specifications see it.
pub type WireModel = Wire<Seq<u8>, Seq<char>>;

/// A byte blob on the wire: base64url text in the text format, raw bytes in
/// the binary one.
pub open spec fn blob_wire(v: PackObject<Seq<u8>>) -> WireModel {
    match v {
        PackObject::Json(b) => Wire::Text(base64url_text(b)),
        PackObject::Cbor(b) => Wire::Bytes(b),
    }
}

/// What a byte blob is read as, tagged by the shape found.
pub open spec fn blob_from_wire(w: WireModel) -> Option<PackObject<Seq<u8>>> {
    match w {
        Wire::Bytes(b) => Some(PackObject::Cbor(b)),
        Wire::Text(s) => match base64url_bytes(s) {
            Some(b) => Some(PackObject::Json(b)),
            None => None,
        },
        Wire::Unit => None,
    }
}

/// An xid on the wire: its 20-character text, or its 12 raw bytes.
pub open spec fn xid_wire(v: PackObject<Seq<u8>>) -> WireModel {
    match v {
        PackObject::Json(b) => Wire::Text(xid_text(b)),
        PackObject::Cbor(b) => Wire::Bytes(b),
    }
}

/// What an xid is read as, tagged by the shape found.
pub open spec fn xid_from_wire(w: WireModel) -> Option<PackObject<Seq<u8>>> {
    match w {
        Wire::Bytes(b) => if b.len() == 12 {
            Some(PackObject::Cbor(b))
        } else {
            None
        },
        Wire::Text(s) => match xid_bytes(s) {
            Some(b) => Some(PackObject::Json(b)),
            None => None,
        },
        Wire::Unit => None,
    }
}

/// A UUID on the wire: its hyphenated text, or its 16 raw bytes.
pub open spec fn uuid_wire(v: PackObject<Seq<u8>>) -> WireModel {
    match v {
        PackObject::Json(b) => Wire::Text(uuid_text(b)),
        PackObject::Cbor(b) => Wire::Bytes(b),
    }
}

/// What a UUID is read as, tagged by the shape found.
pub open spec fn uuid_from_wire(w: WireModel) -> Option<PackObject<Seq<u8>>> {
    match w {
        Wire::Bytes(b) => if b.len() == 16 {
            Some(PackObject::Cbor(b))
        } else {
            None
        },
        Wire::Text(s) => match uuid_bytes(s) {
            Some(b) => Some(PackObject::Json(b)),
            None => None,
        },
        Wire::Unit => None,
    }
}

/// A language on the wire: a name in the text format, its three-letter
/// code in the binary one; a string either way.
pub open spec fn language_wire(v: PackObject<Seq<char>>) -> WireModel {
    match v {
        PackObject::Json(c) => Wire::Text(language_text(c)),
        PackObject::Cbor(c) => Wire::Text(c),
    }
}

/// The format a language string is taken to be written in: binary for
/// exactly three characters, text otherwise.
pub open spec fn language_tag(s: Seq<char>, c: Seq<char>) -> PackObject<Seq<char>> {
    if s.len() == 3 {
        PackObject::Cbor(c)
    } else {
        PackObject::Json(c)
    }
}

/// What a language is read as: the language the string names in any letter
/// case, tagged by the string's length.
pub open spec fn language_from_wire(w: WireModel) -> Option<PackObject<Seq<char>>> {
    match w {
        Wire::Text(s) => match language_lookup(ascii_lower(s)) {
            Some(c) => Some(language_tag(s, c)),
            None => None,
        },
        _ => None,
    }
}

/// What the "no payload" marker is read as: the unit shape carries no
/// format of its own, so it keeps the negotiated one.
pub open spec fn unit_from_wire(format: PackObject<()>, w: WireModel) -> Option<PackObject<()>> {
    match w {
        Wire::Unit => Some(format),
        _ => None,
    }
}

/// Writes a byte blob in its value's format.
pub fn encode_bytes(v: &PackObject<Vec<u8>>) -> (r: WireValue)
    ensures
        r@ == blob_wire(v@),
        blob_from_wire(r@) == Some(v@),
{
    match v {
        PackObject::Json(b) => Wire::Text(crate::domain::encode_base64url(b.as_slice())),
        PackObject::Cbor(b) => Wire::Bytes(slice_to_vec(b.as_slice())),
    }
}

/// Reads a byte blob from either shape.
pub fn decode_bytes(w: WireValue) -> (r: Result<PackObject<Vec<u8>>, DomainError>)
    ensures
        match blob_from_wire(w@) {
            Some(p) => r matches Ok(q) && q@ == p,
            None => r is Err,
        },
        w is Unit ==> r == Err::<PackObject<Vec<u8>>, DomainError>(DomainError::UnexpectedShape),
        w is Text && r is Err ==> r matches Err(DomainError::Malformed(_)),
{
    match w {
        Wire::Bytes(b) => Ok(PackObject::Cbor(b)),
        Wire::Text(s) => match crate::domain::decode_base64url(s.as_str()) {
            Ok(b) => Ok(PackObject::Json(b)),
            Err(m) => Err(DomainError::Malformed(m)),
        },
        Wire::Unit => Err(DomainError::UnexpectedShape),
    }
}

/// Writes an xid in its value's format.
pub fn encode_xid(v: &PackObject<Xid>) -> (r: WireValue)
    ensures
        r@ == xid_wire(v@),
        xid_from_wire(r@) == Some(v@),
{
    match v {
        PackObject::Json(x) => Wire::Text(x.to_text()),
        PackObject::Cbor(x) => {
            let raw = x.raw();
            Wire::Bytes(slice_to_vec(raw.as_slice()))
        },
    }
}

/// Reads an xid from either shape.
pub fn decode_xid(w: WireValue) -> (r: Result<PackObject<Xid>, DomainError>)
    ensures
        match xid_from_wire(w@) {
            Some(p) => r matches Ok(q) && q@ == p,
            None => r is Err,
        },
        w matches Wire::Bytes(b) ==> (b@.len() != 12 ==> r == Err::<PackObject<Xid>, DomainError>(
            DomainError::InvalidLength { expected: 12, got: b@.len() as usize },
        )),
        w is Unit ==> r == Err::<PackObject<Xid>, DomainError>(DomainError::UnexpectedShape),
        w is Text && r is Err ==> r matches Err(DomainError::Malformed(_)),
{
    match w {
        Wire::Bytes(b) => match Xid::from_bytes(b.as_slice()) {
            Some(x) => Ok(PackObject::Cbor(x)),
            None => Err(DomainError::InvalidLength { expected: 12, got: b.len() }),
        },
        Wire::Text(s) => match crate::domain::xid_from_text(s.as_str()) {
            Ok(raw) => Ok(PackObject::Json(Xid::from_raw(raw))),
            Err(m) => Err(DomainError::Malformed(m)),
        },
        Wire::Unit => Err(DomainError::UnexpectedShape),
    }
}

/// Writes a UUID in its value's format.
pub fn encode_uuid(v: &PackObject<Uuid>) -> (r: WireValue)
    ensures
        r@ == uuid_wire(v@),
        uuid_from_wire(r@) == Some(v@),
{
    match v {
        PackObject::Json(u) => Wire::Text(u.to_text()),
        PackObject::Cbor(u) => {
            let raw = u.raw();
            Wire::Bytes(slice_to_vec(raw.as_slice()))
        },
    }
}

/// Copies exactly 16 bytes into an array.
fn to_array16(b: &[u8]) -> (r: [u8; 16])
    requires
        b@.len() == 16,
    ensures
        r@ == b@,
{
    let mut a = [0u8; 16];
    let mut i: usize = 0;
    while i < 16
        invariant
            i <= 16,
            b@.len() == 16,
            forall|j: int| 0 <= j < i ==> a@[j] == b@[j],
        decreases 16 - i,
    {
        a[i] = b[i];
        i = i + 1;
    }
    assert(a@ =~= b@);
    a
}

/// Reads a UUID from either shape.
pub fn decode_uuid(w: WireValue) -> (r: Result<PackObject<Uuid>, DomainError>)
    ensures
        match uuid_from_wire(w@) {
            Some(p) => r matches Ok(q) && q@ == p,
            None => r is Err,
        },
        w matches Wire::Bytes(b) ==> (b@.len() != 16 ==> r == Err::<PackObject<Uuid>, DomainError>(
            DomainError::InvalidLength { expected: 16, got: b@.len() as usize },
        )),
        w is Unit ==> r == Err::<PackObject<Uuid>, DomainError>(DomainError::UnexpectedShape),
        w is Text && r is Err ==> r matches Err(DomainError::Malformed(_)),
{
    match w {
        Wire::Bytes(b) => if b.len() != 16 {
            Err(DomainError::InvalidLength { expected: 16, got: b.len() })
        } else {
            Ok(PackObject::Cbor(Uuid::from_raw(to_array16(b.as_slice()))))
        },
        Wire::Text(s) => match crate::domain::uuid_from_text(s.as_str()) {
            Ok(raw) => Ok(PackObject::Json(Uuid::from_raw(raw))),
            Err(m) => Err(DomainError::Malformed(m)),
        },
        Wire::Unit => Err(DomainError::UnexpectedShape),
    }
}

/// Tags a language found for `input` by the length of `input`: binary for
/// exactly three characters, text otherwise.
pub fn classify_language(input: &str, found: Option<Language>) -> (r: Result<
    PackObject<Language>,
    DomainError,
>)
    ensures
        r == match found {
            Some(l) => if input@.len() == 3 {
                Ok(PackObject::Cbor(l))
            } else {
                Ok(PackObject::Json(l))
            },
            None => Err(DomainError::UnknownLanguage),
        },
{
    match found {
        Some(l) => if has_three_chars(input) {
            Ok(PackObject::Cbor(l))
        } else {
            Ok(PackObject::Json(l))
        },
        None => Err(DomainError::UnknownLanguage),
    }
}

/// True when `s` has exactly three characters.
fn has_three_chars(s: &str) -> (r: bool)
    ensures
        r == (s@.len() == 3),
{
    let mut n: usize = 0;
    for c in it: s.chars()
        invariant
            n == if it.index() < 4 {
                it.index() as int
            } else {
                4
            },
            it.seq() == s@,
    {
        if n < 4 {
            n = n + 1;
        }
    }
    n == 3
}

/// Reads a language from a string in any letter case.
pub fn decode_language(w: WireValue) -> (r: Result<PackObject<Language>, DomainError>)
    ensures
        match language_from_wire(w@) {
            Some(p) => r matches Ok(q) && q@ == p,
            None => r is Err,
        },
        w is Text && r is Err ==> r == Err::<PackObject<Language>, DomainError>(
            DomainError::UnknownLanguage,
        ),
        !(w is Text) ==> r == Err::<PackObject<Language>, DomainError>(
            DomainError::UnexpectedShape,
        ),
{
    match w {
        Wire::Text(s) => {
            let found = Language::lookup(s.as_str());
            classify_language(s.as_str(), found)
        },
        _ => Err(DomainError::UnexpectedShape),
    }
}

/// Lowercase letters are left as they are.
proof fn lemma_code_is_lower(c: Seq<char>)
    requires
        is_code3(c),
    ensures
        ascii_lower(c) == c,
{
    assert(ascii_lower(c) =~= c);
}

/// Writes a language in its value's format. A language written in the
/// binary format always reads back as itself; one written in the text format
/// does where its name is not three characters long and looks up to it.
pub fn encode_language(v: &PackObject<Language>) -> (r: WireValue)
    ensures
        r@ == language_wire(v@),
        v is Cbor ==> language_from_wire(r@) == Some(v@),
        v is Json && language_text(v@.value()).len() != 3 && language_lookup(
            ascii_lower(language_text(v@.value())),
        ) == Some(v@.value()) ==> language_from_wire(r@) == Some(v@),
{
    match v {
        PackObject::Json(l) => Wire::Text(l.to_text()),
        PackObject::Cbor(l) => {
            let c = l.code();
            proof {
                lemma_code_is_lower(c@);
            }
            Wire::Text(c)
        },
    }
}

/// Writes the "no payload" marker: the unit shape, in either format.
pub fn encode_unit(v: &PackObject<()>) -> (r: WireValue)
    ensures
        r@ == Wire::<Seq<u8>, Seq<char>>::Unit,
        unit_from_wire(*v, r@) == Some(*v),
{
    Wire::Unit
}

/// Reads the "no payload" marker, which keeps the negotiated format.
pub fn decode_unit(format: PackObject<()>, w: WireValue) -> (r: Result<PackObject<()>, DomainError>)
    ensures
        r == match unit_from_wire(format, w@) {
            Some(p) => Ok(p),
            None => Err(DomainError::UnexpectedShape),
        },
{
    match w {
        Wire::Unit => Ok(format),
        _ => Err(DomainError::UnexpectedShape),
    }
}

/// An id read from its raw bytes is tagged binary, and the same id read
/// from a text that stands for it is tagged text.
pub proof fn lemma_xid_shape_classifies(b: Seq<u8>, s: Seq<char>)
    requires
        b.len() == 12,
        xid_bytes(s) == Some(b),
    ensures
        xid_from_wire(Wire::Bytes(b)) == Some(PackObject::Cbor(b)),
        xid_from_wire(Wire::Text(s)) == Some(PackObject::Json(b)),
{
}

/// A UUID read from its raw bytes is tagged binary, and the same UUID read
/// from a text that stands for it is tagged text.
pub proof fn lemma_uuid_shape_classifies(b: Seq<u8>, s: Seq<char>)
    requires
        b.len() == 16,
        uuid_bytes(s) == Some(b),
    ensures
        uuid_from_wire(Wire::Bytes(b)) == Some(PackObject::Cbor(b)),
        uuid_from_wire(Wire::Text(s)) == Some(PackObject::Json(b)),
{
}

} // verus!
