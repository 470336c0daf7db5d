use vstd::prelude::*;

use std::str::FromStr;

verus! {

/// The URL-safe, unpadded base64 text of some bytes.
pub uninterp spec fn base64url_text(b: Seq<u8>) -> Seq<char>;

/// The bytes that a URL-safe, unpadded base64 text stands for, if it is valid.
pub uninterp spec fn base64url_bytes(s: Seq<char>) -> Option<Seq<u8>>;

/// The 20-character text form of a 12-byte xid.
pub uninterp spec fn xid_text(raw: Seq<u8>) -> Seq<char>;

/// The 12 bytes that an xid text stands for, if it is valid.
pub uninterp spec fn xid_bytes(s: Seq<char>) -> Option<Seq<u8>>;

/// The lowercase hexadecimal digit of a number below 16.
pub open spec fn hex_digit(n: u8) -> char {
    if n < 10 {
        ((n as u32) + 48) as char
    } else {
        ((n as u32) + 87) as char
    }
}

/// Two lowercase hexadecimal digits per byte, high digit first.
pub open spec fn hex_of(b: Seq<u8>) -> Seq<char>
    decreases b.len(),
{
    if b.len() == 0 {
        Seq::empty()
    } else {
        hex_of(b.drop_last()) + seq![hex_digit(b.last() / 16), hex_digit(b.last() % 16)]
    }
}

/// The hyphenated text form of a 16-byte UUID: its bytes in lowercase
/// hexadecimal, grouped 4-2-2-2-6 and joined by hyphens.
pub open spec fn uuid_text(raw: Seq<u8>) -> Seq<char> {
    hex_of(raw.subrange(0, 4)) + seq!['-'] + hex_of(raw.subrange(4, 6)) + seq!['-'] + hex_of(
        raw.subrange(6, 8),
    ) + seq!['-'] + hex_of(raw.subrange(8, 10)) + seq!['-'] + hex_of(raw.subrange(10, 16))
}

/// The 16 bytes that a UUID text stands for, if it is valid.
pub uninterp spec fn uuid_bytes(s: Seq<char>) -> Option<Seq<u8>>;

/// The ISO 639-3 code of the language that a string names (as an ISO 639-3
/// code, an ISO 639-1 code, a lowercase English name or an autonym), if any.
pub uninterp spec fn language_lookup(s: Seq<char>) -> Option<Seq<char>>;

/// The native name of the language with a given ISO 639-3 code, if known.
pub uninterp spec fn language_autonym(code: Seq<char>) -> Option<Seq<char>>;

/// The English name of the language with a given ISO 639-3 code.
pub uninterp spec fn language_name(code: Seq<char>) -> Seq<char>;

/// Three lowercase ASCII letters.
pub open spec fn is_code3(c: Seq<char>) -> bool {
    c.len() == 3 && forall|i: int| 0 <= i < 3 ==> 'a' <= #[trigger] c[i] <= 'z'
}

/// A language code that the lookup maps to itself.
pub open spec fn is_language_code(c: Seq<char>) -> bool {
    is_code3(c) && language_lookup(c) == Some(c)
}

/// A character with an ASCII capital made lowercase.
pub open spec fn lower_char(c: char) -> char {
    if 'A' <= c <= 'Z' {
        ((c as u32) + 32) as char
    } else {
        c
    }
}

/// A string with its ASCII capitals made lowercase.
pub open spec fn ascii_lower(s: Seq<char>) -> Seq<char> {
    Seq::new(s.len(), |i: int| lower_char(s[i]))
}

/// How a language is written in the text format: its autonym where known,
/// else its English name.
pub open spec fn language_text(code: Seq<char>) -> Seq<char> {
    match language_autonym(code) {
        Some(a) => a,
        None => language_name(code),
    }
}

/// Relies on base64's URL_SAFE_NO_PAD engine `encode`: the text decodes back
/// to the same bytes.
#[verifier::external_body]
pub(crate) fn encode_base64url(b: &[u8]) -> (r: String)
    ensures
        r@ == base64url_text(b@),
        base64url_bytes(r@) == Some(b@),
{
    base64::Engine::encode(&base64::engine::general_purpose::URL_SAFE_NO_PAD, b)
}

/// Relies on base64's URL_SAFE_NO_PAD engine `decode`, giving its error text.
#[verifier::external_body]
pub(crate) fn decode_base64url(s: &str) -> (r: Result<Vec<u8>, String>)
    ensures
        match r {
            Ok(b) => base64url_bytes(s@) == Some(b@),
            Err(_) => base64url_bytes(s@) is None,
        },
{
    base64::Engine::decode(&base64::engine::general_purpose::URL_SAFE_NO_PAD, s).map_err(
        |e| e.to_string(),
    )
}

/// Relies on xid's `Id::from_bytes`: it takes exactly 12 bytes.
#[verifier::external_body]
fn xid_from_bytes(b: &[u8]) -> (r: Option<[u8; 12]>)
    ensures
        r is Some <==> b@.len() == 12,
        r matches Some(a) ==> a@ == b@,
{
    xid::Id::from_bytes(b).ok().map(|id| id.0)
}

/// Relies on xid's `Display` for `Id`: 20 characters that `FromStr` reads back.
#[verifier::external_body]
fn xid_to_text(raw: &[u8; 12]) -> (r: String)
    ensures
        r@ == xid_text(raw@),
        xid_bytes(r@) == Some(raw@),
{
    xid::Id(*raw).to_string()
}

/// Relies on xid's `FromStr` for `Id`, giving its error text.
#[verifier::external_body]
pub(crate) fn xid_from_text(s: &str) -> (r: Result<[u8; 12], String>)
    ensures
        match r {
            Ok(a) => xid_bytes(s@) == Some(a@),
            Err(_) => xid_bytes(s@) is None,
        },
{
    xid::Id::from_str(s).map(|id| id.0).map_err(|e| e.to_string())
}

/// Relies on uuid's `Display` for `Uuid`: the hyphenated lowercase form,
/// which `Uuid::parse_str` reads back.
#[verifier::external_body]
fn uuid_to_text(raw: &[u8; 16]) -> (r: String)
    ensures
        r@ == uuid_text(raw@),
        uuid_bytes(r@) == Some(raw@),
{
    uuid::Uuid::from_bytes(*raw).to_string()
}

/// Relies on uuid's `Uuid::parse_str`, giving its error text.
#[verifier::external_body]
pub(crate) fn uuid_from_text(s: &str) -> (r: Result<[u8; 16], String>)
    ensures
        match r {
            Ok(a) => uuid_bytes(s@) == Some(a@),
            Err(_) => uuid_bytes(s@) is None,
        },
{
    uuid::Uuid::parse_str(s).map(|u| *u.as_bytes()).map_err(|e| e.to_string())
}

/// Relies on isolang's `FromStr` for `Language` (ISO 639-3 code first, then
/// ISO 639-1 code, lowercase English name, autonym), reporting the language
/// by its ISO 639-3 code: three lowercase letters, which look up to itself.
#[verifier::external_body]
fn lookup_language(s: &str) -> (r: Option<String>)
    ensures
        match r {
            Some(c) => language_lookup(s@) == Some(c@) && is_language_code(c@),
            None => language_lookup(s@) is None,
        },
{
    isolang::Language::from_str(s).ok().map(|l| l.to_639_3().to_string())
}

/// Relies on isolang's `Language::to_autonym`, for the language with the
/// given ISO 639-3 code.
#[verifier::external_body]
fn autonym_of(code: &str) -> (r: Option<String>)
    ensures
        match r {
            Some(a) => language_autonym(code@) == Some(a@),
            None => language_autonym(code@) is None,
        },
{
    isolang::Language::from_639_3(code).and_then(|l| l.to_autonym()).map(|a| a.to_string())
}

/// Relies on isolang's `Language::to_name`, for the language with the given
/// ISO 639-3 code; there is one for every code that looks up to itself.
#[verifier::external_body]
fn english_name_of(code: &str) -> (r: Option<String>)
    ensures
        r matches Some(n) ==> n@ == language_name(code@),
        is_language_code(code@) ==> r is Some,
{
    isolang::Language::from_639_3(code).map(|l| l.to_name().to_string())
}

/// Relies on `str::to_ascii_lowercase`.
#[verifier::external_body]
pub(crate) fn to_ascii_lowercase(s: &str) -> (r: String)
    ensures
        r@ == ascii_lower(s@),
{
    s.to_ascii_lowercase()
}

/// An xid: a 12-byte globally unique identifier.
#[derive(Debug, Clone, Copy, PartialEq, Eq)]
pub struct Xid {
    raw: [u8; 12],
}

impl View for Xid {
    type V = Seq<u8>;

    closed spec fn view(&self) -> Seq<u8> {
        self.raw@
    }
}

impl Xid {
    /// The xid with these bytes.
    pub fn from_raw(raw: [u8; 12]) -> (r: Xid)
        ensures
            r@ == raw@,
    {
        Xid { raw }
    }

    /// The xid's bytes.
    pub fn raw(&self) -> (r: [u8; 12])
        ensures
            r@ == self@,
    {
        self.raw
    }

    /// The xid held in a byte slice of length 12, if it is one.
    pub fn from_bytes(b: &[u8]) -> (r: Option<Xid>)
        ensures
            r is Some <==> b@.len() == 12,
            r matches Some(x) ==> x@ == b@,
    {
        match xid_from_bytes(b) {
            Some(raw) => Some(Xid { raw }),
            None => None,
        }
    }

    /// The xid that a 20-character text stands for, if it is valid.
    pub fn parse(s: &str) -> (r: Option<Xid>)
        ensures
            match xid_bytes(s@) {
                Some(b) => r matches Some(x) && x@ == b,
                None => r is None,
            },
    {
        match xid_from_text(s) {
            Ok(raw) => Some(Xid { raw }),
            Err(_) => None,
        }
    }

    /// The xid's 20-character text form.
    pub fn to_text(&self) -> (r: String)
        ensures
            r@ == xid_text(self@),
            xid_bytes(r@) == Some(self@),
    {
        xid_to_text(&self.raw)
    }
}

/// A UUID: 16 bytes.
#[derive(Debug, Clone, Copy, PartialEq, Eq)]
pub struct Uuid {
    raw: [u8; 16],
}

impl View for Uuid {
    type V = Seq<u8>;

    closed spec fn view(&self) -> Seq<u8> {
        self.raw@
    }
}

impl Uuid {
    /// The UUID with these bytes.
    pub fn from_raw(raw: [u8; 16]) -> (r: Uuid)
        ensures
            r@ == raw@,
    {
        Uuid { raw }
    }

    /// The UUID's bytes.
    pub fn raw(&self) -> (r: [u8; 16])
        ensures
            r@ == self@,
    {
        self.raw
    }

    /// The UUID that a text stands for, if it is valid.
    pub fn parse(s: &str) -> (r: Option<Uuid>)
        ensures
            match uuid_bytes(s@) {
                Some(b) => r matches Some(u) && u@ == b,
                None => r is None,
            },
    {
        match uuid_from_text(s) {
            Ok(raw) => Some(Uuid { raw }),
            Err(_) => None,
        }
    }

    /// The UUID's hyphenated text form.
    pub fn to_text(&self) -> (r: String)
        ensures
            r@ == uuid_text(self@),
            uuid_bytes(r@) == Some(self@),
    {
        uuid_to_text(&self.raw)
    }
}

/// A language, held by its ISO 639-3 code.
#[derive(Debug, PartialEq, Eq)]
pub struct Language {
    code: String,
}

impl View for Language {
    type V = Seq<char>;

    closed spec fn view(&self) -> Seq<char> {
        self.code@
    }
}

impl Clone for Language {
    fn clone(&self) -> (r: Language)
        ensures
            r == *self,
    {
        proof {
            use_type_invariant(self);
        }
        Language { code: self.code.clone() }
    }
}

impl Language {
    #[verifier::type_invariant]
    spec fn inv(&self) -> bool {
        is_language_code(self.code@)
    }

    /// The language that a string names, in any letter case.
    pub fn lookup(s: &str) -> (r: Option<Language>)
        ensures
            match language_lookup(ascii_lower(s@)) {
                Some(c) => r matches Some(l) && l@ == c,
                None => r is None,
            },
    {
        let lower = to_ascii_lowercase(s);
        match lookup_language(lower.as_str()) {
            Some(code) => Some(Language { code }),
            None => None,
        }
    }

    /// The language's ISO 639-3 code.
    pub fn code(&self) -> (r: String)
        ensures
            r@ == self@,
            is_language_code(r@),
    {
        proof {
            use_type_invariant(self);
        }
        self.code.clone()
    }

    /// The language's autonym where known, else its English name.
    pub fn to_text(&self) -> (r: String)
        ensures
            r@ == language_text(self@),
    {
        proof {
            use_type_invariant(self);
        }
        match autonym_of(self.code.as_str()) {
            Some(a) => a,
            None => match english_name_of(self.code.as_str()) {
                Some(n) => n,
                None => String::new(),
            },
        }
    }
}

} // verus!
