//! Choosing the wire format of a request from its `Content-Type` and
//! `Accept` headers.
use vstd::prelude::*;

use vstd::string::StringExecFns;

use crate::domain::{ascii_lower, to_ascii_lowercase};
use crate::error::CodecError;
use crate::object::PackObject;

verus! {

/// The type, subtype and optional `+suffix` of a media type text, if it
/// parses as one.
pub uninterp spec fn media_type_parts(s: Seq<char>) -> Option<(Seq<char>, Seq<char>, Option<Seq<char>>)>;

/// Relies on mime's `FromStr` for `Mime`, and on its `type_`, `subtype` and
/// `suffix` accessors to hand the parts out.
#[verifier::external_body]
fn parse_media_type(s: &str) -> (r: Option<(String, String, Option<String>)>)
    ensures
        match r {
            Some((t, st, sfx)) => media_type_parts(s@) == Some(
                (t@, st@, match sfx {
                    Some(x) => Some(x@),
                    None => None,
                }),
            ),
            None => media_type_parts(s@) is None,
        },
{
    s.parse::<mime::Mime>().ok().map(
        |m|
            (
                m.type_().as_str().to_string(),
                m.subtype().as_str().to_string(),
                m.suffix().map(|x| x.as_str().to_string()),
            ),
    )
}

/// `needle` occurs in `hay` as a run of consecutive characters.
pub open spec fn contains_seq(hay: Seq<char>, needle: Seq<char>) -> bool {
    exists|i: int|
        0 <= i && i + needle.len() <= hay.len() && #[trigger] hay.subrange(i, i + needle.len())
            == needle
}

/// A media type name equals a lowercase word, ignoring ASCII case.
pub open spec fn name_is(name: Seq<char>, word: Seq<char>) -> bool {
    ascii_lower(name) == word
}

/// The format a parsed media type selects: binary for `application/cbor`
/// or an `application/...+cbor` suffix, text for `application/json` or an
/// `application/...+json` suffix, none otherwise.
pub open spec fn media_format(
    ty: Seq<char>,
    subtype: Seq<char>,
    suffix: Option<Seq<char>>,
) -> Option<PackObject<()>> {
    if !name_is(ty, "application"@) {
        None
    } else if name_is(subtype, "cbor"@) || (suffix matches Some(x) && name_is(x, "cbor"@)) {
        Some(PackObject::Cbor(()))
    } else if name_is(subtype, "json"@) || (suffix matches Some(x) && name_is(x, "json"@)) {
        Some(PackObject::Json(()))
    } else {
        None
    }
}

/// The format a `Content-Type` text selects.
pub open spec fn content_type_format(ct: Seq<char>) -> Option<PackObject<()>> {
    match media_type_parts(ct) {
        Some((ty, subtype, suffix)) => media_format(ty, subtype, suffix),
        None => None,
    }
}

/// The format an `Accept` text selects: binary where it mentions
/// `application/cbor`, else text where it mentions `application/json`.
pub open spec fn accept_format(accept: Seq<char>) -> Option<PackObject<()>> {
    if contains_seq(accept, "application/cbor"@) {
        Some(PackObject::Cbor(()))
    } else if contains_seq(accept, "application/json"@) {
        Some(PackObject::Json(()))
    } else {
        None
    }
}

/// The text of an optional header value.
pub open spec fn opt_view(o: Option<&str>) -> Option<Seq<char>> {
    match o {
        Some(s) => Some(s@),
        None => None,
    }
}

/// The negotiated format: `Content-Type` decides where it can, `Accept`
/// otherwise.
pub open spec fn negotiation(ct: Option<Seq<char>>, accept: Option<Seq<char>>) -> Option<
    PackObject<()>,
> {
    let by_ct = match ct {
        Some(c) => content_type_format(c),
        None => None,
    };
    if by_ct is Some {
        by_ct
    } else {
        match accept {
            Some(a) => accept_format(a),
            None => None,
        }
    }
}

/// True when `s` equals `word` ignoring ASCII case.
fn name_eq(s: &str, word: &str) -> (r: bool)
    ensures
        r == (ascii_lower(s@) == word@),
{
    let l = to_ascii_lowercase(s);
    let w = String::from_str(word);
    l == w
}

/// The format selected by a media type's parts.
pub fn media_type_format(ty: &str, subtype: &str, suffix: Option<&str>) -> (r: Option<
    PackObject<()>,
>)
    ensures
        r == media_format(ty@, subtype@, opt_view(suffix)),
{
    if !name_eq(ty, "application") {
        return None;
    }
    let suffix_cbor = match suffix {
        Some(x) => name_eq(x, "cbor"),
        None => false,
    };
    if name_eq(subtype, "cbor") || suffix_cbor {
        return Some(PackObject::Cbor(()));
    }
    let suffix_json = match suffix {
        Some(x) => name_eq(x, "json"),
        None => false,
    };
    if name_eq(subtype, "json") || suffix_json {
        Some(PackObject::Json(()))
    } else {
        None
    }
}

/// The format a `Content-Type` header value selects, if any.
pub fn content_type_to_format(ct: &str) -> (r: Option<PackObject<()>>)
    ensures
        r == content_type_format(ct@),
{
    match parse_media_type(ct) {
        Some((ty, subtype, suffix)) => {
            let sfx = match &suffix {
                Some(x) => Some(x.as_str()),
                None => None,
            };
            media_type_format(ty.as_str(), subtype.as_str(), sfx)
        },
        None => None,
    }
}

/// The characters of a string, in order.
fn chars_of(s: &str) -> (r: Vec<char>)
    ensures
        r@ == s@,
{
    let mut v: Vec<char> = Vec::new();
    for c in it: s.chars()
        invariant
            it.seq() == s@,
            v@ == it.seq().take(it.index() as int),
    {
        v.push(c);
    }
    v
}

/// True when `needle` occurs in `hay`.
pub fn contains(hay: &str, needle: &str) -> (r: bool)
    ensures
        r == contains_seq(hay@, needle@),
{
    let h = chars_of(hay);
    let n = chars_of(needle);
    if n.len() > h.len() {
        return false;
    }
    let hl = h.len();
    let last = hl - n.len();
    let mut i: usize = 0;
    while i <= last
        invariant
            h@ == hay@,
            n@ == needle@,
            last == h@.len() - n@.len(),
            hl == h@.len(),
            i <= last + 1,
            forall|k: int| 0 <= k < i ==> #[trigger] h@.subrange(k, k + n@.len()) != n@,
        decreases last + 1 - i,
    {
        let mut j: usize = 0;
        let mut same = true;
        while j < n.len()
            invariant
                h@ == hay@,
                n@ == needle@,
                i <= last,
                last + n@.len() == h@.len(),
                hl == h@.len(),
                j <= n@.len(),
                same == (forall|m: int| 0 <= m < j ==> h@[i + m] == n@[m]),
            decreases n@.len() - j,
        {
            same = same && h[i + j] == n[j];
            j = j + 1;
        }
        if same {
            assert(h@.subrange(i as int, i + n@.len()) =~= n@);
            return true;
        }
        assert(exists|m: int| 0 <= m < n@.len() && h@[i + m] != n@[m]);
        let ghost k = choose|m: int| 0 <= m < n@.len() && h@[i + m] != n@[m];
        assert(h@.subrange(i as int, i + n@.len())[k] != n@[k]);
        i = i + 1;
    }
    false
}

/// The format an `Accept` header value selects, if any.
pub fn accept_to_format(accept: &str) -> (r: Option<PackObject<()>>)
    ensures
        r == accept_format(accept@),
{
    if contains(accept, "application/cbor") {
        Some(PackObject::Cbor(()))
    } else if contains(accept, "application/json") {
        Some(PackObject::Json(()))
    } else {
        None
    }
}

/// Picks the format of a request from its `Content-Type` and `Accept`
/// header values (absent, or not readable as text: `None`). Fails with the
/// content-type text (empty when absent) where neither decides.
pub fn negotiate(content_type: Option<&str>, accept: Option<&str>) -> (r: Result<
    PackObject<()>,
    CodecError,
>)
    ensures
        match negotiation(opt_view(content_type), opt_view(accept)) {
            Some(f) => r == Ok::<PackObject<()>, CodecError>(f),
            None => r matches Err(CodecError::UnsupportedMediaType(m)) && m@ == match content_type {
                Some(c) => c@,
                None => Seq::<char>::empty(),
            },
        },
{
    if let Some(ct) = content_type {
        if let Some(f) = content_type_to_format(ct) {
            return Ok(f);
        }
    }
    if let Some(a) = accept {
        if let Some(f) = accept_to_format(a) {
            return Ok(f);
        }
    }
    let shown = match content_type {
        Some(ct) => String::from_str(ct),
        None => String::new(),
    };
    Err(CodecError::UnsupportedMediaType(shown))
}

/// Where `Content-Type` selects a format, that format is the negotiated
/// one, whatever `Accept` says.
pub proof fn lemma_content_type_wins(ct: Seq<char>, accept: Option<Seq<char>>)
    requires
        content_type_format(ct) is Some,
    ensures
        negotiation(Some(ct), accept) == content_type_format(ct),
{
}

/// Without a deciding `Content-Type`, an `Accept` text that mentions both
/// media types selects the binary format: `application/cbor` is looked for
/// first.
pub proof fn lemma_accept_prefers_binary(ct: Option<Seq<char>>, accept: Seq<char>)
    requires
        ct matches Some(c) ==> content_type_format(c) is None,
        contains_seq(accept, "application/cbor"@),
        contains_seq(accept, "application/json"@),
    ensures
        negotiation(ct, Some(accept)) == Some(PackObject::Cbor(())),
{
}

} // verus!
