//! The two headers that carry the credentials.
//!
//! The header map and its values are those of the HTTP client. What this
//! module relies on of them stands at its top: three declared types, two
//! names for what a value and a map hold, and three small functions whose
//! contracts are believed, not proved. Everything below them is proved.

use crate::error::{CallError, CallErrorView};
use vstd::prelude::*;
use vstd::string::{StringExecFns, StringSliceAdditionalSpecFns};
use vstd::utf8::*;

verus! {

/// The value of one header, as the HTTP client holds it.
#[verifier::external_type_specification]
#[verifier::external_body]
pub struct ExHeaderValue(reqwest::header::HeaderValue);

/// The error of the HTTP client for a text that is no header value.
#[verifier::external_type_specification]
#[verifier::external_body]
pub struct ExInvalidHeaderValue(reqwest::header::InvalidHeaderValue);

/// The header map of the HTTP client.
#[verifier::external_type_specification]
#[verifier::external_body]
#[verifier::reject_recursive_types(T)]
pub struct ExHeaderMap<T>(reqwest::header::HeaderMap<T>);

/// The bytes that a header value holds.
pub uninterp spec fn header_value_bytes(value: reqwest::header::HeaderValue) -> Seq<u8>;

/// What a header map holds: for each header name in it, written in lower
/// case, the bytes of the first value stored under that name.
pub uninterp spec fn header_map_entries(map: reqwest::header::HeaderMap) -> Map<Seq<char>, Seq<u8>>;

/// Whether a header value may hold the byte: anything from the space
/// upwards but DEL, and the tab.
pub open spec fn value_byte_ok(byte: u8) -> bool {
    byte >= 32 && byte != 127 || byte == 9
}

/// Whether a header value may hold all of the bytes.
pub open spec fn value_bytes_ok(bytes: Seq<u8>) -> bool {
    forall|i: int| 0 <= i < bytes.len() ==> value_byte_ok(#[trigger] bytes[i])
}

/// A letter in lower case; any other character as it is.
pub open spec fn lower_char(c: char) -> char {
    if 'A' <= c && c <= 'Z' {
        ((c as u8) + 32) as char
    } else {
        c
    }
}

/// A text with its letters in lower case.
pub open spec fn lowercase(text: Seq<char>) -> Seq<char> {
    Seq::new(text.len(), |i: int| lower_char(text[i]))
}

/// Whether a character is a letter, a digit or a hyphen.
pub open spec fn name_char_ok(c: char) -> bool {
    ('a' <= c && c <= 'z') || ('A' <= c && c <= 'Z') || ('0' <= c && c <= '9') || c == '-'
}

/// Whether a text is a short header name: one to 64 letters, digits or
/// hyphens.
pub open spec fn short_header_name(text: Seq<char>) -> bool {
    &&& 1 <= text.len() <= 64
    &&& forall|i: int| 0 <= i < text.len() ==> name_char_ok(#[trigger] text[i])
}

/// `HeaderValue::from_str`. It accepts a text exactly when each byte of it
/// may stand in a header value, and the value then holds the bytes of the
/// text.
#[verifier::external_body]
fn header_value_from_str(text: &str) -> (r: Result<
    reqwest::header::HeaderValue,
    reqwest::header::InvalidHeaderValue,
>)
    ensures
        r is Ok <==> value_bytes_ok(text.spec_bytes()),
        r matches Ok(value) ==> header_value_bytes(value) == text.spec_bytes(),
{
    reqwest::header::HeaderValue::from_str(text)
}

/// `HeaderMap::new`. The new map holds nothing.
#[verifier::external_body]
fn header_map_new() -> (map: reqwest::header::HeaderMap)
    ensures
        header_map_entries(map) =~= Map::empty(),
{
    reqwest::header::HeaderMap::new()
}

/// `HeaderMap::insert` with a name given as text. The name is stored in
/// lower case; the value becomes the only one under it, and the other names
/// keep theirs. The map panics on a text that is no header name, and when
/// its table would outgrow 32768 slots: a short name rules out the first,
/// a map of fewer than 64 names the second.
#[verifier::external_body]
fn header_map_insert(
    map: &mut reqwest::header::HeaderMap,
    name: &'static str,
    value: reqwest::header::HeaderValue,
)
    requires
        short_header_name(name@),
        header_map_entries(*old(map)).dom().finite(),
        header_map_entries(*old(map)).dom().len() < 64,
    ensures
        header_map_entries(*final(map)) == header_map_entries(*old(map)).insert(
            lowercase(name@),
            header_value_bytes(value),
        ),
{
    map.insert(name, value);
}

/// Whether a character may stand in a header value: any but the ASCII
/// control characters, of which only the tab may.
pub open spec fn value_char_ok(c: char) -> bool {
    c == '\t' || (c >= ' ' && c != '\u{7f}')
}

/// Whether a text may stand as a header value.
pub open spec fn value_text_ok(text: Seq<char>) -> bool {
    forall|i: int| 0 <= i < text.len() ==> value_char_ok(#[trigger] text[i])
}

/// The bytes of one character are fit for a header value exactly when the
/// character is.
proof fn lemma_char_bytes(c: char)
    ensures
        value_bytes_ok(encode_scalar(c as u32)) <==> value_char_ok(c),
{
    let scalar = c as u32;
    let bytes = encode_scalar(scalar);
    if has_width_1_encoding(scalar) {
        assert(leading_byte_width_1(scalar) == scalar as u8) by (bit_vector)
            requires
                has_width_1_encoding(scalar),
        ;
        assert(bytes[0] == scalar as u8);
    } else {
        assert(forall|low: u8| (0xC0u8 | low) >= 0x80 && (0xE0u8 | low) >= 0x80) by (bit_vector);
        assert(forall|low: u8| (0xF0u8 | low) >= 0x80 && (0x80u8 | low) >= 0x80) by (bit_vector);
        assert forall|i: int| 0 <= i < bytes.len() implies value_byte_ok(#[trigger] bytes[i]) by {
            assert(bytes[i] >= 0x80);
        }
    }
}

/// A run of bytes is fit for a header value exactly when both of its parts
/// are.
proof fn lemma_bytes_ok_concat(front: Seq<u8>, back: Seq<u8>)
    ensures
        value_bytes_ok(front + back) <==> value_bytes_ok(front) && value_bytes_ok(back),
{
    let whole = front + back;
    if value_bytes_ok(whole) {
        assert forall|i: int| 0 <= i < front.len() implies value_byte_ok(#[trigger] front[i]) by {
            assert(whole[i] == front[i]);
        }
        assert forall|i: int| 0 <= i < back.len() implies value_byte_ok(#[trigger] back[i]) by {
            assert(whole[front.len() + i] == back[i]);
        }
    }
}

/// A text is fit for a header value exactly when both of its parts are.
pub proof fn lemma_text_ok_concat(front: Seq<char>, back: Seq<char>)
    ensures
        value_text_ok(front + back) <==> value_text_ok(front) && value_text_ok(back),
{
    let whole = front + back;
    if value_text_ok(whole) {
        assert forall|i: int| 0 <= i < front.len() implies value_char_ok(#[trigger] front[i]) by {
            assert(whole[i] == front[i]);
        }
        assert forall|i: int| 0 <= i < back.len() implies value_char_ok(#[trigger] back[i]) by {
            assert(whole[front.len() + i] == back[i]);
        }
    }
}

/// A text is fit for a header value exactly when the bytes of its UTF-8
/// form are: the bytes below 128 are the characters below 128, and no other
/// character yields a byte below 128.
pub proof fn lemma_text_ok_iff_bytes_ok(text: Seq<char>)
    ensures
        value_text_ok(text) <==> value_bytes_ok(encode_utf8(text)),
    decreases text.len(),
{
    if text.len() > 0 {
        let rest = text.drop_first();
        lemma_char_bytes(text[0]);
        lemma_text_ok_iff_bytes_ok(rest);
        lemma_bytes_ok_concat(encode_scalar(text[0] as u32), encode_utf8(rest));
        assert(text =~= seq![text[0]] + rest);
        lemma_text_ok_concat(seq![text[0]], rest);
    }
}

/// The name under which the bearer token travels.
pub const AUTHORIZATION: &'static str = "authorization";

/// The name under which the organization travels.
pub const ORGANIZATION: &'static str = "OpenAI-Organization";

/// What stands before the key in the authorization header.
pub const BEARER: &'static str = "Bearer ";

/// What the credential headers hold for a key and an organization: the key
/// behind the word "Bearer" and a space under `authorization`, the
/// organization under `openai-organization`, each as the bytes of its UTF-8
/// form, and nothing else.
pub open spec fn credential_entries(api_key: Seq<char>, api_org: Seq<char>) -> Map<
    Seq<char>,
    Seq<u8>,
> {
    Map::empty().insert("authorization"@, encode_utf8("Bearer "@ + api_key)).insert(
        "openai-organization"@,
        encode_utf8(api_org),
    )
}

/// The headers that every request of a client carries. The result is an
/// error exactly when one of the secrets holds an ASCII control character
/// other than the tab; characters beyond ASCII travel as UTF-8.
pub fn credential_headers(api_key: &str, api_org: &str) -> (r: Result<
    reqwest::header::HeaderMap,
    CallError,
>)
    ensures
        r is Ok <==> value_text_ok(api_key@) && value_text_ok(api_org@),
        r matches Ok(headers) ==> header_map_entries(headers) == credential_entries(
            api_key@,
            api_org@,
        ),
        r matches Err(error) ==> error@ == CallErrorView::InvalidCredentialEncoding,
{
    let bearer = BEARER.to_owned().concat(api_key);
    proof {
        reveal_strlit("Bearer ");
        reveal_strlit("authorization");
        reveal_strlit("OpenAI-Organization");
        reveal_strlit("openai-organization");
        lemma_text_ok_concat(BEARER@, api_key@);
        lemma_text_ok_iff_bytes_ok(bearer@);
        lemma_text_ok_iff_bytes_ok(api_org@);
        assert(lowercase(AUTHORIZATION@) =~= "authorization"@);
        assert(lowercase(ORGANIZATION@) =~= "openai-organization"@);
    }
    let authorization = match header_value_from_str(bearer.as_str()) {
        Ok(value) => value,
        Err(_) => {
            return Err(CallError::InvalidCredentialEncoding);
        },
    };
    let organization = match header_value_from_str(api_org) {
        Ok(value) => value,
        Err(_) => {
            return Err(CallError::InvalidCredentialEncoding);
        },
    };
    let mut headers = header_map_new();
    header_map_insert(&mut headers, AUTHORIZATION, authorization);
    header_map_insert(&mut headers, ORGANIZATION, organization);
    Ok(headers)
}

} // verus!
