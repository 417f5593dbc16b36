//! The headers of the exchange request, held in the header map of the HTTP
//! client.
//!
//! The map, its names and its values belong to the client library. What this
//! module knows of them is written in the contracts of the small functions
//! marked `external_body` below; Verus takes those contracts on trust and
//! proves `request_headers` from them.

use reqwest::header::{HeaderMap, HeaderName, HeaderValue, InvalidHeaderValue};
use vstd::prelude::*;
use vstd::string::*;
use vstd::utf8::*;

verus! {

/// `reqwest::header::HeaderMap`, taken as it is: the verifier sees nothing
/// inside it.
#[verifier::external_type_specification]
#[verifier::external_body]
#[verifier::reject_recursive_types(T)]
pub struct ExHeaderMap<T>(HeaderMap<T>);

/// `reqwest::header::HeaderValue`, taken as it is.
#[verifier::external_type_specification]
#[verifier::external_body]
pub struct ExHeaderValue(HeaderValue);

/// `reqwest::header::HeaderName`, taken as it is.
#[verifier::external_type_specification]
#[verifier::external_body]
pub struct ExHeaderName(HeaderName);

/// `reqwest::header::InvalidHeaderValue`, the error of a header value that
/// could not be made.
#[verifier::external_type_specification]
#[verifier::external_body]
pub struct ExInvalidHeaderValue(InvalidHeaderValue);

/// What a header map holds: under each name that occurs in it, written in
/// lower case, the values stored under that name, first to last.
pub uninterp spec fn header_map_values(map: HeaderMap) -> Map<Seq<char>, Seq<Seq<u8>>>;

/// The bytes of a header value.
pub uninterp spec fn header_value_bytes(value: HeaderValue) -> Seq<u8>;

/// The text of a header name, in lower case.
pub uninterp spec fn header_name_text(name: HeaderName) -> Seq<char>;

/// Number of names below which `insert_header` is known to find room.
pub const HEADER_NAMES_WITH_ROOM: usize = 4096;

/// A byte that may stand in a header value: tab, or anything from the space
/// upwards but DEL.
pub open spec fn header_byte_allowed(byte: u8) -> bool {
    byte == 9 || (byte >= 32 && byte != 127)
}

/// Every byte may stand in a header value.
pub open spec fn header_bytes_allowed(bytes: Seq<u8>) -> bool {
    forall|i: int| 0 <= i < bytes.len() ==> header_byte_allowed(#[trigger] bytes[i])
}

/// Tab or a printable ASCII character.
pub open spec fn visible_ascii_byte(byte: u8) -> bool {
    byte == 9 || (32 <= byte && byte < 127)
}

/// Every byte is tab or a printable ASCII character.
pub open spec fn visible_ascii_bytes(bytes: Seq<u8>) -> bool {
    forall|i: int| 0 <= i < bytes.len() ==> visible_ascii_byte(#[trigger] bytes[i])
}

/// What a header map without headers holds.
pub open spec fn no_headers() -> Map<Seq<char>, Seq<Seq<u8>>> {
    Map::empty()
}

/// `HeaderMap::new`: a map that holds no header.
#[verifier::external_body]
fn empty_header_map() -> (headers: HeaderMap)
    ensures
        header_map_values(headers) == no_headers(),
{
    HeaderMap::new()
}

/// `HeaderMap::insert`: afterwards the name holds the one value given, whatever
/// it held before, and every other name holds what it held.
///
/// The call panics when the map is full or its table cannot grow. A map is
/// full at 32768 names, and growing fails only for a table of 32768 slots of
/// which a fifth or more hold a name, so a map of fewer than 6554 names
/// always has room; the contract asks for fewer than 4096.
#[verifier::external_body]
fn insert_header(map: &mut HeaderMap, name: HeaderName, value: HeaderValue)
    requires
        header_map_values(*old(map)).dom().finite(),
        header_map_values(*old(map)).dom().len() < HEADER_NAMES_WITH_ROOM,
    ensures
        header_map_values(*final(map)) == header_map_values(*old(map)).insert(
            header_name_text(name),
            seq![header_value_bytes(value)],
        ),
{
    map.insert(name, value);
}

/// `HeaderValue::from_str`: the value holds the bytes of the text, and the
/// call fails exactly when one of them may not stand in a header value.
#[verifier::external_body]
fn header_value_from_str(text: &str) -> (made: Result<HeaderValue, InvalidHeaderValue>)
    ensures
        made is Ok <==> header_bytes_allowed(text.spec_bytes()),
        made matches Ok(value) ==> header_value_bytes(value) == text.spec_bytes(),
{
    HeaderValue::from_str(text)
}

/// `HeaderValue::from_static`: the value holds the bytes of the text. The call
/// panics on a byte that is neither tab nor printable ASCII.
#[verifier::external_body]
fn header_value_from_static(text: &'static str) -> (value: HeaderValue)
    requires
        visible_ascii_bytes(text.spec_bytes()),
    ensures
        header_value_bytes(value) == text.spec_bytes(),
{
    HeaderValue::from_static(text)
}

/// The constant `AUTHORIZATION`: the name `authorization`.
#[verifier::external_body]
fn authorization_name() -> (name: HeaderName)
    ensures
        header_name_text(name) == "authorization"@,
{
    reqwest::header::AUTHORIZATION
}

/// The constant `CONTENT_TYPE`: the name `content-type`.
#[verifier::external_body]
fn content_type_name() -> (name: HeaderName)
    ensures
        header_name_text(name) == "content-type"@,
{
    reqwest::header::CONTENT_TYPE
}

/// The constant `ACCEPT`: the name `accept`.
#[verifier::external_body]
fn accept_name() -> (name: HeaderName)
    ensures
        header_name_text(name) == "accept"@,
{
    reqwest::header::ACCEPT
}

/// The access token cannot stand in a header: it holds a control character
/// other than tab.
#[derive(Clone, Copy, Debug, PartialEq, Eq, Structural)]
pub struct UnusableToken;

/// The value of the `authorization` header: the bearer scheme, a space, the
/// token.
pub open spec fn bearer(access_token: Seq<char>) -> Seq<char> {
    "Bearer "@ + access_token
}

/// The media type that the request carries and asks for.
pub const JSON_MEDIA_TYPE: &'static str = "application/json";

/// The headers of the exchange request, as a header map holds them: the
/// bearer authorization, and JSON as the type sent and the type accepted.
pub open spec fn request_header_values(access_token: Seq<char>) -> Map<Seq<char>, Seq<Seq<u8>>> {
    no_headers().insert(
        "authorization"@,
        seq![encode_utf8(bearer(access_token))],
    ).insert("content-type"@, seq![encode_utf8(JSON_MEDIA_TYPE@)]).insert(
        "accept"@,
        seq![encode_utf8(JSON_MEDIA_TYPE@)],
    )
}

/// The request carries three headers under three different names, each with
/// one value.
pub proof fn request_headers_are_three(access_token: Seq<char>)
    ensures
        request_header_values(access_token).dom() == set![
            "authorization"@,
            "content-type"@,
            "accept"@,
        ],
        request_header_values(access_token).dom().len() == 3,
        request_header_values(access_token)["authorization"@] == seq![
            encode_utf8(bearer(access_token)),
        ],
        request_header_values(access_token)["content-type"@] == seq![
            encode_utf8(JSON_MEDIA_TYPE@),
        ],
        request_header_values(access_token)["accept"@] == seq![encode_utf8(JSON_MEDIA_TYPE@)],
{
    reveal_strlit("authorization");
    reveal_strlit("content-type");
    reveal_strlit("accept");
    assert("authorization"@.len() == 13);
    assert("content-type"@.len() == 12);
    assert("accept"@.len() == 6);
    let names = set!["authorization"@, "content-type"@, "accept"@];
    assert(request_header_values(access_token).dom() =~= names);
    assert(names =~= Set::<Seq<char>>::empty().insert("authorization"@).insert(
        "content-type"@,
    ).insert("accept"@));
}

proof fn json_media_type_is_visible()
    ensures
        visible_ascii_bytes(encode_utf8(JSON_MEDIA_TYPE@)),
{
    reveal_strlit("application/json");
    let text = JSON_MEDIA_TYPE@;
    assert(text.len() == 16);
    assert(is_ascii_chars(text));
    is_ascii_chars_encode_utf8(text);
    let bytes = encode_utf8(text);
    assert forall|i: int| 0 <= i < bytes.len() implies visible_ascii_byte(#[trigger] bytes[i]) by {
        assert(bytes[i] == text[i] as u8);
    }
}

/// The access token may stand in a header: none of its bytes is a control
/// character other than tab.
pub open spec fn token_usable(access_token: Seq<char>) -> bool {
    header_bytes_allowed(encode_utf8(access_token))
}

/// The bytes of two texts joined are the bytes of the first and then the
/// bytes of the second.
pub proof fn encoding_of_joined_text(first: Seq<char>, second: Seq<char>)
    ensures
        encode_utf8(first + second) == encode_utf8(first) + encode_utf8(second),
    decreases first.len(),
{
    if first.len() == 0 {
        assert(first + second =~= second);
        assert(encode_utf8(first) + encode_utf8(second) =~= encode_utf8(second));
    } else {
        let joined = first + second;
        assert(joined.drop_first() =~= first.drop_first() + second);
        encoding_of_joined_text(first.drop_first(), second);
        assert(encode_utf8(joined) =~= encode_scalar(first[0] as u32) + (encode_utf8(
            first.drop_first(),
        ) + encode_utf8(second)));
        assert(encode_utf8(joined) =~= encode_utf8(first) + encode_utf8(second));
    }
}

/// The word `Bearer` and the space behind it never spoil a header value: the
/// authorization value is allowed exactly when the token is usable.
pub proof fn bearer_is_allowed_with_its_token(access_token: Seq<char>)
    ensures
        header_bytes_allowed(encode_utf8(bearer(access_token))) <==> token_usable(access_token),
{
    reveal_strlit("Bearer ");
    let scheme = "Bearer "@;
    assert(scheme.len() == 7);
    assert(is_ascii_chars(scheme));
    is_ascii_chars_encode_utf8(scheme);
    encoding_of_joined_text(scheme, access_token);
    let front = encode_utf8(scheme);
    let back = encode_utf8(access_token);
    let all = encode_utf8(bearer(access_token));
    assert(all == front + back);
    assert forall|i: int| 0 <= i < front.len() implies header_byte_allowed(#[trigger] front[i]) by {
        assert(front[i] == scheme[i] as u8);
    }
    if header_bytes_allowed(all) {
        assert forall|i: int| 0 <= i < back.len() implies header_byte_allowed(
            #[trigger] back[i],
        ) by {
            assert(all[i + 7] == back[i]);
        }
    }
    if header_bytes_allowed(back) {
        assert forall|i: int| 0 <= i < all.len() implies header_byte_allowed(#[trigger] all[i]) by {
            if i < 7 {
                assert(all[i] == front[i]);
            } else {
                assert(all[i] == back[i - 7]);
            }
        }
    }
}

/// Builds the headers of the exchange request.
///
/// Fails exactly when the token holds a byte that no header value may hold.
pub fn request_headers(access_token: &str) -> (headers: Result<HeaderMap, UnusableToken>)
    ensures
        headers is Ok <==> token_usable(access_token@),
        headers matches Ok(map) ==> header_map_values(map) == request_header_values(
            access_token@,
        ),
{
    proof {
        bearer_is_allowed_with_its_token(access_token@);
    }
    let credentials = "Bearer ".to_owned().concat(access_token);
    match header_value_from_str(credentials.as_str()) {
        Err(_) => Err(UnusableToken),
        Ok(authorization) => {
            proof {
                json_media_type_is_visible();
            }
            let mut map = empty_header_map();
            insert_header(&mut map, authorization_name(), authorization);
            insert_header(
                &mut map,
                content_type_name(),
                header_value_from_static(JSON_MEDIA_TYPE),
            );
            insert_header(&mut map, accept_name(), header_value_from_static(JSON_MEDIA_TYPE));
            Ok(map)
        },
    }
}

} // verus!
