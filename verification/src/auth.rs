//! Authorization of the HTTP request that opens a capture connection.

use crate::text::{lemma_utf8_injective, same_text, strip_prefix, without_prefix};
use vstd::prelude::*;
use vstd::string::*;

verus! {

/// The path under which captures are taken.
pub const CAPTURE_PATH: &'static str = "/capture";

/// The header that carries the credentials.
pub const AUTHORIZATION: &'static str = "authorization";

/// What stands before the token in the header.
pub const BEARER: &'static str = "Bearer ";

/// The HTTP status "not found".
pub const NOT_FOUND: u16 = 404;

/// The HTTP status "unauthorized".
pub const UNAUTHORIZED: u16 = 401;

/// The headers of an HTTP message: `http::HeaderMap`.
#[verifier::external_type_specification]
#[verifier::external_body]
#[verifier::reject_recursive_types(T)]
pub struct ExHeaderMap<T>(http::HeaderMap<T>);

/// The value of one header: `http::HeaderValue`.
#[verifier::external_type_specification]
#[verifier::external_body]
pub struct ExHeaderValue(http::HeaderValue);

/// What a `http::HeaderMap` holds: under each header name, in lower case, the bytes of
/// its values in the order in which they were added.
pub uninterp spec fn header_values(
    headers: http::HeaderMap<http::HeaderValue>,
) -> Map<Seq<char>, Seq<Seq<u8>>>;

/// The first value under `name`.
pub open spec fn first_value(values: Map<Seq<char>, Seq<Seq<u8>>>, name: Seq<char>) -> Option<
    Seq<u8>,
> {
    if values.contains_key(name) && values[name].len() > 0 {
        Some(values[name][0])
    } else {
        None
    }
}

/// A header name in the form in which a `http::HeaderMap` keeps it.
pub open spec fn lower_case_name(name: Seq<char>) -> bool {
    forall|i: int| 0 <= i < name.len() ==> ('a' <= #[trigger] name[i] <= 'z' || name[i] == '-')
}

/// `http::HeaderMap::get`, with the value handed out as bytes. It looks a header up by
/// its name and returns the first of its values, or `None` where there is none.
#[verifier::external_body]
fn get_header(headers: &http::HeaderMap<http::HeaderValue>, name: &str) -> (value: Option<Vec<u8>>)
    requires
        lower_case_name(name@),
    ensures
        match value {
            Some(value) => first_value(header_values(*headers), name@) == Some(value@),
            None => first_value(header_values(*headers), name@) is None,
        },
{
    headers.get(name).map(|value| value.as_bytes().to_vec())
}

/// The bytes that count as visible ASCII in a header value; the tab is one of them.
pub open spec fn visible_ascii(byte: u8) -> bool {
    32 <= byte < 127 || byte == 9
}

/// A header value as text: it has one only where every byte is visible ASCII, and each
/// byte is then one character.
pub open spec fn header_text(value: Seq<u8>) -> Option<Seq<char>> {
    if forall|i: int| 0 <= i < value.len() ==> visible_ascii(#[trigger] value[i]) {
        Some(Seq::new(value.len(), |i: int| value[i] as char))
    } else {
        None
    }
}

/// `http::HeaderValue::to_str`, on the header value that `http::HeaderValue::from_bytes`
/// makes of the given bytes. `to_str` returns the bytes as text where all of them are
/// visible ASCII, and an error otherwise. `from_bytes` refuses only bytes that are not
/// visible ASCII, so that a value it refuses has no text either.
#[verifier::external_body]
fn header_to_str(value: &[u8]) -> (text: Option<String>)
    ensures
        match text {
            Some(text) => header_text(value@) == Some(text@),
            None => header_text(value@) is None,
        },
{
    let value = http::HeaderValue::from_bytes(value).ok()?;
    value.to_str().ok().map(|text| text.to_string())
}

/// The response to a refused request.
#[derive(Debug)]
pub struct Rejection {
    pub status: u16,
    pub body: String,
}

/// The response with the given status and body.
pub fn rejection(status: u16, body: &str) -> (response: Rejection)
    ensures
        response.status == status,
        response.body@ == body@,
{
    Rejection { status, body: body.to_string() }
}

/// The byte at `index`, or 0 beyond the end.
pub open spec fn byte_or_zero(bytes: Seq<u8>, index: int) -> u8 {
    if index < bytes.len() {
        bytes[index]
    } else {
        0
    }
}

/// The bits in which two byte strings differ, gathered over their lengths and their first
/// `count` bytes.
pub open spec fn difference_upto(left: Seq<u8>, right: Seq<u8>, count: nat) -> usize
    decreases count,
{
    if count == 0 {
        (left.len() as usize) ^ (right.len() as usize)
    } else {
        let index = count - 1;
        difference_upto(left, right, (count - 1) as nat) | ((byte_or_zero(left, index)
            ^ byte_or_zero(right, index)) as usize)
    }
}

/// The bits in which two byte strings differ, gathered over their lengths and every byte
/// of the longer one.
pub open spec fn difference(left: Seq<u8>, right: Seq<u8>) -> usize {
    difference_upto(
        left,
        right,
        if left.len() < right.len() {
            right.len()
        } else {
            left.len()
        },
    )
}

proof fn lemma_difference_upto(left: Seq<u8>, right: Seq<u8>, count: nat)
    requires
        left.len() <= usize::MAX,
        right.len() <= usize::MAX,
    ensures
        difference_upto(left, right, count) == 0 <==> left.len() == right.len() && forall|j: int|
            0 <= j < count ==> #[trigger] byte_or_zero(left, j) == byte_or_zero(right, j),
    decreases count,
{
    if count == 0 {
        let a = left.len() as usize;
        let b = right.len() as usize;
        assert(a ^ b == 0 <==> a == b) by (bit_vector);
    } else {
        let before = difference_upto(left, right, (count - 1) as nat);
        let a = byte_or_zero(left, count - 1);
        let b = byte_or_zero(right, count - 1);
        let bits = (a ^ b) as usize;
        lemma_difference_upto(left, right, (count - 1) as nat);
        assert(a ^ b == 0 <==> a == b) by (bit_vector);
        assert(before | bits == 0 <==> before == 0 && bits == 0) by (bit_vector);
    }
}

/// Byte strings differ in no bit exactly when they are equal.
pub proof fn lemma_no_difference(left: Seq<u8>, right: Seq<u8>)
    requires
        left.len() <= usize::MAX,
        right.len() <= usize::MAX,
    ensures
        difference(left, right) == 0 <==> left == right,
{
    let count = if left.len() < right.len() {
        right.len()
    } else {
        left.len()
    };
    lemma_difference_upto(left, right, count);
    if difference(left, right) == 0 {
        assert forall|j: int| 0 <= j < left.len() implies left[j] == right[j] by {
            assert(byte_or_zero(left, j) == byte_or_zero(right, j));
        }
        assert(left =~= right);
    }
}

/// Gathers the bits in which two byte strings differ. Every byte of the longer one goes
/// into the result, whatever the bytes before it were.
pub fn byte_difference(left: &[u8], right: &[u8]) -> (bits: usize)
    ensures
        bits == difference(left@, right@),
{
    let left_length: usize = left.len();
    let right_length: usize = right.len();
    let length: usize = if left_length < right_length {
        right_length
    } else {
        left_length
    };
    let mut diff: usize = left_length ^ right_length;
    let mut index: usize = 0;
    while index < length
        invariant
            left_length == left@.len(),
            right_length == right@.len(),
            index <= length,
            diff == difference_upto(left@, right@, index as nat),
        decreases length - index,
    {
        let a: u8 = if index < left_length {
            left[index]
        } else {
            0
        };
        let b: u8 = if index < right_length {
            right[index]
        } else {
            0
        };
        diff = diff | ((a ^ b) as usize);
        index += 1;
    }
    diff
}

/// Compares a supplied token with the expected one, by all of their bytes: see
/// [`byte_difference`]. The contract does not cover the running time.
pub fn constant_time_eq(expected: &str, supplied: &str) -> (equal: bool)
    ensures
        equal == (expected@ == supplied@),
{
    let left = expected.as_bytes();
    let right = supplied.as_bytes();
    proof {
        lemma_utf8_injective(expected@, supplied@);
        assert(left@.len() == left.len() && right@.len() == right.len());
        lemma_no_difference(left@, right@);
    }
    byte_difference(left, right) == 0
}

/// What the request is answered.
pub enum Answer {
    Granted,
    NotFound,
    Unauthorized,
}

/// The credentials are the bearer token: the header reads `Bearer `, then the token.
pub open spec fn bears_token(authorization: Option<Seq<u8>>, token: Seq<char>) -> bool {
    match authorization {
        Some(value) => header_text(value) == Some(BEARER@ + token),
        None => false,
    }
}

/// The answer to a request for `path` with the given value of the authorization header.
pub open spec fn answer(
    path: Seq<char>,
    authorization: Option<Seq<u8>>,
    token: Seq<char>,
) -> Answer {
    if path != CAPTURE_PATH@ {
        Answer::NotFound
    } else if bears_token(authorization, token) {
        Answer::Granted
    } else {
        Answer::Unauthorized
    }
}

/// How an answer is given to the client.
pub open spec fn answers(expected: Answer, response: Result<(), Rejection>) -> bool {
    match expected {
        Answer::Granted => response is Ok,
        Answer::NotFound => response matches Err(rejection) && rejection.status == NOT_FOUND
            && rejection.body@ == "not found"@,
        Answer::Unauthorized => response matches Err(rejection) && rejection.status
            == UNAUTHORIZED && rejection.body@ == "unauthorized"@,
    }
}

/// Answers a request for `path` whose authorization header has the given bytes, where it
/// has one.
pub fn authorize_credentials(
    path: &str,
    authorization: Option<Vec<u8>>,
    expected_token: &str,
) -> (response: Result<(), Rejection>)
    ensures
        answers(
            answer(
                path@,
                match authorization {
                    Some(value) => Some(value@),
                    None => None,
                },
                expected_token@,
            ),
            response,
        ),
        response is Ok <==> path@ == "/capture"@ && (authorization matches Some(value)
            && header_text(value@) == Some("Bearer "@ + expected_token@)),
        response matches Err(rejection) ==> rejection.status == (if path@ == "/capture"@ {
            401int
        } else {
            404int
        }),
{
    if !same_text(path, CAPTURE_PATH) {
        return Err(rejection(NOT_FOUND, "not found"));
    }
    if let Some(value) = authorization {
        if let Some(text) = header_to_str(value.as_slice()) {
            proof {
                lemma_prefix(text@, BEARER@, expected_token@);
            }
            if let Some(supplied) = strip_prefix(text.as_str(), BEARER) {
                if constant_time_eq(expected_token, supplied) {
                    return Ok(());
                }
            }
        }
    }
    Err(rejection(UNAUTHORIZED, "unauthorized"))
}

proof fn lemma_prefix(text: Seq<char>, prefix: Seq<char>, rest: Seq<char>)
    ensures
        text == prefix + rest <==> without_prefix(text, prefix) == Some(rest),
{
    if text == prefix + rest {
        assert(text.subrange(0, prefix.len() as int) =~= prefix);
        assert(text.skip(prefix.len() as int) =~= rest);
    }
    if without_prefix(text, prefix) == Some(rest) {
        assert(text =~= text.subrange(0, prefix.len() as int) + text.skip(prefix.len() as int));
    }
}

/// Answers the request that opens a connection, from its path and its headers.
pub fn authorize_upgrade(
    path: &str,
    headers: &http::HeaderMap<http::HeaderValue>,
    expected_token: &str,
) -> (response: Result<(), Rejection>)
    ensures
        answers(
            answer(
                path@,
                first_value(header_values(*headers), AUTHORIZATION@),
                expected_token@,
            ),
            response,
        ),
        response is Ok <==> path@ == "/capture"@ && header_values(*headers).contains_key(
            "authorization"@,
        ) && header_values(*headers)["authorization"@].len() > 0 && header_text(header_values(*headers)["authorization"@][0]) == Some(
            "Bearer "@ + expected_token@,
        ),
        response matches Err(rejection) ==> rejection.status == (if path@ == "/capture"@ {
            401int
        } else {
            404int
        }),
{
    proof {
        reveal_strlit("authorization");
    }
    authorize_credentials(path, get_header(headers, AUTHORIZATION), expected_token)
}

} // verus!
