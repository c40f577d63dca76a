use vstd::prelude::*;
use rand::distributions::Alphanumeric;
use rand::Rng;

verus! {

/// `c` is an ASCII letter or digit.
pub open spec fn is_ascii_alphanumeric(c: char) -> bool {
    ('a' <= c && c <= 'z') || ('A' <= c && c <= 'Z') || ('0' <= c && c <= '9')
}

/// `c` is a lower-case hexadecimal digit.
pub open spec fn is_lower_hex(c: char) -> bool {
    ('0' <= c && c <= '9') || ('a' <= c && c <= 'f')
}

/// `s` is the hyphenated lower-case text of a random (version 4) UUID:
/// 36 characters, hyphens at 8, 13, 18 and 23, hexadecimal digits elsewhere,
/// and the version digit `4` at 14.
pub open spec fn is_uuid_v4_text(s: Seq<char>) -> bool {
    &&& s.len() == 36
    &&& forall|i: int|
        0 <= i < 36 ==> if i == 8 || i == 13 || i == 18 || i == 23 {
            s[i] == '-'
        } else {
            is_lower_hex(#[trigger] s[i])
        }
    &&& s[14] == '4'
}

/// A fresh random identifier: calls `uuid::Uuid::new_v4` and renders it with
/// its `Display` impl. Claimed: the text has the hyphenated lower-case v4
/// shape (the crate formats `Display` through `LowerHex`, hyphenated, and
/// `new_v4` sets the version nibble to 4). Which identifier comes out is
/// random and not stated.
#[verifier::external_body]
pub(crate) fn new_uuid_v4() -> (id: String)
    ensures
        is_uuid_v4_text(id@),
{
    uuid::Uuid::new_v4().to_string()
}

/// The current time in milliseconds since the Unix epoch: calls
/// `chrono::Utc::now` and `timestamp_millis`. Nothing is claimed of the value.
#[verifier::external_body]
pub(crate) fn now_millis() -> (ms: i64) {
    chrono::Utc::now().timestamp_millis()
}

/// One character drawn from the thread-local generator with
/// `rand::distributions::Alphanumeric`. Claimed: it is an ASCII letter or
/// digit (the distribution's charset is `A-Z`, `a-z`, `0-9`); which one is
/// random and not stated.
#[verifier::external_body]
fn random_alphanumeric() -> (c: char)
    ensures
        is_ascii_alphanumeric(c),
{
    char::from(rand::thread_rng().sample(Alphanumeric))
}

/// Collects characters into a `String` with `String::from_iter`; claimed:
/// the string holds exactly those characters, in order.
#[verifier::external_body]
fn string_from_chars(chars: Vec<char>) -> (s: String)
    ensures
        s@ == chars@,
{
    String::from_iter(chars)
}

/// A random code of `length` ASCII letters and digits.
pub fn generate_random_code(length: usize) -> (code: String)
    ensures
        code@.len() == length,
        forall|i: int| 0 <= i < length ==> is_ascii_alphanumeric(#[trigger] code@[i]),
{
    let mut chars: Vec<char> = Vec::new();
    let mut i: usize = 0;
    while i < length
        invariant
            i <= length,
            chars@.len() == i,
            forall|j: int| 0 <= j < i ==> is_ascii_alphanumeric(#[trigger] chars@[j]),
        decreases length - i,
    {
        let c = random_alphanumeric();
        chars.push(c);
        i = i + 1;
    }
    string_from_chars(chars)
}

} // verus!
