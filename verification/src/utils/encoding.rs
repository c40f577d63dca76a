use vstd::prelude::*;
use vstd::utf8::*;
use std::string::FromUtf8Error;

verus! {

#[verifier::external_type_specification]
#[verifier::external_body]
pub struct ExDecodeError(base64::DecodeError);

#[verifier::external_type_specification]
#[verifier::external_body]
pub struct ExFromUtf8Error(FromUtf8Error);

/// What `base64::decode` (standard alphabet, padded) gives for some input:
/// `None` where it rejects the input.
pub uninterp spec fn base64_standard_decode(input: Seq<u8>) -> Option<Seq<u8>>;

/// Decodes base64: calls `base64::decode`, which is deterministic. Claimed:
/// its answer is `base64_standard_decode` of the input. The crate's length
/// estimate panics when the length plus 3 overflows, so that input is left
/// out.
#[verifier::external_body]
pub(crate) fn base64_decode(input: &[u8]) -> (res: Result<Vec<u8>, base64::DecodeError>)
    requires
        input@.len() + 3 <= usize::MAX,
    ensures
        res is Ok <==> base64_standard_decode(input@) is Some,
        res matches Ok(v) ==> base64_standard_decode(input@) == Some(v@),
{
    base64::decode(input)
}

/// Reads bytes as UTF-8 text: calls `String::from_utf8`. Claimed, as its
/// documentation says: it succeeds exactly on valid UTF-8, and the string
/// then holds the characters that the bytes encode.
#[verifier::external_body]
pub(crate) fn string_from_utf8(bytes: Vec<u8>) -> (res: Result<String, FromUtf8Error>)
    ensures
        res is Ok <==> valid_utf8(bytes@),
        res matches Ok(s) ==> s@ == decode_utf8(bytes@),
{
    String::from_utf8(bytes)
}

} // verus!
