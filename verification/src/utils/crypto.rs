use vstd::prelude::*;
use jwt_simple::prelude::HS256Key;

verus! {

#[verifier::external_type_specification]
#[verifier::external_body]
pub struct ExHS256Key(HS256Key);

#[verifier::external_type_specification]
#[verifier::external_body]
pub struct ExBcryptError(bcrypt::BcryptError);

/// What `bcrypt::verify` answers for a password and a stored hash: `None`
/// where it fails (a malformed hash), else whether the password matches.
pub uninterp spec fn bcrypt_verify_outcome(password: Seq<char>, hash: Seq<char>) -> Option<bool>;

/// Generates the signing key: calls `HS256Key::generate`, which draws 32
/// random bytes. Nothing is claimed of the key.
#[verifier::external_body]
pub fn generate_key() -> (key: HS256Key) {
    HS256Key::generate()
}

/// The decimal digit for `d` (below ten).
pub open spec fn decimal_digit(d: u32) -> char {
    if d == 0 { '0' } else if d == 1 { '1' } else if d == 2 { '2' } else if d == 3 { '3' }
    else if d == 4 { '4' } else if d == 5 { '5' } else if d == 6 { '6' } else if d == 7 { '7' }
    else if d == 8 { '8' } else { '9' }
}

/// How a bcrypt hash made with `cost` begins: `$2b$`, the cost in two
/// decimal digits, `$`.
pub open spec fn bcrypt_prefix(cost: u32) -> Seq<char> {
    seq!['$', '2', 'b', '$', decimal_digit(cost / 10), decimal_digit(cost % 10), '$']
}

/// Hashes a password: calls `bcrypt::hash` with a random salt. Claimed: a
/// cost outside `4..=31` fails; a hash that comes out is one that
/// `bcrypt::verify` accepts for the same password (verify splits the hash
/// into cost and salt and recomputes it with them). The salt and the failure
/// of the random source are not stated. The hash is written as
/// `$2b$`, the cost in two digits, `$`, 22 characters of salt and 31 of
/// hash (`HashParts::format`), so it is 60 characters long and records the
/// cost.
#[verifier::external_body]
pub(crate) fn bcrypt_hash(password: &str, cost: u32) -> (res: Result<String, bcrypt::BcryptError>)
    ensures
        !(4 <= cost && cost <= 31) ==> res is Err,
        res matches Ok(h) ==> bcrypt_verify_outcome(password@, h@) == Some(true),
        res matches Ok(h) ==> h@.len() == 60 && h@.subrange(0, 7) == bcrypt_prefix(cost),
{
    bcrypt::hash(password, cost)
}

/// Checks a password against a stored hash: calls `bcrypt::verify`, which is
/// deterministic. Claimed: its answer is `bcrypt_verify_outcome` of the two.
#[verifier::external_body]
pub(crate) fn bcrypt_verify(password: &str, hash: &str) -> (res: Result<bool, bcrypt::BcryptError>)
    ensures
        res is Ok <==> bcrypt_verify_outcome(password@, hash@) is Some,
        res matches Ok(b) ==> bcrypt_verify_outcome(password@, hash@) == Some(b),
{
    bcrypt::verify(password, hash)
}

} // verus!
