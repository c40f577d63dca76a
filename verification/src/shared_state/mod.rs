use vstd::prelude::*;
use jwt_simple::prelude::HS256Key;
use mongodb::Client;

pub mod matcher;

pub use matcher::Matcher;
use matcher::compile_regex;

verus! {

#[verifier::external_type_specification]
#[verifier::external_body]
pub struct ExClient(Client);

/// Whether `regex::Regex::new` accepts a pattern.
pub uninterp spec fn regex_compiles(pattern: Seq<char>) -> bool;

/// Whether a regex compiled from `pattern` finds a match anywhere in
/// `haystack` (`regex::Regex::is_match`).
pub uninterp spec fn regex_is_match(pattern: Seq<char>, haystack: Seq<char>) -> bool;

/// The pattern that e-mail addresses are checked against.
pub const EMAIL_PATTERN: &'static str = r"^([a-z0-9_+]([a-z0-9_+.]*[a-z0-9_+])?)@([a-z0-9]+([\-\.]{1}[a-z0-9]+)*\.[a-z]{2,6})";

/// The pattern that phone numbers are checked against.
pub const PHONE_PATTERN: &'static str = r"^\+?[1-9]\d{1,14}$";

impl Matcher {
    /// Compiles `pattern`; `None` where the regex crate rejects it.
    pub fn new(pattern: &str) -> (res: Option<Matcher>)
        ensures
            res is Some <==> regex_compiles(pattern@),
            res matches Some(m) ==> m.pattern() == pattern@,
    {
        match compile_regex(pattern) {
            Ok(m) => Some(m),
            Err(_) => None,
        }
    }
}

/// What every request handler shares: the database client, the signing key
/// and the two input checks.
pub struct SharedState {
    pub client: Client,
    pub key: HS256Key,
    pub email_regex: Matcher,
    pub phone_regex: Matcher,
}

impl SharedState {
    /// Builds the shared state around a client and a key, compiling the
    /// e-mail and phone patterns; `None` where a pattern does not compile.
    pub fn new(client: Client, key: HS256Key) -> (res: Option<SharedState>)
        ensures
            res is Some <==> regex_compiles(EMAIL_PATTERN@) && regex_compiles(PHONE_PATTERN@),
            res matches Some(s) ==> {
                &&& s.client == client
                &&& s.key == key
                &&& s.email_regex.pattern() == EMAIL_PATTERN@
                &&& s.phone_regex.pattern() == PHONE_PATTERN@
            },
    {
        let email_regex = match Matcher::new(EMAIL_PATTERN) {
            Some(m) => m,
            None => return None,
        };
        let phone_regex = match Matcher::new(PHONE_PATTERN) {
            Some(m) => m,
            None => return None,
        };
        Some(SharedState { client, key, email_regex, phone_regex })
    }
}

} // verus!
