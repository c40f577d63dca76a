use vstd::prelude::*;
use crate::models::filters::{is_filter, Field, Filter};
use crate::utils::enums::Tokens;
use crate::views::logout::{lemma_logout_blacklists_bearer, logout_spec};
use crate::utils::text::{free_of, split_spec};
use crate::utils::jwt::{passes_refresh_check, token_claims_spec, CustomClaim, TokenBlacklist};

verus! {

/// The gRPC status codes that the token check answers with.
#[derive(Clone, Copy, Debug, PartialEq, Eq, Structural)]
pub enum Code {
    Cancelled,
    Unknown,
    InvalidArgument,
    Unavailable,
}

/// A refused token check: a status code and a message.
pub struct TokenStatus {
    pub code: Code,
    pub message: String,
}

/// An accepted token check.
pub struct TokenResponse {
    pub message: String,
}

pub open spec fn invalid_token_msg() -> Seq<char> {
    "Invalid token"@
}

pub open spec fn valid_msg() -> Seq<char> {
    "Valid"@
}

/// `r` is a refusal with `code` and message `msg`.
pub open spec fn is_refusal<T>(r: Result<T, TokenStatus>, code: Code, msg: Seq<char>) -> bool {
    r matches Err(s) && s.code == code && s.message@ == msg
}

/// What the last step of a token check answers for a blacklist lookup.
pub open spec fn blacklist_spec(lookup: Result<Option<TokenBlacklist>, String>, r: Result<TokenResponse, TokenStatus>) -> bool {
    match lookup {
        Err(e) => is_refusal(r, Code::Cancelled, e@),
        Ok(None) => r matches Ok(resp) && resp.message@ == valid_msg(),
        Ok(Some(_)) => is_refusal(r, Code::Unknown, invalid_token_msg()),
    }
}

/// The last step of a token check, given the blacklist lookup for the
/// token: a logged-out token is refused, a lookup error cancels the check.
pub fn validate_token_blacklist(lookup: Result<Option<TokenBlacklist>, String>) -> (r: Result<TokenResponse, TokenStatus>)
    ensures
        blacklist_spec(lookup, r),
{
    match lookup {
        Err(err) => Err(TokenStatus { code: Code::Cancelled, message: err }),
        Ok(value) => match value {
            None => Ok(TokenResponse { message: "Valid".to_owned() }),
            Some(_) => Err(TokenStatus { code: Code::Unknown, message: "Invalid token".to_owned() }),
        },
    }
}

/// Only an access token passes the check; for one, the next step is to look
/// the token up on the blacklist.
pub fn validate_token_access(token: &str, data: &CustomClaim) -> (r: Result<Filter, TokenStatus>)
    ensures
        !passes_access_check(*data) ==> is_refusal(r, Code::InvalidArgument, invalid_token_msg()),
        passes_access_check(*data) ==> (r matches Ok(f) && is_filter(f, Field::Token, Some(token@), None)),
{
    if data.access {
        Ok(Filter { field: Field::Token, value: Some(token.to_owned()), auth_identifier: None })
    } else {
        Err(TokenStatus { code: Code::InvalidArgument, message: "Invalid token".to_owned() })
    }
}

/// What the first step of a token check gives for a token and the outcome
/// of verifying it: the verification error, a refusal of a refresh token, or
/// the blacklist query for an access token.
pub open spec fn token_check_spec(token: Seq<char>, verified: Result<CustomClaim, String>, r: Result<Filter, TokenStatus>) -> bool {
    match verified {
        Err(e) => is_refusal(r, Code::Unavailable, e@),
        Ok(c) => if passes_access_check(c) {
            r matches Ok(f) && is_filter(f, Field::Token, Some(token), None)
        } else {
            is_refusal(r, Code::InvalidArgument, invalid_token_msg())
        },
    }
}

/// The first step of a token check, given what verifying the token's
/// signature and expiry gave (its claims, or the error text).
pub fn validate_token(token: &str, verified: Result<CustomClaim, String>) -> (r: Result<Filter, TokenStatus>)
    ensures
        token_check_spec(token@, verified, r),
{
    match verified {
        Err(err) => Err(TokenStatus { code: Code::Unavailable, message: err }),
        Ok(data) => validate_token_access(token, &data),
    }
}

/// Whether a token with these claims gets past the access check of the
/// token service (to the blacklist lookup).
pub open spec fn passes_access_check(c: CustomClaim) -> bool {
    c.access
}

/// The two kinds of token are not interchangeable: whatever claims a user
/// has, the token made as a refresh token passes the refresh check and is
/// refused by the token service's access check, and the token made as an
/// access token the other way round.
pub proof fn lemma_token_kinds_exclusive(user: CustomClaim)
    ensures
        passes_refresh_check(token_claims_spec(user, Tokens::Refresh)),
        !passes_access_check(token_claims_spec(user, Tokens::Refresh)),
        passes_access_check(token_claims_spec(user, Tokens::Access)),
        !passes_refresh_check(token_claims_spec(user, Tokens::Access)),
{
}

/// Whether some entry of the blacklist store is for `token`.
pub open spec fn blacklisted(store: Seq<TokenBlacklist>, token: Seq<char>) -> bool {
    exists|i: int| 0 <= i < store.len() && (#[trigger] store[i]).token@ == token
}

/// A token that is logged out is refused by the token check. Logging out
/// with `<scheme> <token>` (no space in either) gives the entry for
/// `<token>`; the token check of that access token asks the blacklist for
/// `<token>`; with a lookup that reports the store truthfully, the check
/// answers `Valid` while the store has no entry for the token, and refuses
/// it (`Unknown`, `Invalid token`) once the entry is stored.
pub proof fn lemma_logged_out_token_refused(
    scheme: Seq<char>,
    token: Seq<char>,
    entry: TokenBlacklist,
    claim: CustomClaim,
    query: Filter,
    store: Seq<TokenBlacklist>,
    before: Result<Option<TokenBlacklist>, String>,
    answer_before: Result<TokenResponse, TokenStatus>,
    after: Result<Option<TokenBlacklist>, String>,
    answer_after: Result<TokenResponse, TokenStatus>,
)
    requires
        free_of(scheme, ' '),
        free_of(token, ' '),
        logout_spec(Some(scheme.push(' ') + token), Ok(entry)),
        passes_access_check(claim),
        token_check_spec(token, Ok(claim), Ok(query)),
        !blacklisted(store, token),
        before is Ok && (before matches Ok(Some(_)) <==> blacklisted(store, token)),
        after is Ok && (after matches Ok(Some(_)) <==> blacklisted(store.push(entry), token)),
        blacklist_spec(before, answer_before),
        blacklist_spec(after, answer_after),
    ensures
        entry.token@ == token,
        is_filter(query, Field::Token, Some(entry.token@), None),
        answer_before matches Ok(resp) && resp.message@ == valid_msg(),
        is_refusal(answer_after, Code::Unknown, invalid_token_msg()),
{
    lemma_logout_blacklists_bearer(scheme, token);
    let h = scheme.push(' ') + token;
    assert(split_spec(h, ' ').len() >= 2);
    assert(entry.token@ == token);
    let grown = store.push(entry);
    assert(grown[store.len() as int].token@ == token);
    assert(blacklisted(grown, token));
}

} // verus!
