use vstd::prelude::*;
use crate::utils::jwt::CustomClaim;
use crate::utils::responses::{is_error_reply, Reply, Status, Token};

verus! {

pub open spec fn refresh_required_msg() -> Seq<char> {
    "Refresh token is required."@
}

pub open spec fn token_invalid_msg() -> Seq<char> {
    "Token is invalid."@
}

pub open spec fn refresh_key_msg() -> Seq<char> {
    "Provide a valid refresh key."@
}

/// The first step of a refresh: the token in the request body, or the
/// bad-request answer when there is none.
pub fn refresh_tokens(data: Token) -> (r: Result<String, Reply>)
    ensures
        match data.token {
            None => r matches Err(rep) && is_error_reply(rep, Status::BadRequest, refresh_required_msg()),
            Some(t) => r == Ok::<String, Reply>(t),
        },
{
    match data.token {
        None => Err(Reply::error(Status::BadRequest, "Refresh token is required.")),
        Some(t) => Ok(t),
    }
}

/// Only a refresh token (access flag off) may be traded for new tokens; the
/// claims it carries are those the new tokens are made for.
pub fn validate_refresh(data: CustomClaim) -> (r: Result<CustomClaim, Reply>)
    ensures
        data.access ==> (r matches Err(rep) && is_error_reply(rep, Status::BadRequest, refresh_key_msg())),
        !data.access ==> r == Ok::<CustomClaim, Reply>(data),
{
    if data.access {
        Err(Reply::error(Status::BadRequest, "Provide a valid refresh key."))
    } else {
        Ok(data)
    }
}

/// The second step of a refresh, given what verifying the token's signature
/// and expiry gave: a token that fails is invalid, one that passes goes to
/// `validate_refresh`.
pub fn refresh_verified<E>(verified: Result<CustomClaim, E>) -> (r: Result<CustomClaim, Reply>)
    ensures
        match verified {
            Err(_) => r matches Err(rep) && is_error_reply(rep, Status::BadRequest, token_invalid_msg()),
            Ok(c) => if c.access {
                r matches Err(rep) && is_error_reply(rep, Status::BadRequest, refresh_key_msg())
            } else {
                r == Ok::<CustomClaim, Reply>(c)
            },
        },
{
    match verified {
        Err(_) => Err(Reply::error(Status::BadRequest, "Token is invalid.")),
        Ok(data) => validate_refresh(data),
    }
}

} // verus!
