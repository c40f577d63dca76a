use vstd::prelude::*;
use crate::utils::jwt::TokenBlacklist;
use crate::utils::entropy::is_uuid_v4_text;
use crate::utils::responses::{error_text, is_empty_reply, is_error_reply, Reply, Status};
use crate::utils::text::{free_of, lemma_split_append, lemma_split_free, split_char, split_spec};

verus! {

pub open spec fn access_token_required_msg() -> Seq<char> {
    "Access token is required."@
}

pub open spec fn invalid_bearer_msg() -> Seq<char> {
    "Provide a valid authorization bearer."@
}

/// What logging out does with an `authorization` header: the second piece
/// of the header split at spaces is the token, or the request is refused.
pub open spec fn bearer_spec(authorization: Option<Seq<char>>, r: Result<Seq<char>, Seq<char>>) -> bool {
    match authorization {
        None => r == Err::<Seq<char>, Seq<char>>(access_token_required_msg()),
        Some(h) => if split_spec(h, ' ').len() < 2 {
            r == Err::<Seq<char>, Seq<char>>(invalid_bearer_msg())
        } else {
            r == Ok::<Seq<char>, Seq<char>>(split_spec(h, ' ')[1])
        },
    }
}

/// The view of an optional string slice.
pub open spec fn str_opt_view(o: Option<&str>) -> Option<Seq<char>> {
    match o {
        Some(h) => Some(h@),
        None => None,
    }
}

/// The token found, or the text of the refusal.
pub open spec fn token_outcome(r: Result<String, Reply>) -> Result<Seq<char>, Seq<char>> {
    match r {
        Ok(t) => Ok(t@),
        Err(rep) => Err(error_text(rep)),
    }
}

/// The token carried by an `authorization` header (`<scheme> <token>`), or
/// the bad-request answer when there is none.
pub fn bearer_token(authorization: Option<&str>) -> (r: Result<String, Reply>)
    ensures
        bearer_spec(str_opt_view(authorization), token_outcome(r)),
        r matches Err(rep) ==> rep.status == Status::BadRequest && rep.body is Error,
{
    match authorization {
        None => Err(Reply::error(Status::BadRequest, "Access token is required.")),
        Some(header) => {
            let parts = split_char(header, ' ');
            if parts.len() < 2 {
                Err(Reply::error(Status::BadRequest, "Provide a valid authorization bearer."))
            } else {
                let token = parts[1].clone();
                assert(parts@[1]@ == split_spec(header@, ' ')[1]);
                Ok(token)
            }
        },
    }
}

/// What the first half of logging out gives for an `authorization` header:
/// the refusals of `bearer_spec`, or a blacklist entry under a fresh id for
/// the header's second space-separated piece.
pub open spec fn logout_spec(authorization: Option<Seq<char>>, r: Result<TokenBlacklist, Reply>) -> bool {
    match authorization {
        None => r matches Err(rep) && is_error_reply(rep, Status::BadRequest, access_token_required_msg()),
        Some(h) => if split_spec(h, ' ').len() < 2 {
            r matches Err(rep) && is_error_reply(rep, Status::BadRequest, invalid_bearer_msg())
        } else {
            r matches Ok(entry) && entry.token@ == split_spec(h, ' ')[1] && is_uuid_v4_text(entry._id@)
        },
    }
}

/// The first half of logging out: the blacklist entry for the presented
/// token, or the bad-request answer.
pub fn logout(authorization: Option<&str>) -> (r: Result<TokenBlacklist, Reply>)
    ensures
        logout_spec(str_opt_view(authorization), r),
{
    match bearer_token(authorization) {
        Err(reply) => Err(reply),
        Ok(token) => Ok(TokenBlacklist::new(token)),
    }
}

/// The second half of logging out: the answer once the blacklist entry was
/// stored, or failed to be.
pub fn logout_finished(stored: bool) -> (r: Reply)
    ensures
        stored ==> is_empty_reply(r, Status::Success),
        !stored ==> is_empty_reply(r, Status::InternalServerError),
{
    if stored {
        Reply::empty(Status::Success)
    } else {
        Reply::empty(Status::InternalServerError)
    }
}

/// Logging out with a header `<scheme> <token>`, where neither part holds a
/// space, blacklists exactly `<token>`.
pub proof fn lemma_logout_blacklists_bearer(scheme: Seq<char>, token: Seq<char>)
    requires
        free_of(scheme, ' '),
        free_of(token, ' '),
    ensures
        bearer_spec(Some(scheme.push(' ') + token), Ok(token)),
{
    lemma_split_append(scheme, token, ' ');
    lemma_split_free(scheme, ' ');
    lemma_split_free(token, ' ');
    assert(split_spec(scheme.push(' ') + token, ' ') =~= seq![scheme, token]);
}

} // verus!
