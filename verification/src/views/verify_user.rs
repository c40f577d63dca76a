use vstd::prelude::*;
use crate::models::filters::{is_filter, opt_view, Field, Filter};
use crate::models::otps::Otp;
use crate::models::users::User;
use crate::utils::enums::{OtpChoice, ToUse};
use crate::utils::responses::{is_error_reply, is_message_reply, Reply, Status};
use crate::utils::text::clone_opt;

verus! {

pub open spec fn invalid_link_msg() -> Seq<char> {
    "Invalid Link"@
}

pub open spec fn already_verified_msg() -> Seq<char> {
    "Account already verified!"@
}

pub open spec fn verified_msg() -> Seq<char> {
    "Account verified successfully!"@
}

/// The query for the code of a verification link.
pub fn verify_link_filter(code: String) -> (f: Filter)
    ensures
        is_filter(f, Field::Code, Some(code@), None),
{
    Filter { field: Field::Code, value: Some(code), auth_identifier: None }
}

/// The first step of following a verification link, given the lookup of its
/// code: an unknown code is an invalid link.
pub fn verify_user_link(lookup: Result<Option<Otp>, String>) -> (r: Result<Otp, Reply>)
    ensures
        match lookup {
            Err(e) => r matches Err(rep) && is_error_reply(rep, Status::InternalServerError, e@),
            Ok(None) => r matches Err(rep) && is_error_reply(rep, Status::BadRequest, invalid_link_msg()),
            Ok(Some(otp)) => r == Ok::<Otp, Reply>(otp),
        },
{
    match lookup {
        Err(err) => Err(Reply::error(Status::InternalServerError, err.as_str())),
        Ok(data) => match data {
            None => Err(Reply::error(Status::BadRequest, "Invalid Link")),
            Some(otp) => Ok(otp),
        },
    }
}

/// The query for the account that a code was sent for: by phone number for
/// a code sent by SMS, else by e-mail address.
pub fn otp_found_flow(otp: &Otp) -> (f: Filter)
    ensures
        otp.auth_identifier == Some(OtpChoice::PhoneNumber) ==> is_filter(
            f,
            Field::PhoneNumber,
            opt_view(otp.phone_number),
            Some(ToUse::PhoneNumber),
        ),
        otp.auth_identifier != Some(OtpChoice::PhoneNumber) ==> is_filter(
            f,
            Field::Email,
            opt_view(otp.email),
            Some(ToUse::Email),
        ),
{
    match otp.auth_identifier {
        Some(OtpChoice::PhoneNumber) => Filter {
            field: Field::PhoneNumber,
            value: clone_opt(&otp.phone_number),
            auth_identifier: Some(ToUse::PhoneNumber),
        },
        _ => Filter {
            field: Field::Email,
            value: clone_opt(&otp.email),
            auth_identifier: Some(ToUse::Email),
        },
    }
}

/// The flag of a stored document that a mark sets.
#[derive(Clone, Copy, Debug, PartialEq, Eq, Structural)]
pub enum MarkField {
    Verified,
    Archive,
}

/// An update of one stored document: set `field` to `value` on the
/// document whose id is `id`.
pub struct Mark {
    pub id: String,
    pub field: MarkField,
    pub value: bool,
}

/// `m` sets `field` to true on the document whose id is `id`.
pub open spec fn sets_true(m: Mark, id: Option<String>, field: MarkField) -> bool {
    &&& Some(m.id) == id
    &&& m.field == field
    &&& m.value
}

/// What checking the account of a followed link gives: an account already
/// verified is refused; any other is marked verified and the code archived.
pub open spec fn verified_check_spec(user: User, otp: Otp, r: Result<(Mark, Mark), Reply>) -> bool {
    if user.verified == Some(true) {
        r matches Err(rep) && is_error_reply(rep, Status::BadRequest, already_verified_msg())
    } else {
        r matches Ok(marks) && sets_true(marks.0, user._id, MarkField::Verified) && sets_true(
            marks.1,
            otp._id,
            MarkField::Archive,
        )
    }
}

/// An account after a mark is applied to the store.
pub open spec fn apply_user_mark(u: User, m: Mark) -> User {
    if Some(m.id) == u._id && m.field == MarkField::Verified {
        User { verified: Some(m.value), ..u }
    } else {
        u
    }
}

/// A code after a mark is applied to the store.
pub open spec fn apply_otp_mark(o: Otp, m: Mark) -> Otp {
    if Some(m.id) == o._id && m.field == MarkField::Archive {
        Otp { archive: Some(m.value), ..o }
    } else {
        o
    }
}

/// What to mark once the account of a followed link is known: the account
/// as verified, then the code as archived. An account already verified is
/// refused.
pub fn user_verified_check(user: &User, otp: &Otp) -> (r: Result<(Mark, Mark), Reply>)
    requires
        user.verified != Some(true) ==> user._id is Some && otp._id is Some,
    ensures
        verified_check_spec(*user, *otp, r),
{
    match user.verified {
        Some(true) => Err(Reply::error(Status::BadRequest, "Account already verified!")),
        _ => {
            let user_id = match &user._id {
                Some(id) => id.clone(),
                None => String::new(),
            };
            let otp_id = match &otp._id {
                Some(id) => id.clone(),
                None => String::new(),
            };
            Ok((
                Mark { id: user_id, field: MarkField::Verified, value: true },
                Mark { id: otp_id, field: MarkField::Archive, value: true },
            ))
        },
    }
}

/// A link verifies its account once: after the marks of a first visit are
/// applied, the account is verified, the code archived, and a second visit
/// with the same code is refused as already verified.
pub proof fn lemma_link_verifies_once(
    user: User,
    otp: Otp,
    marks: (Mark, Mark),
    second: Result<(Mark, Mark), Reply>,
)
    requires
        verified_check_spec(user, otp, Ok(marks)),
        verified_check_spec(apply_user_mark(user, marks.0), apply_otp_mark(otp, marks.1), second),
    ensures
        apply_user_mark(user, marks.0).verified == Some(true),
        apply_otp_mark(otp, marks.1).archive == Some(true),
        second matches Err(rep) && is_error_reply(rep, Status::BadRequest, already_verified_msg()),
{
}

/// The answer once marking the account as verified succeeded or failed, and
/// whether to go on and archive the code.
pub fn update_user_otp(updated: Result<(), String>) -> (r: (bool, Reply))
    ensures
        match updated {
            Err(e) => !r.0 && is_error_reply(r.1, Status::InternalServerError, e@),
            Ok(_) => r.0 && is_message_reply(r.1, Status::Success, verified_msg()),
        },
{
    match updated {
        Err(err) => (false, Reply::error(Status::InternalServerError, err.as_str())),
        Ok(_) => (true, Reply::message(Status::Success, "Account verified successfully!")),
    }
}

} // verus!
