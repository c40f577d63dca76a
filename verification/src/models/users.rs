use vstd::prelude::*;
use crate::utils::entropy::{is_uuid_v4_text, new_uuid_v4, now_millis};
use crate::utils::enums::{OtpChoice, ToUse};
use crate::utils::Timestamps;
use crate::utils::text::clone_opt;

verus! {

/// A request to confirm the owner of an e-mail address or phone number.
pub struct ValidateUser {
    pub value: String,
    pub auth_identifier: OtpChoice,
}

/// A user account, as stored and as sent in login requests.
pub struct User {
    pub _id: Option<String>,
    pub email: Option<String>,
    pub password: Option<String>,
    pub provider: Option<String>,
    pub firstname: Option<String>,
    pub lastname: Option<String>,
    pub auth_identifier: Option<ToUse>,
    pub phone_number: Option<String>,
    pub picture: Option<String>,
    pub verified: Option<bool>,
    pub updated_at: Option<i64>,
    pub created_at: Option<i64>,
}

/// `u` has been given a fresh identity from `old`: a random id, both times
/// set, not verified, everything else kept.
pub open spec fn is_reset_of(u: User, old: User) -> bool {
    &&& u._id matches Some(id) && is_uuid_v4_text(id@)
    &&& u.verified == Some(false)
    &&& u.updated_at is Some
    &&& u.created_at is Some
    &&& u == (User { _id: u._id, verified: u.verified, updated_at: u.updated_at, created_at: u.created_at, ..old })
}

/// Resetting a request keeps everything it carries except its identity: the
/// contact details, password, provider token, names, way of signing in and
/// picture are those of the request, the id is a fresh v4 UUID, the account
/// is not verified and both times are set.
pub proof fn lemma_reset_keeps_request(u: User, old: User)
    requires
        is_reset_of(u, old),
    ensures
        u.email == old.email,
        u.password == old.password,
        u.provider == old.provider,
        u.firstname == old.firstname,
        u.lastname == old.lastname,
        u.auth_identifier == old.auth_identifier,
        u.phone_number == old.phone_number,
        u.picture == old.picture,
        u._id matches Some(id) && is_uuid_v4_text(id@),
        u.verified == Some(false),
        u.created_at is Some && u.updated_at is Some,
{
}

/// `u` is `old` marked as updated: only the update time changes, and it is
/// set.
pub open spec fn is_update_of(u: User, old: User) -> bool {
    &&& u.updated_at is Some
    &&& u == (User { updated_at: u.updated_at, ..old })
}

/// Updating keeps what resetting gave: the id, the creation time and the
/// verification mark.
pub proof fn lemma_update_keeps_identity(fresh: User, reset: User, updated: User)
    requires
        is_reset_of(reset, fresh),
        is_update_of(updated, reset),
    ensures
        updated._id == reset._id,
        updated.created_at == reset.created_at,
        updated.verified == Some(false),
{
}

impl Timestamps for User {
    fn reset(&mut self)
        ensures
            is_reset_of(*final(self), *old(self)),
            final(self).email == old(self).email,
            final(self).password == old(self).password,
            final(self).provider == old(self).provider,
            final(self).firstname == old(self).firstname,
            final(self).lastname == old(self).lastname,
            final(self).auth_identifier == old(self).auth_identifier,
            final(self).phone_number == old(self).phone_number,
            final(self).picture == old(self).picture,
    {
        self._id = Some(new_uuid_v4());
        self.updated_at = Some(now_millis());
        self.verified = Some(false);
        self.created_at = Some(now_millis());
    }

    fn update(&mut self)
        ensures
            is_update_of(*final(self), *old(self)),
    {
        self.updated_at = Some(now_millis());
    }
}

} // verus!

verus! {

/// A copy of a user record.
pub fn clone_user(u: &User) -> (r: User)
    ensures
        r == *u,
{
    User {
        _id: clone_opt(&u._id),
        email: clone_opt(&u.email),
        password: clone_opt(&u.password),
        provider: clone_opt(&u.provider),
        firstname: clone_opt(&u.firstname),
        lastname: clone_opt(&u.lastname),
        auth_identifier: u.auth_identifier,
        phone_number: clone_opt(&u.phone_number),
        picture: clone_opt(&u.picture),
        verified: u.verified,
        updated_at: u.updated_at,
        created_at: u.created_at,
    }
}

} // verus!
