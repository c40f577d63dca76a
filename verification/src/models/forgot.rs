use vstd::prelude::*;
use crate::models::otps::is_fresh_code;
use crate::utils::entropy::{generate_random_code, is_uuid_v4_text, new_uuid_v4, now_millis};
use crate::utils::enums::OtpChoice;

verus! {

/// A password-reset code sent to an e-mail address or phone number.
pub struct ForgotCode {
    pub _id: Option<String>,
    pub code: String,
    pub value: String,
    pub auth_identifier: OtpChoice,
    pub archive: Option<bool>,
    pub updated_at: Option<i64>,
    pub created_at: Option<i64>,
}

impl ForgotCode {
    /// A new, unarchived reset code for `value`, reached through
    /// `auth_identifier`.
    pub fn new(value: &str, auth_identifier: &OtpChoice) -> (f: ForgotCode)
        ensures
            f._id matches Some(id) && is_uuid_v4_text(id@),
            is_fresh_code(f.code@),
            f.value@ == value@,
            f.auth_identifier == *auth_identifier,
            f.archive == Some(false),
            f.created_at is Some,
            f.updated_at is Some,
    {
        let id = new_uuid_v4();
        let code = generate_random_code(30);
        let created = now_millis();
        let updated = now_millis();
        ForgotCode {
            _id: Some(id),
            code,
            value: value.to_owned(),
            auth_identifier: *auth_identifier,
            archive: Some(false),
            created_at: Some(created),
            updated_at: Some(updated),
        }
    }
}

} // verus!
