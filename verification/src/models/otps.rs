use vstd::prelude::*;
use crate::utils::entropy::{generate_random_code, is_ascii_alphanumeric, is_uuid_v4_text, new_uuid_v4, now_millis};
use crate::utils::enums::OtpChoice;
use crate::utils::text::clone_opt;

verus! {

/// A one-time code, the link secret sent to confirm an e-mail address or a
/// phone number.
pub struct Otp {
    pub _id: Option<String>,
    pub code: String,
    pub email: Option<String>,
    pub phone_number: Option<String>,
    pub auth_identifier: Option<OtpChoice>,
    pub archive: Option<bool>,
    pub created_at: Option<i64>,
}

/// `c` is a code as the service draws them: 30 ASCII letters and digits.
pub open spec fn is_fresh_code(c: Seq<char>) -> bool {
    &&& c.len() == 30
    &&& forall|i: int| 0 <= i < 30 ==> is_ascii_alphanumeric(#[trigger] c[i])
}

impl Otp {
    /// A new, unarchived code for the given contact details, marked as
    /// delivered by e-mail.
    pub fn new(email: &Option<String>, phone_number: &Option<String>) -> (otp: Otp)
        ensures
            otp._id matches Some(id) && is_uuid_v4_text(id@),
            is_fresh_code(otp.code@),
            otp.email == *email,
            otp.phone_number == *phone_number,
            otp.auth_identifier == Some(OtpChoice::Email),
            otp.archive == Some(false),
            otp.created_at is Some,
    {
        let id = new_uuid_v4();
        let code = generate_random_code(30);
        let created = now_millis();
        Otp {
            _id: Some(id),
            code,
            email: clone_opt(email),
            auth_identifier: Some(OtpChoice::Email),
            phone_number: clone_opt(phone_number),
            archive: Some(false),
            created_at: Some(created),
        }
    }
}

} // verus!
