use auth_service::models::forgot::ForgotCode;
use auth_service::models::otps::Otp;
use auth_service::models::users::User;
use auth_service::utils::enums::OtpChoice;
use auth_service::utils::generate_random_code;
use auth_service::utils::jwt::TokenBlacklist;
use auth_service::utils::text::{clone_opt, split_char};
use auth_service::utils::Timestamps;

fn is_uuid_v4(s: &str) -> bool {
    let c: Vec<char> = s.chars().collect();
    c.len() == 36
        && c.iter().enumerate().all(|(i, ch)| {
            if i == 8 || i == 13 || i == 18 || i == 23 {
                *ch == '-'
            } else {
                ch.is_ascii_hexdigit() && !ch.is_ascii_uppercase()
            }
        })
        && c[14] == '4'
}

fn blank_user() -> User {
    User {
        _id: None,
        email: Some("ada@example.com".to_string()),
        password: None,
        provider: None,
        firstname: Some("Ada".to_string()),
        lastname: None,
        auth_identifier: None,
        phone_number: None,
        picture: None,
        verified: Some(true),
        updated_at: None,
        created_at: None,
    }
}

#[test]
fn split_char_keeps_empty_pieces() {
    assert_eq!(split_char("a.b.c", '.'), vec!["a", "b", "c"]);
    assert_eq!(split_char("", '.'), vec![""]);
    assert_eq!(split_char("a..b", '.'), vec!["a", "", "b"]);
    assert_eq!(split_char(".", '.'), vec!["", ""]);
    assert_eq!(split_char("Bearer  tok", ' '), vec!["Bearer", "", "tok"]);
    assert_eq!(split_char("é ü", ' '), vec!["é", "ü"]);
}

#[test]
fn split_then_join_gives_the_string_back() {
    for s in ["a.b", "", "..", "x.y.z.", "no separator"] {
        assert_eq!(split_char(s, '.').join("."), s);
        assert!(split_char(s, '.').iter().all(|p| !p.contains('.')));
    }
}

#[test]
fn random_code_has_requested_length_and_charset() {
    let code = generate_random_code(30);
    assert_eq!(code.chars().count(), 30);
    assert!(code.chars().all(|c| c.is_ascii_alphanumeric()));
    assert_eq!(generate_random_code(0), "");
}

#[test]
fn clone_opt_copies() {
    assert_eq!(clone_opt(&Some("x".to_string())), Some("x".to_string()));
    assert_eq!(clone_opt(&None), None);
}

#[test]
fn otp_new_is_fresh_and_unarchived() {
    let otp = Otp::new(&Some("a@b.co".to_string()), &None);
    assert!(is_uuid_v4(otp._id.as_ref().unwrap()));
    assert_eq!(otp.code.len(), 30);
    assert!(otp.code.chars().all(|c| c.is_ascii_alphanumeric()));
    assert_eq!(otp.email, Some("a@b.co".to_string()));
    assert_eq!(otp.phone_number, None);
    assert_eq!(otp.auth_identifier, Some(OtpChoice::Email));
    assert_eq!(otp.archive, Some(false));
    assert!(otp.created_at.is_some());
}

#[test]
fn forgot_code_new_is_fresh() {
    let f = ForgotCode::new("+2348000000000", &OtpChoice::PhoneNumber);
    assert!(is_uuid_v4(f._id.as_ref().unwrap()));
    assert_eq!(f.code.len(), 30);
    assert_eq!(f.value, "+2348000000000");
    assert_eq!(f.auth_identifier, OtpChoice::PhoneNumber);
    assert_eq!(f.archive, Some(false));
    assert!(f.created_at.is_some() && f.updated_at.is_some());
}

#[test]
fn blacklist_entry_keeps_token() {
    let t = TokenBlacklist::new("abc.def.ghi".to_string());
    assert_eq!(t.token, "abc.def.ghi");
    assert!(is_uuid_v4(&t._id));
    let u = TokenBlacklist::new("abc.def.ghi".to_string());
    assert_ne!(t._id, u._id);
}

#[test]
fn reset_gives_fresh_identity_and_keeps_the_rest() {
    let mut u = blank_user();
    u.reset();
    assert!(is_uuid_v4(u._id.as_ref().unwrap()));
    assert_eq!(u.verified, Some(false));
    assert!(u.created_at.is_some() && u.updated_at.is_some());
    assert_eq!(u.email, Some("ada@example.com".to_string()));
    assert_eq!(u.firstname, Some("Ada".to_string()));
    let id = u._id.clone();
    let created = u.created_at;
    u.update();
    assert_eq!(u._id, id);
    assert_eq!(u.created_at, created);
    assert_eq!(u.verified, Some(false));
    assert!(u.updated_at.is_some());
}
