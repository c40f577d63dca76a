use auth_service::models::filters::Field;
use auth_service::utils::enums::Tokens;
use auth_service::utils::jwt::{
    access_check, get_duration_token, token_claims, token_pair_claims, validate_refresh_token, CustomClaim,
    TokenBlacklist,
};
use auth_service::utils::responses::{Body, Status, Token};
use auth_service::views::refresh::{refresh_tokens, refresh_verified, validate_refresh};
use auth_service::views::verify_token::{validate_token, validate_token_access, validate_token_blacklist, Code};

fn claim(access: bool) -> CustomClaim {
    CustomClaim {
        email: Some("ada@example.com".to_string()),
        phone_number: None,
        user_id: Some("id-1".to_string()),
        access,
        firstname: Some("Ada".to_string()),
        lastname: Some("Lovelace".to_string()),
    }
}

fn error_text(body: &Body) -> String {
    match body {
        Body::Error(e) => e.error.clone(),
        _ => panic!("not an error body"),
    }
}

#[test]
fn durations_of_token_kinds() {
    assert_eq!(get_duration_token(&Tokens::Access), (600, true));
    assert_eq!(get_duration_token(&Tokens::Refresh), (604800, false));
}

#[test]
fn token_claims_set_the_access_flag() {
    let (c, secs) = token_claims(claim(false), &Tokens::Access);
    assert!(c.access);
    assert_eq!(secs, 600);
    assert_eq!(c.user_id, Some("id-1".to_string()));
    let (c, secs) = token_claims(claim(true), &Tokens::Refresh);
    assert!(!c.access);
    assert_eq!(secs, 604800);
    let ((a, a_secs), (r, r_secs)) = token_pair_claims(claim(false));
    assert!(a.access && !r.access);
    assert_eq!((a_secs, r_secs), (600, 604800));
    assert_eq!(a.email, r.email);
    assert_eq!(a.lastname, Some("Lovelace".to_string()));
}

#[test]
fn access_check_accepts_only_refresh_tokens() {
    assert_eq!(access_check(&claim(false)), Ok(()));
    assert_eq!(access_check(&claim(true)), Err("Token is not a refresh token".to_string()));
    assert_eq!(validate_refresh_token(Ok(claim(false))), Ok(()));
    assert_eq!(validate_refresh_token(Ok(claim(true))), Err("Token is not a refresh token".to_string()));
    assert_eq!(validate_refresh_token(Err("token has expired".to_string())), Err("token has expired".to_string()));
}

#[test]
fn token_kinds_are_not_interchangeable() {
    for user in [claim(true), claim(false)] {
        let ((access, _), (refresh, _)) = token_pair_claims(user);
        assert!(access_check(&refresh).is_ok());
        assert!(access_check(&access).is_err());
        assert!(validate_token_access("t", &access).is_ok());
        assert_eq!(validate_token_access("t", &refresh).err().unwrap().code, Code::InvalidArgument);
    }
}

#[test]
fn refresh_flow() {
    let r = refresh_tokens(Token { token: None }).err().unwrap();
    assert_eq!(r.status, Status::BadRequest);
    assert_eq!(error_text(&r.body), "Refresh token is required.");
    assert_eq!(refresh_tokens(Token { token: Some("abc".to_string()) }).ok(), Some("abc".to_string()));

    let r = refresh_verified::<String>(Err("bad signature".to_string())).err().unwrap();
    assert_eq!(r.status, Status::BadRequest);
    assert_eq!(error_text(&r.body), "Token is invalid.");
    let r = refresh_verified::<String>(Ok(claim(true))).err().unwrap();
    assert_eq!(error_text(&r.body), "Provide a valid refresh key.");
    let c = refresh_verified::<String>(Ok(claim(false))).ok().unwrap();
    assert_eq!(c.user_id, Some("id-1".to_string()));
    assert!(validate_refresh(claim(true)).is_err());
    assert!(validate_refresh(claim(false)).is_ok());
}

#[test]
fn token_service_checks() {
    let s = validate_token("t", Err("expired".to_string())).err().unwrap();
    assert_eq!((s.code, s.message.as_str()), (Code::Unavailable, "expired"));
    let s = validate_token("t", Ok(claim(false))).err().unwrap();
    assert_eq!((s.code, s.message.as_str()), (Code::InvalidArgument, "Invalid token"));
    let f = validate_token("tok", Ok(claim(true))).ok().unwrap();
    assert_eq!(f.field, Field::Token);
    assert_eq!(f.value, Some("tok".to_string()));
    assert_eq!(f.auth_identifier, None);

    let s = validate_token_blacklist(Err("db down".to_string())).err().unwrap();
    assert_eq!((s.code, s.message.as_str()), (Code::Cancelled, "db down"));
    let s = validate_token_blacklist(Ok(Some(TokenBlacklist::new("tok".to_string())))).err().unwrap();
    assert_eq!((s.code, s.message.as_str()), (Code::Unknown, "Invalid token"));
    assert_eq!(validate_token_blacklist(Ok(None)).ok().unwrap().message, "Valid");
}
