use auth_service::views::verify_user::verify_link_filter;
use auth_service::models::filters::Field;
use auth_service::models::otps::Otp;
use auth_service::models::users::User;
use auth_service::shared_state::SharedState;
use auth_service::utils::crypto::generate_key;
use auth_service::utils::enums::{OtpChoice, ToUse};
use auth_service::utils::jwt::ProviderClaim;
use auth_service::utils::responses::{Body, Reply, Status};
use auth_service::views::login::{
    add_user, add_user_inserted, add_user_query, complete_profile, email_phonenumber_route, generate_magic_link, login, magic_link,
    magic_link_found, provider_filter, provider_get_user_info, provider_login, provider_token_payload,
    provider_user, provider_validate_token, user_journey_document, user_journey_get_user, AddUserStep, JourneyStep,
    LoginRoute, MagicLinkStep, ProviderStep,
};

fn error_text(r: &Reply) -> String {
    match &r.body {
        Body::Error(e) => e.error.clone(),
        _ => panic!("not an error body"),
    }
}

fn request(auth: Option<ToUse>) -> User {
    User {
        _id: None,
        email: Some("ada@example.com".to_string()),
        password: Some("correct horse".to_string()),
        provider: None,
        firstname: Some("Ada".to_string()),
        lastname: Some("Lovelace".to_string()),
        auth_identifier: auth,
        phone_number: None,
        picture: None,
        verified: None,
        updated_at: None,
        created_at: None,
    }
}

fn stored(password: Option<String>, verified: Option<bool>) -> User {
    User {
        _id: Some("user-1".to_string()),
        email: Some("ada@example.com".to_string()),
        password,
        provider: None,
        firstname: Some("Stored".to_string()),
        lastname: None,
        auth_identifier: Some(ToUse::Email),
        phone_number: None,
        picture: None,
        verified,
        updated_at: None,
        created_at: None,
    }
}

fn with_state<F: FnOnce(&SharedState)>(f: F) {
    actix_web::rt::System::new().block_on(async move {
        let options = mongodb::options::ClientOptions::builder()
            .hosts(vec![mongodb::options::ServerAddress::Tcp { host: "localhost".to_string(), port: Some(27017) }])
            .build();
        let client = mongodb::Client::with_options(options).unwrap();
        let state = SharedState::new(client, generate_key()).unwrap();
        f(&state);
    });
}

fn base64_standard(bytes: &[u8]) -> String {
    base64::encode(bytes)
}

#[test]
fn login_routes_by_identifier() {
    let (u, r) = login(request(None));
    assert_eq!(u.verified, Some(false));
    assert!(u._id.is_some());
    match r {
        LoginRoute::Respond(rep) => {
            assert_eq!(rep.status, Status::BadRequest);
            assert_eq!(error_text(&rep), "Auth identifier is required!");
        },
        _ => panic!("expected an answer"),
    }
    assert!(matches!(login(request(Some(ToUse::Email))).1, LoginRoute::Journey(OtpChoice::Email)));
    match login(request(Some(ToUse::PhoneNumber))).1 {
        LoginRoute::Respond(rep) => assert_eq!(error_text(&rep), "Phone number is required!"),
        _ => panic!("expected an answer"),
    }
    let mut provider = request(Some(ToUse::Provider));
    provider.provider = Some("h.p.s".to_string());
    match login(provider).1 {
        LoginRoute::Provider(t) => assert_eq!(t, "h.p.s"),
        _ => panic!("expected the provider route"),
    }
    let mut no_email = request(Some(ToUse::Email));
    no_email.email = None;
    match email_phonenumber_route(&no_email, "Email is required!", &OtpChoice::Email) {
        LoginRoute::Respond(rep) => assert_eq!(error_text(&rep), "Email is required!"),
        _ => panic!("expected an answer"),
    }
}

#[test]
fn provider_token_is_decoded_and_checked() {
    let payload = base64_standard(br#"{"aud":"client-1","email":"g@example.com"}"#);
    let token = format!("header.{}.signature", payload);
    let p = provider_token_payload(&token).ok().unwrap();
    assert_eq!(p, payload);
    let r = provider_token_payload("only.two").err().unwrap();
    assert_eq!(r.status, Status::BadRequest);
    assert_eq!(error_text(&r), "Invalid JWT format");
    assert!(provider_token_payload("a.b.c.d").is_err());

    assert_eq!(
        provider_get_user_info(&payload),
        Some(r#"{"aud":"client-1","email":"g@example.com"}"#.to_string())
    );
    assert_eq!(provider_get_user_info("not base64!"), None);
    assert_eq!(provider_get_user_info(&base64_standard(&[0xff, 0xfe, 0xfd])), None);

    let claims = ProviderClaim {
        aud: "client-1".to_string(),
        email: "g@example.com".to_string(),
        email_verified: true,
        picture: "pic".to_string(),
        name: "Grace Hopper".to_string(),
    };
    assert!(provider_validate_token(&claims, "client-1").is_ok());
    assert_eq!(provider_validate_token(&claims, "client-2").err().unwrap().error, "Supplied token is invalid.");
}

#[test]
fn provider_claims_fill_the_user() {
    let mk = |name: &str| ProviderClaim {
        aud: "a".to_string(),
        email: "g@example.com".to_string(),
        email_verified: true,
        picture: "pic".to_string(),
        name: name.to_string(),
    };
    let u = provider_user(request(None), mk("Grace Hopper"));
    assert_eq!(u.firstname.as_deref(), Some("Grace"));
    assert_eq!(u.lastname.as_deref(), Some("Hopper"));
    assert_eq!(u.email.as_deref(), Some("g@example.com"));
    assert_eq!(u.auth_identifier, Some(ToUse::Provider));
    assert_eq!(u.picture.as_deref(), Some("pic"));
    assert_eq!(u.verified, Some(true));
    assert_eq!(u.password.as_deref(), Some("correct horse"));
    let u = provider_user(request(None), mk("Grace"));
    assert_eq!(u.firstname.as_deref(), Some("Grace"));
    assert_eq!(u.lastname.as_deref(), Some("Lovelace"));
    let u = provider_user(request(None), mk("Grace Brewster Hopper"));
    assert_eq!(u.firstname.as_deref(), Some("Ada"));
    assert_eq!(u.lastname.as_deref(), Some("Lovelace"));

    let f = provider_filter(&u);
    assert_eq!((f.field, f.value.as_deref(), f.auth_identifier), (Field::Email, Some("g@example.com"), Some(ToUse::Provider)));
}

#[test]
fn provider_login_registers_new_accounts() {
    match provider_login(request(None), Err("db down".to_string())) {
        ProviderStep::Respond(r) => {
            assert_eq!(r.status, Status::InternalServerError);
            assert_eq!(error_text(&r), "db down");
        },
        _ => panic!("expected an answer"),
    }
    match provider_login(request(None), Ok(None)) {
        ProviderStep::Register { record, claim } => {
            assert_eq!(record.email.as_deref(), Some("ada@example.com"));
            assert_eq!(claim.email.as_deref(), Some("ada@example.com"));
            assert!(!claim.access);
        },
        _ => panic!("expected a registration"),
    }
    assert!(matches!(provider_login(request(None), Ok(Some(stored(None, None)))), ProviderStep::IssueTokens(_)));
}

#[test]
fn journey_document_queries_the_contact() {
    let f = user_journey_document(&request(None), &OtpChoice::Email);
    assert_eq!((f.field, f.value.as_deref(), f.auth_identifier), (Field::Email, Some("ada@example.com"), Some(ToUse::Email)));
    let f = user_journey_document(&request(None), &OtpChoice::PhoneNumber);
    assert_eq!((f.field, f.value, f.auth_identifier), (Field::PhoneNumber, None, Some(ToUse::PhoneNumber)));
}

#[test]
fn journey_without_account_sends_a_magic_link() {
    with_state(|state| {
        match user_journey_get_user(state, request(None), Ok(None), &OtpChoice::Email) {
            JourneyStep::SendMagicLink { choice, value, user_exists, reply } => {
                assert_eq!(choice, OtpChoice::Email);
                assert_eq!(value, "ada@example.com");
                assert!(!user_exists);
                assert_eq!(reply.status, Status::Success);
                assert_eq!(error_text(&reply), "Magic link sent");
            },
            _ => panic!("expected a magic link"),
        }
        let mut bad = request(None);
        bad.email = Some("not an address".to_string());
        match user_journey_get_user(state, bad, Ok(None), &OtpChoice::Email) {
            JourneyStep::Respond(r) => assert_eq!(error_text(&r), "Provide a valid email address."),
            _ => panic!("expected a refusal"),
        }
        let mut phone = request(None);
        phone.phone_number = Some("12ab".to_string());
        match user_journey_get_user(state, phone, Ok(None), &OtpChoice::PhoneNumber) {
            JourneyStep::Respond(r) => assert_eq!(error_text(&r), "Provide a valid phone number."),
            _ => panic!("expected a refusal"),
        }
        let mut phone = request(None);
        phone.phone_number = Some("+2348012345678".to_string());
        assert!(matches!(
            user_journey_get_user(state, phone, Ok(None), &OtpChoice::PhoneNumber),
            JourneyStep::SendMagicLink { user_exists: false, .. }
        ));
        match user_journey_get_user(state, request(None), Err("db down".to_string()), &OtpChoice::Email) {
            JourneyStep::Respond(r) => {
                assert_eq!(r.status, Status::InternalServerError);
                assert_eq!(error_text(&r), "db down");
            },
            _ => panic!("expected an answer"),
        }
    });
}

#[test]
fn journey_for_accounts_without_password() {
    with_state(|state| {
        match user_journey_get_user(state, request(None), Ok(Some(stored(None, None))), &OtpChoice::Email) {
            JourneyStep::Respond(r) => {
                assert_eq!(r.status, Status::NotAcceptable);
                assert_eq!(error_text(&r), "User isn't verified. Magic Link sent.");
            },
            _ => panic!("expected a refusal"),
        }
        match user_journey_get_user(state, request(None), Ok(Some(stored(None, Some(false)))), &OtpChoice::Email) {
            JourneyStep::SendMagicLink { user_exists, reply, .. } => {
                assert!(user_exists);
                assert_eq!(reply.status, Status::Success);
                assert_eq!(error_text(&reply), "User isn't verified. Magic Link sent.");
            },
            _ => panic!("expected a magic link"),
        }
        let mut partial = request(None);
        partial.firstname = None;
        partial.password = None;
        match user_journey_get_user(state, partial, Ok(Some(stored(None, Some(true)))), &OtpChoice::Email) {
            JourneyStep::Respond(r) => {
                assert_eq!(r.status, Status::InternalServerError);
                match r.body {
                    Body::Errors(e) => assert_eq!(e.errors, vec!["First name is required!", "Password is required!"]),
                    _ => panic!("expected errors"),
                }
            },
            _ => panic!("expected a refusal"),
        }
    });
}

#[test]
fn completed_profile_password_logs_in_later() {
    with_state(|state| {
        let hash = match user_journey_get_user(state, request(None), Ok(Some(stored(None, Some(true)))), &OtpChoice::Email) {
            JourneyStep::CompleteProfile { user_id, firstname, lastname, password, claim } => {
                assert_eq!(user_id.as_deref(), Some("user-1"));
                assert_eq!(firstname.as_deref(), Some("Ada"));
                assert_eq!(lastname.as_deref(), Some("Lovelace"));
                assert_eq!(claim.firstname.as_deref(), Some("Stored"));
                assert!(bcrypt::verify("correct horse", &password).unwrap());
                assert_eq!(password.len(), 60);
                assert!(password.starts_with("$2b$07$"));
                password
            },
            _ => panic!("expected the profile to be completed"),
        };
        match user_journey_get_user(state, request(None), Ok(Some(stored(Some(hash.clone()), Some(true)))), &OtpChoice::Email) {
            JourneyStep::IssueTokens(c) => assert_eq!(c.user_id.as_deref(), Some("user-1")),
            _ => panic!("expected tokens"),
        }
        let mut wrong = request(None);
        wrong.password = Some("wrong".to_string());
        match user_journey_get_user(state, wrong, Ok(Some(stored(Some(hash.clone()), None))), &OtpChoice::Email) {
            JourneyStep::Respond(r) => {
                assert_eq!(r.status, Status::BadRequest);
                assert_eq!(error_text(&r), "Invalid password. Make sure default is set to the intended value.");
            },
            _ => panic!("expected a refusal"),
        }
        let mut none = request(None);
        none.password = None;
        match user_journey_get_user(state, none, Ok(Some(stored(Some(hash), None))), &OtpChoice::Email) {
            JourneyStep::Respond(r) => assert_eq!(error_text(&r), "Password is required"),
            _ => panic!("expected a refusal"),
        }
        assert!(matches!(
            user_journey_get_user(state, request(None), Ok(Some(stored(Some("not a hash".to_string()), None))), &OtpChoice::Email),
            JourneyStep::VerifyFailed
        ));
    });
}

#[test]
fn magic_link_steps() {
    assert_eq!(magic_link("abc"), "http://localhost:8050/verify-user/abc");
    let plan = generate_magic_link(&OtpChoice::PhoneNumber, "+2348012345678", false);
    assert!(plan.register);
    assert_eq!(plan.otp.auth_identifier, Some(OtpChoice::PhoneNumber));
    assert_eq!(plan.otp.code.len(), 30);
    assert_eq!((plan.lookup.field, plan.lookup.value.as_deref(), plan.lookup.auth_identifier), (Field::PhoneNumber, Some("+2348012345678"), None));
    let plan = generate_magic_link(&OtpChoice::Email, "a@b.co", true);
    assert!(!plan.register);
    assert_eq!(plan.otp.auth_identifier, Some(OtpChoice::Email));

    let code = plan.otp.code.clone();
    match magic_link_found(plan.otp, &OtpChoice::Email, "a@b.co", Ok(None)) {
        MagicLinkStep::Store { otp, link } => {
            assert_eq!(otp.email.as_deref(), Some("a@b.co"));
            assert_eq!(otp.code, code);
            assert_eq!(link, format!("http://localhost:8050/verify-user/{}", code));
        },
        _ => panic!("expected the code to be stored"),
    }
    let earlier = Otp::new(&Some("a@b.co".to_string()), &None);
    let fresh = Otp::new(&None, &None);
    match magic_link_found(fresh, &OtpChoice::Email, "a@b.co", Ok(Some(Otp { code: "old".to_string(), ..earlier }))) {
        MagicLinkStep::Send { link } => assert_eq!(link, "http://localhost:8050/verify-user/old"),
        _ => panic!("expected the earlier code"),
    }
    match magic_link_found(Otp::new(&None, &None), &OtpChoice::Email, "a@b.co", Err("db down".to_string())) {
        MagicLinkStep::Log(e) => assert_eq!(e, "db down"),
        _ => panic!("expected an error"),
    }
}

#[test]
fn add_user_steps() {
    let f = add_user_query(&OtpChoice::Email, "a@b.co");
    assert_eq!((f.field, f.value.as_deref(), f.auth_identifier), (Field::Email, Some("a@b.co"), None));
    match add_user(&OtpChoice::Email, "a@b.co", Ok(Some(stored(None, None)))) {
        AddUserStep::Done(r) => assert_eq!(r, Err("Provided email address already in use.".to_string())),
        _ => panic!("expected a refusal"),
    }
    match add_user(&OtpChoice::PhoneNumber, "+234", Ok(Some(stored(None, None)))) {
        AddUserStep::Done(r) => assert_eq!(r, Err("Provided phone number already in use.".to_string())),
        _ => panic!("expected a refusal"),
    }
    match add_user(&OtpChoice::PhoneNumber, "+234", Ok(None)) {
        AddUserStep::Insert(n) => {
            assert_eq!(n.choice, OtpChoice::PhoneNumber);
            assert_eq!(n.value, "+234");
            assert_eq!(n._id.len(), 36);
            assert_eq!(n.auth_identifier, ToUse::PhoneNumber);
            assert!(!n.verified);
        },
        _ => panic!("expected an insert"),
    }
    match add_user(&OtpChoice::Email, "a@b.co", Err("db down".to_string())) {
        AddUserStep::Done(r) => assert_eq!(r, Err("db down".to_string())),
        _ => panic!("expected an error"),
    }
    assert_eq!(add_user_inserted(Ok(())), Ok(true));
    assert_eq!(add_user_inserted(Err("dup".to_string())), Err("dup".to_string()));
}

#[test]
fn stored_code_is_the_one_the_link_looks_up() {
    let plan = generate_magic_link(&OtpChoice::Email, "a@b.co", true);
    match magic_link_found(plan.otp, &OtpChoice::Email, "a@b.co", Ok(None)) {
        MagicLinkStep::Store { otp, link } => {
            let code = link.strip_prefix("http://localhost:8050/verify-user/").unwrap().to_string();
            let f = verify_link_filter(code);
            assert_eq!(f.field, Field::Code);
            assert_eq!(f.value, Some(otp.code));
        },
        _ => panic!("expected the code to be stored"),
    }
}

#[test]
fn complete_profile_takes_the_hash_result() {
    match complete_profile(request(None), stored(None, Some(true)), Ok::<String, ()>("$2b$07$hash".to_string())) {
        JourneyStep::CompleteProfile { user_id, firstname, lastname, password, claim } => {
            assert_eq!(user_id.as_deref(), Some("user-1"));
            assert_eq!(firstname.as_deref(), Some("Ada"));
            assert_eq!(lastname.as_deref(), Some("Lovelace"));
            assert_eq!(password, "$2b$07$hash");
            assert_eq!(claim.firstname.as_deref(), Some("Stored"));
            assert!(!claim.access);
        },
        _ => panic!("expected the profile to be completed"),
    }
    assert!(matches!(
        complete_profile(request(None), stored(None, Some(true)), Err::<String, ()>(())),
        JourneyStep::HashFailed
    ));
}
