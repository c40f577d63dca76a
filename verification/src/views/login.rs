use vstd::prelude::*;
use vstd::string::*;
use crate::models::filters::{is_filter, opt_view, user_matches, Field, Filter};
use crate::models::users::{clone_user, is_reset_of, User};
use crate::utils::encoding::{base64_decode, base64_standard_decode, string_from_utf8};
use crate::utils::enums::{OtpChoice, ToUse};
use crate::utils::jwt::{claim_of, CustomClaim, ProviderClaim};
use crate::utils::responses::{is_error_reply, is_errors_reply, Body, ReturnError, ReturnErrors, Reply, Status};
use crate::utils::text::{free_of, lemma_split_append, lemma_split_free, split_char, split_spec, views};
use crate::utils::crypto::{bcrypt_hash, bcrypt_prefix, bcrypt_verify, bcrypt_verify_outcome};
use crate::shared_state::{regex_is_match, SharedState, EMAIL_PATTERN, PHONE_PATTERN};
use crate::utils::Timestamps;
use crate::models::otps::{is_fresh_code, Otp};
use crate::utils::entropy::{is_uuid_v4_text, new_uuid_v4};
use vstd::utf8::*;

verus! {

pub open spec fn auth_identifier_required_msg() -> Seq<char> {
    "Auth identifier is required!"@
}

pub open spec fn email_required_msg() -> Seq<char> {
    "Email is required!"@
}

pub open spec fn phone_required_msg() -> Seq<char> {
    "Phone number is required!"@
}

pub open spec fn invalid_jwt_format_msg() -> Seq<char> {
    "Invalid JWT format"@
}

pub open spec fn supplied_token_invalid_msg() -> Seq<char> {
    "Supplied token is invalid."@
}

/// The contact detail of `user` that `choice` names.
pub open spec fn contact(user: User, choice: OtpChoice) -> Option<String> {
    match choice {
        OtpChoice::Email => user.email,
        OtpChoice::PhoneNumber => user.phone_number,
    }
}

/// The stored field that holds the contact detail `choice` names.
pub open spec fn contact_field(choice: OtpChoice) -> Field {
    match choice {
        OtpChoice::Email => Field::Email,
        OtpChoice::PhoneNumber => Field::PhoneNumber,
    }
}

/// The way of signing in that goes with a delivery channel.
pub open spec fn to_use_of(choice: OtpChoice) -> ToUse {
    match choice {
        OtpChoice::Email => ToUse::Email,
        OtpChoice::PhoneNumber => ToUse::PhoneNumber,
    }
}

/// Where a login request goes next.
pub enum LoginRoute {
    /// It is answered at once.
    Respond(Reply),
    /// It goes on by the e-mail address or the phone number.
    Journey(OtpChoice),
    /// It goes on with this token of an outside sign-in provider.
    Provider(String),
}

/// A login by e-mail address or phone number needs that contact detail.
pub fn email_phonenumber_route(user: &User, error_message: &str, choice: &OtpChoice) -> (r: LoginRoute)
    ensures
        contact(*user, *choice) is None ==> (r matches LoginRoute::Respond(rep) && is_error_reply(
            rep,
            Status::BadRequest,
            error_message@,
        )),
        contact(*user, *choice) is Some ==> r == LoginRoute::Journey(*choice),
{
    let present = match choice {
        OtpChoice::Email => user.email.is_some(),
        OtpChoice::PhoneNumber => user.phone_number.is_some(),
    };
    if present {
        LoginRoute::Journey(*choice)
    } else {
        LoginRoute::Respond(Reply::error(Status::BadRequest, error_message))
    }
}

/// The first step of a login: the request's user is given a fresh identity,
/// then sent on by the way of signing in it asks for.
pub fn login(data: User) -> (r: (User, LoginRoute))
    requires
        data.auth_identifier == Some(ToUse::Provider) ==> data.provider is Some,
    ensures
        is_reset_of(r.0, data),
        match data.auth_identifier {
            None => r.1 matches LoginRoute::Respond(rep) && is_error_reply(
                rep,
                Status::BadRequest,
                auth_identifier_required_msg(),
            ),
            Some(ToUse::Email) => if data.email is None {
                r.1 matches LoginRoute::Respond(rep) && is_error_reply(rep, Status::BadRequest, email_required_msg())
            } else {
                r.1 == LoginRoute::Journey(OtpChoice::Email)
            },
            Some(ToUse::PhoneNumber) => if data.phone_number is None {
                r.1 matches LoginRoute::Respond(rep) && is_error_reply(rep, Status::BadRequest, phone_required_msg())
            } else {
                r.1 == LoginRoute::Journey(OtpChoice::PhoneNumber)
            },
            Some(ToUse::Provider) => r.1 matches LoginRoute::Provider(t) && t@ == data.provider.unwrap()@,
        },
{
    let mut user = data;
    user.reset();
    let route = match user.auth_identifier {
        None => LoginRoute::Respond(Reply::error(Status::BadRequest, "Auth identifier is required!")),
        Some(ToUse::Email) => email_phonenumber_route(&user, "Email is required!", &OtpChoice::Email),
        Some(ToUse::PhoneNumber) => email_phonenumber_route(&user, "Phone number is required!", &OtpChoice::PhoneNumber),
        Some(ToUse::Provider) => {
            let token = match &user.provider {
                Some(p) => p.clone(),
                None => String::new(),
            };
            LoginRoute::Provider(token)
        },
    };
    (user, route)
}

/// The payload part of a provider token `header.payload.signature`, or the
/// bad-request answer when the token does not have three parts.
pub fn provider_token_payload(provider: &str) -> (r: Result<String, Reply>)
    ensures
        split_spec(provider@, '.').len() != 3 ==> (r matches Err(rep) && is_error_reply(
            rep,
            Status::BadRequest,
            invalid_jwt_format_msg(),
        )),
        split_spec(provider@, '.').len() == 3 ==> (r matches Ok(p) && p@ == split_spec(provider@, '.')[1]),
{
    let parts = split_char(provider, '.');
    if parts.len() != 3 {
        Err(Reply::error(Status::BadRequest, "Invalid JWT format"))
    } else {
        let payload = parts[1].clone();
        assert(parts@[1]@ == split_spec(provider@, '.')[1]);
        Ok(payload)
    }
}

/// The text that a provider token's payload decodes to: base64, then
/// UTF-8. `None` where either step fails.
pub open spec fn provider_payload_text(payload: Seq<u8>) -> Option<Seq<char>> {
    match base64_standard_decode(payload) {
        Some(bytes) => if valid_utf8(bytes) {
            Some(decode_utf8(bytes))
        } else {
            None
        },
        None => None,
    }
}

/// Decodes the payload part of a provider token to the JSON text of its
/// claims; `None` where the payload is not base64 of UTF-8 text.
pub fn provider_get_user_info(payload: &str) -> (r: Option<String>)
    requires
        payload.spec_bytes().len() + 3 <= usize::MAX,
    ensures
        match provider_payload_text(payload.spec_bytes()) {
            Some(t) => r matches Some(s) && s@ == t,
            None => r is None,
        },
{
    let bytes = payload.as_bytes();
    match base64_decode(bytes) {
        Err(_) => None,
        Ok(decoded) => match string_from_utf8(decoded) {
            Err(_) => None,
            Ok(text) => Some(text),
        },
    }
}

/// A provider token is only taken when it was issued for this service's
/// client id.
pub fn provider_validate_token(user_info: &ProviderClaim, google_client_id: &str) -> (r: Result<(), ReturnError>)
    ensures
        r is Ok <==> user_info.aud@ == google_client_id@,
        r matches Err(e) ==> e.error@ == supplied_token_invalid_msg(),
{
    let client_id = google_client_id.to_owned();
    if user_info.aud != client_id {
        Err(ReturnError::new("Supplied token is invalid.".to_owned()))
    } else {
        Ok(())
    }
}

/// The account details that a provider's claims give: the first and last
/// name from the full name where it has one or two space-separated parts,
/// the e-mail address, picture and whether the provider verified the
/// address.
pub open spec fn provider_user_spec(u: User, user: User, claims: ProviderClaim) -> bool {
    let names = split_spec(claims.name@, ' ');
    &&& opt_view(u.firstname) == (if names.len() == 1 || names.len() == 2 {
        Some(names[0])
    } else {
        opt_view(user.firstname)
    })
    &&& opt_view(u.lastname) == (if names.len() == 2 {
        Some(names[1])
    } else {
        opt_view(user.lastname)
    })
    &&& (names.len() != 1 && names.len() != 2) ==> u.firstname == user.firstname
    &&& names.len() != 2 ==> u.lastname == user.lastname
    &&& u == (User {
        firstname: u.firstname,
        lastname: u.lastname,
        email: Some(claims.email),
        auth_identifier: Some(ToUse::Provider),
        picture: Some(claims.picture),
        verified: Some(claims.email_verified),
        ..user
    })
}

/// Fills in a user from the claims of a provider token.
pub fn provider_user(user: User, claims: ProviderClaim) -> (u: User)
    ensures
        provider_user_spec(u, user, claims),
        u.verified == Some(claims.email_verified),
        u.email == Some(claims.email),
        u.picture == Some(claims.picture),
        u.auth_identifier == Some(ToUse::Provider),
        u.password == user.password,
        u._id == user._id,
{
    let mut user = user;
    let names = split_char(claims.name.as_str(), ' ');
    if names.len() == 2 {
        user.firstname = Some(names[0].clone());
        user.lastname = Some(names[1].clone());
    } else if names.len() == 1 {
        user.firstname = Some(names[0].clone());
    }
    user.email = Some(claims.email);
    user.auth_identifier = Some(ToUse::Provider);
    user.picture = Some(claims.picture);
    user.verified = Some(claims.email_verified);
    user
}

/// The query for an account made through a provider with the user's
/// e-mail address.
pub fn provider_filter(user: &User) -> (f: Filter)
    ensures
        is_filter(f, Field::Email, opt_view(user.email), Some(ToUse::Provider)),
{
    Filter {
        field: Field::Email,
        value: crate::utils::text::clone_opt(&user.email),
        auth_identifier: Some(ToUse::Provider),
    }
}

/// Where a provider login goes once the account has been looked up.
pub enum ProviderStep {
    /// It is answered at once.
    Respond(Reply),
    /// The account is new: store this record, then hand out tokens for these
    /// claims.
    Register { record: User, claim: CustomClaim },
    /// The account exists: hand out tokens for these claims.
    IssueTokens(CustomClaim),
}

/// The last step of a provider login, given the lookup of the account: a
/// new account is stored, and either way tokens are made for the user's
/// details.
pub fn provider_login(user: User, lookup: Result<Option<User>, String>) -> (r: ProviderStep)
    ensures
        match lookup {
            Err(e) => r matches ProviderStep::Respond(rep) && is_error_reply(rep, Status::InternalServerError, e@),
            Ok(None) => r == (ProviderStep::Register { record: user, claim: claim_of(user) }),
            Ok(Some(_)) => r == ProviderStep::IssueTokens(claim_of(user)),
        },
{
    match lookup {
        Err(err) => ProviderStep::Respond(Reply::error(Status::InternalServerError, err.as_str())),
        Ok(None) => {
            let record = clone_user(&user);
            ProviderStep::Register { record, claim: CustomClaim::new(user) }
        },
        Ok(Some(_)) => ProviderStep::IssueTokens(CustomClaim::new(user)),
    }
}

pub open spec fn valid_email_msg() -> Seq<char> {
    "Provide a valid email address."@
}

pub open spec fn valid_phone_msg() -> Seq<char> {
    "Provide a valid phone number."@
}

pub open spec fn magic_link_sent_msg() -> Seq<char> {
    "Magic link sent"@
}

pub open spec fn not_verified_msg() -> Seq<char> {
    "User isn't verified. Magic Link sent."@
}

pub open spec fn first_name_required_msg() -> Seq<char> {
    "First name is required!"@
}

pub open spec fn last_name_required_msg() -> Seq<char> {
    "Last name is required!"@
}

pub open spec fn password_missing_msg() -> Seq<char> {
    "Password is required!"@
}

pub open spec fn password_required_msg() -> Seq<char> {
    "Password is required"@
}

pub open spec fn invalid_password_msg() -> Seq<char> {
    "Invalid password. Make sure default is set to the intended value."@
}

/// The cost with which new passwords are hashed.
pub const PASSWORD_COST: u32 = 7;

/// The query for the account that a login by e-mail address or phone number
/// is for.
pub fn user_journey_document(user: &User, choice: &OtpChoice) -> (f: Filter)
    ensures
        is_filter(f, contact_field(*choice), opt_view(contact(*user, *choice)), Some(to_use_of(*choice))),
{
    match choice {
        OtpChoice::Email => Filter {
            field: Field::Email,
            value: crate::utils::text::clone_opt(&user.email),
            auth_identifier: Some(ToUse::Email),
        },
        OtpChoice::PhoneNumber => Filter {
            field: Field::PhoneNumber,
            value: crate::utils::text::clone_opt(&user.phone_number),
            auth_identifier: Some(ToUse::PhoneNumber),
        },
    }
}

/// The pattern that a contact detail of kind `choice` is checked against.
pub open spec fn contact_pattern(state: SharedState, choice: OtpChoice) -> Seq<char> {
    match choice {
        OtpChoice::Email => state.email_regex.pattern(),
        OtpChoice::PhoneNumber => state.phone_regex.pattern(),
    }
}

/// The message given for a contact detail that fails its check.
pub open spec fn invalid_contact_msg(choice: OtpChoice) -> Seq<char> {
    match choice {
        OtpChoice::Email => valid_email_msg(),
        OtpChoice::PhoneNumber => valid_phone_msg(),
    }
}

/// The messages for what a request that completes a profile leaves out, in
/// the order first name, last name, password.
pub open spec fn profile_errors(user: User) -> Seq<Seq<char>> {
    (if user.firstname is None { seq![first_name_required_msg()] } else { Seq::empty() })
        + (if user.lastname is None { seq![last_name_required_msg()] } else { Seq::empty() })
        + (if user.password is None { seq![password_missing_msg()] } else { Seq::empty() })
}

/// Where a login by e-mail address or phone number goes once the account
/// has been looked up.
pub enum JourneyStep {
    /// It is answered at once.
    Respond(Reply),
    /// Send a magic link to `value` by `choice` (first adding the account
    /// when `user_exists` is false), then answer with `reply`.
    SendMagicLink { choice: OtpChoice, value: String, user_exists: bool, reply: Reply },
    /// Store the names and the password hash on the account `user_id`, then
    /// hand out tokens for `claim`.
    CompleteProfile {
        user_id: Option<String>,
        firstname: Option<String>,
        lastname: Option<String>,
        password: String,
        claim: CustomClaim,
    },
    /// Hand out tokens for these claims.
    IssueTokens(CustomClaim),
    /// Hashing the new password failed.
    HashFailed,
    /// The stored password hash could not be checked.
    VerifyFailed,
}

/// What the journey does for a request `user` by `choice`, given the lookup
/// of the account:
/// - no account: the contact detail is checked against its pattern; a good
///   one gets a magic link (the account is added), a bad one is refused;
/// - an account without a password that was never marked: refused as not
///   verified;
/// - one marked verified: the request must carry first name, last name and
///   password, which are then stored (the password hashed) and tokens
///   handed out;
/// - one marked unverified: it gets a magic link again;
/// - an account with a password: the request's password must match it.
pub open spec fn journey_spec(state: SharedState, user: User, lookup: Result<Option<User>, String>, choice: OtpChoice, step: JourneyStep) -> bool {
    match lookup {
        Err(e) => step matches JourneyStep::Respond(rep) && is_error_reply(rep, Status::InternalServerError, e@),
        Ok(None) => {
            let value = contact(user, choice).unwrap();
            if regex_is_match(contact_pattern(state, choice), value@) {
                step matches JourneyStep::SendMagicLink { choice: c, value: v, user_exists, reply }
                    && c == choice && v@ == value@ && !user_exists
                    && is_error_reply(reply, Status::Success, magic_link_sent_msg())
            } else {
                step matches JourneyStep::Respond(rep) && is_error_reply(rep, Status::BadRequest, invalid_contact_msg(choice))
            }
        },
        Ok(Some(data)) => match data.password {
            None => match data.verified {
                None => step matches JourneyStep::Respond(rep) && is_error_reply(rep, Status::NotAcceptable, not_verified_msg()),
                Some(true) => if profile_errors(user).len() > 0 {
                    step matches JourneyStep::Respond(rep) && is_errors_reply(rep, Status::InternalServerError, profile_errors(user))
                } else {
                    step is HashFailed || (step matches JourneyStep::CompleteProfile { user_id, firstname, lastname, password, claim }
                        && user_id == data._id && firstname == user.firstname && lastname == user.lastname
                        && bcrypt_verify_outcome(user.password.unwrap()@, password@) == Some(true)
                        && password@.len() == 60 && password@.subrange(0, 7) == bcrypt_prefix(PASSWORD_COST)
                        && claim == claim_of(data))
                },
                Some(false) => {
                    let value = contact(user, choice).unwrap();
                    step matches JourneyStep::SendMagicLink { choice: c, value: v, user_exists, reply }
                        && c == choice && v@ == value@ && user_exists
                        && is_error_reply(reply, Status::Success, not_verified_msg())
                },
            },
            Some(stored) => match user.password {
                None => step matches JourneyStep::Respond(rep) && is_error_reply(rep, Status::BadRequest, password_required_msg()),
                Some(pw) => match bcrypt_verify_outcome(pw@, stored@) {
                    None => step is VerifyFailed,
                    Some(true) => step == JourneyStep::IssueTokens(claim_of(data)),
                    Some(false) => step matches JourneyStep::Respond(rep) && is_error_reply(rep, Status::BadRequest, invalid_password_msg()),
                },
            },
        },
    }
}

/// The messages for what a profile-completing request leaves out.
fn missing_profile_fields(user: &User) -> (errors: Vec<String>)
    ensures
        views(errors@) == profile_errors(*user),
{
    let mut errors: Vec<String> = Vec::new();
    if user.firstname.is_none() {
        errors.push("First name is required!".to_owned());
    }
    if user.lastname.is_none() {
        errors.push("Last name is required!".to_owned());
    }
    if user.password.is_none() {
        errors.push("Password is required!".to_owned());
    }
    assert(views(errors@) =~= profile_errors(*user));
    errors
}

/// Sends a magic link to the contact detail `choice` names.
fn magic_link_step(user: &User, choice: &OtpChoice, user_exists: bool, reply: Reply) -> (step: JourneyStep)
    requires
        contact(*user, *choice) is Some,
    ensures
        step matches JourneyStep::SendMagicLink { choice: c, value: v, user_exists: e, reply: r }
            && c == *choice && v@ == contact(*user, *choice).unwrap()@ && e == user_exists && r == reply,
{
    let value = match choice {
        OtpChoice::Email => match &user.email {
            Some(v) => v.clone(),
            None => String::new(),
        },
        OtpChoice::PhoneNumber => match &user.phone_number {
            Some(v) => v.clone(),
            None => String::new(),
        },
    };
    JourneyStep::SendMagicLink { choice: *choice, value, user_exists, reply }
}

/// The profile completion for a verified account without a password, given
/// the outcome of hashing the request's password: the request's names and
/// the hash go on the account, and tokens are made for the account.
pub fn complete_profile<E>(user: User, data: User, hashed: Result<String, E>) -> (step: JourneyStep)
    ensures
        match hashed {
            Err(_) => step is HashFailed,
            Ok(h) => step == (JourneyStep::CompleteProfile {
                user_id: data._id,
                firstname: user.firstname,
                lastname: user.lastname,
                password: h,
                claim: claim_of(data),
            }),
        },
{
    match hashed {
        Err(_) => JourneyStep::HashFailed,
        Ok(hash) => {
            let user_id = crate::utils::text::clone_opt(&data._id);
            JourneyStep::CompleteProfile {
                user_id,
                firstname: user.firstname,
                lastname: user.lastname,
                password: hash,
                claim: CustomClaim::new(data),
            }
        },
    }
}

/// The step of a login by e-mail address or phone number that follows the
/// lookup of the account.
pub fn user_journey_get_user(client: &SharedState, user: User, lookup: Result<Option<User>, String>, choice: &OtpChoice) -> (step: JourneyStep)
    requires
        (lookup matches Ok(None) || (lookup matches Ok(Some(d)) && d.password is None && d.verified == Some(false)))
            ==> contact(user, *choice) is Some,
    ensures
        journey_spec(*client, user, lookup, *choice, step),
{
    match lookup {
        Err(err) => JourneyStep::Respond(Reply::error(Status::InternalServerError, err.as_str())),
        Ok(None) => {
            let matched = match choice {
                OtpChoice::Email => match &user.email {
                    Some(v) => client.email_regex.is_match(v.as_str()),
                    None => false,
                },
                OtpChoice::PhoneNumber => match &user.phone_number {
                    Some(v) => client.phone_regex.is_match(v.as_str()),
                    None => false,
                },
            };
            if !matched {
                match choice {
                    OtpChoice::Email => JourneyStep::Respond(Reply::error(Status::BadRequest, "Provide a valid email address.")),
                    OtpChoice::PhoneNumber => JourneyStep::Respond(Reply::error(Status::BadRequest, "Provide a valid phone number.")),
                }
            } else {
                magic_link_step(&user, choice, false, Reply::error(Status::Success, "Magic link sent"))
            }
        },
        Ok(Some(data)) => {
            match &data.password {
                None => match data.verified {
                    None => JourneyStep::Respond(Reply::error(Status::NotAcceptable, "User isn't verified. Magic Link sent.")),
                    Some(true) => {
                        let errors = missing_profile_fields(&user);
                        if errors.len() > 0 {
                            JourneyStep::Respond(Reply { status: Status::InternalServerError, body: Body::Errors(ReturnErrors::new(errors)) })
                        } else {
                            let password = match &user.password {
                                Some(p) => p.clone(),
                                None => String::new(),
                            };
                            let hashed = bcrypt_hash(password.as_str(), PASSWORD_COST);
                            complete_profile(user, data, hashed)
                        }
                    },
                    Some(false) => magic_link_step(&user, choice, true, Reply::error(Status::Success, "User isn't verified. Magic Link sent.")),
                },
                Some(stored) => match &user.password {
                    None => JourneyStep::Respond(Reply::error(Status::BadRequest, "Password is required")),
                    Some(pw) => match bcrypt_verify(pw.as_str(), stored.as_str()) {
                        Err(_) => JourneyStep::VerifyFailed,
                        Ok(true) => JourneyStep::IssueTokens(CustomClaim::new(data)),
                        Ok(false) => JourneyStep::Respond(Reply::error(Status::BadRequest, "Invalid password. Make sure default is set to the intended value.")),
                    },
                },
            }
        },
    }
}

/// The address that magic links point at, before the code.
pub const MAGIC_LINK_PREFIX: &'static str = "http://localhost:8050/verify-user/";

/// The magic link for a code.
pub fn magic_link(code: &str) -> (link: String)
    ensures
        link@ == MAGIC_LINK_PREFIX@ + code@,
{
    let mut link = String::from_str(MAGIC_LINK_PREFIX);
    link.append(code);
    link
}

/// What sending a magic link starts with.
pub struct MagicLinkPlan {
    /// The code to hand out if the contact detail has none yet.
    pub otp: Otp,
    /// The query for a code already handed out to the contact detail.
    pub lookup: Filter,
    /// Whether to add an account for the contact detail first.
    pub register: bool,
}

/// The first step of sending a magic link to `value` by `identifier`: a
/// fresh code marked with the channel, the query for an earlier code, and
/// whether the account must be added.
pub fn generate_magic_link(identifier: &OtpChoice, value: &str, user_exists: bool) -> (p: MagicLinkPlan)
    ensures
        p.otp._id matches Some(id) && is_uuid_v4_text(id@),
        is_fresh_code(p.otp.code@),
        p.otp.email is None,
        p.otp.phone_number is None,
        p.otp.auth_identifier == Some(*identifier),
        p.otp.archive == Some(false),
        p.otp.created_at is Some,
        is_filter(p.lookup, contact_field(*identifier), Some(value@), None),
        p.register == !user_exists,
{
    let mut otp = Otp::new(&None, &None);
    let lookup = match identifier {
        OtpChoice::Email => Filter { field: Field::Email, value: Some(value.to_owned()), auth_identifier: None },
        OtpChoice::PhoneNumber => {
            otp.auth_identifier = Some(OtpChoice::PhoneNumber);
            Filter { field: Field::PhoneNumber, value: Some(value.to_owned()), auth_identifier: None }
        },
    };
    MagicLinkPlan { otp, lookup, register: !user_exists }
}

/// How sending a magic link ends.
pub enum MagicLinkStep {
    /// The lookup failed: report the error, send nothing.
    Log(String),
    /// No code was handed out yet: store this one, then send the link.
    Store { otp: Otp, link: String },
    /// A code was handed out before: send the link for it again.
    Send { link: String },
}

/// The last step of sending a magic link, given the lookup of an earlier
/// code: the earlier code is sent again, or else the fresh one, now bearing
/// the contact detail, is stored and sent.
pub fn magic_link_found(otp: Otp, identifier: &OtpChoice, value: &str, lookup: Result<Option<Otp>, String>) -> (r: MagicLinkStep)
    ensures
        match lookup {
            Err(e) => r == MagicLinkStep::Log(e),
            Ok(None) => r matches MagicLinkStep::Store { otp: stored, link } && link@ == MAGIC_LINK_PREFIX@ + otp.code@
                && stored == (match *identifier {
                    OtpChoice::Email => Otp { email: stored.email, ..otp },
                    OtpChoice::PhoneNumber => Otp { phone_number: stored.phone_number, ..otp },
                })
                && opt_view(contact_of_otp(stored, *identifier)) == Some(value@),
            Ok(Some(earlier)) => r matches MagicLinkStep::Send { link } && link@ == MAGIC_LINK_PREFIX@ + earlier.code@,
        },
        lookup matches Ok(None) && *identifier == OtpChoice::Email ==> (r matches MagicLinkStep::Store { otp: stored, link }
            && opt_view(stored.email) == Some(value@) && stored.phone_number == otp.phone_number && stored.code == otp.code),
        lookup matches Ok(None) && *identifier == OtpChoice::PhoneNumber ==> (r matches MagicLinkStep::Store { otp: stored, link }
            && opt_view(stored.phone_number) == Some(value@) && stored.email == otp.email && stored.code == otp.code),
{
    match lookup {
        Err(err) => MagicLinkStep::Log(err),
        Ok(None) => {
            let mut otp = otp;
            match identifier {
                OtpChoice::Email => {
                    otp.email = Some(value.to_owned());
                },
                OtpChoice::PhoneNumber => {
                    otp.phone_number = Some(value.to_owned());
                },
            }
            let link = magic_link(otp.code.as_str());
            MagicLinkStep::Store { otp, link }
        },
        Ok(Some(data)) => MagicLinkStep::Send { link: magic_link(data.code.as_str()) },
    }
}

/// The contact detail of a code that `choice` names.
pub open spec fn contact_of_otp(otp: Otp, choice: OtpChoice) -> Option<String> {
    match choice {
        OtpChoice::Email => otp.email,
        OtpChoice::PhoneNumber => otp.phone_number,
    }
}

pub open spec fn email_in_use_msg() -> Seq<char> {
    "Provided email address already in use."@
}

pub open spec fn phone_in_use_msg() -> Seq<char> {
    "Provided phone number already in use."@
}

/// The message given when a contact detail already has an account.
pub open spec fn in_use_msg(choice: OtpChoice) -> Seq<char> {
    match choice {
        OtpChoice::Email => email_in_use_msg(),
        OtpChoice::PhoneNumber => phone_in_use_msg(),
    }
}

/// An account added for a contact detail alone: stored with the id, the
/// detail under the field `choice` names, `auth_identifier` set to the
/// matching way of signing in, and not verified.
pub struct NewUser {
    pub _id: String,
    pub choice: OtpChoice,
    pub value: String,
    pub auth_identifier: ToUse,
    pub verified: bool,
}

/// The account that a stored `NewUser` document stands for.
pub open spec fn stored_user(n: NewUser) -> User {
    User {
        _id: Some(n._id),
        email: if n.choice == OtpChoice::Email { Some(n.value) } else { None },
        password: None,
        provider: None,
        firstname: None,
        lastname: None,
        auth_identifier: Some(n.auth_identifier),
        phone_number: if n.choice == OtpChoice::PhoneNumber { Some(n.value) } else { None },
        picture: None,
        verified: Some(n.verified),
        updated_at: None,
        created_at: None,
    }
}

/// The query for any account with the contact detail `value`.
pub fn add_user_query(choice: &OtpChoice, value: &str) -> (f: Filter)
    ensures
        is_filter(f, contact_field(*choice), Some(value@), None),
{
    match choice {
        OtpChoice::Email => Filter { field: Field::Email, value: Some(value.to_owned()), auth_identifier: None },
        OtpChoice::PhoneNumber => Filter { field: Field::PhoneNumber, value: Some(value.to_owned()), auth_identifier: None },
    }
}

/// What adding an account does given the lookup of its contact detail: a
/// lookup error is passed on, a detail in use is refused, and a free one gets
/// a new unverified account under a fresh id, signed in by that detail.
pub open spec fn add_user_spec(choice: OtpChoice, value: Seq<char>, lookup: Result<Option<User>, String>, r: AddUserStep) -> bool {
    match lookup {
        Err(e) => r == AddUserStep::Done(Err(e)),
        Ok(Some(_)) => r matches AddUserStep::Done(Err(m)) && m@ == in_use_msg(choice),
        Ok(None) => r matches AddUserStep::Insert(n) && n.choice == choice && n.value@ == value
            && is_uuid_v4_text(n._id@) && n.auth_identifier == to_use_of(choice) && !n.verified,
    }
}

/// Where adding an account goes once the contact detail has been looked up.
pub enum AddUserStep {
    /// It ends with this result.
    Done(Result<bool, String>),
    /// Store this account, then end with `add_user_inserted`.
    Insert(NewUser),
}

/// Adding an account for a contact detail, given the lookup of that detail:
/// a detail already in use is refused.
pub fn add_user(choice: &OtpChoice, value: &str, lookup: Result<Option<User>, String>) -> (r: AddUserStep)
    ensures
        add_user_spec(*choice, value@, lookup, r),
        lookup matches Ok(None) && *choice == OtpChoice::Email ==> (r matches AddUserStep::Insert(n)
            && n.auth_identifier == ToUse::Email && n.value@ == value@ && !n.verified),
        lookup matches Ok(None) && *choice == OtpChoice::PhoneNumber ==> (r matches AddUserStep::Insert(n)
            && n.auth_identifier == ToUse::PhoneNumber && n.value@ == value@ && !n.verified),
{
    match lookup {
        Err(err) => AddUserStep::Done(Err(err)),
        Ok(None) => {
            let auth_identifier = match choice {
                OtpChoice::Email => ToUse::Email,
                OtpChoice::PhoneNumber => ToUse::PhoneNumber,
            };
            AddUserStep::Insert(
                NewUser { _id: new_uuid_v4(), choice: *choice, value: value.to_owned(), auth_identifier, verified: false },
            )
        },
        Ok(Some(_)) => match choice {
            OtpChoice::Email => AddUserStep::Done(Err("Provided email address already in use.".to_owned())),
            OtpChoice::PhoneNumber => AddUserStep::Done(Err("Provided phone number already in use.".to_owned())),
        },
    }
}

/// How adding an account ends once the store was tried.
pub fn add_user_inserted(stored: Result<(), String>) -> (r: Result<bool, String>)
    ensures
        match stored {
            Err(e) => r == Err::<bool, String>(e),
            Ok(_) => r == Ok::<bool, String>(true),
        },
{
    match stored {
        Err(err) => Err(err),
        Ok(_) => Ok(true),
    }
}

/// A provider name of two space-free words gives the first name and the
/// last name; a name of one space-free word gives the first name and keeps
/// the last name.
pub proof fn lemma_provider_names(u: User, user: User, claims: ProviderClaim, first: Seq<char>, last: Seq<char>)
    requires
        provider_user_spec(u, user, claims),
        free_of(first, ' '),
        free_of(last, ' '),
    ensures
        claims.name@ == first.push(' ') + last ==> opt_view(u.firstname) == Some(first) && opt_view(u.lastname) == Some(last),
        claims.name@ == first ==> opt_view(u.firstname) == Some(first) && u.lastname == user.lastname,
{
    if claims.name@ == first.push(' ') + last {
        lemma_split_append(first, last, ' ');
        lemma_split_free(first, ' ');
        lemma_split_free(last, ' ');
        assert(split_spec(claims.name@, ' ') =~= seq![first, last]);
    }
    if claims.name@ == first {
        lemma_split_free(first, ' ');
    }
}

/// A request for which no account exists is never handed tokens: it gets a
/// magic link or is refused.
pub proof fn lemma_no_account_no_tokens(state: SharedState, user: User, choice: OtpChoice, step: JourneyStep)
    requires
        journey_spec(state, user, Ok(None), choice, step),
    ensures
        step is SendMagicLink || step is Respond,
{
}

/// Tokens are handed out (or a profile completed) only with credentials:
/// either the account holds a password hash that the request's password
/// matches, or the account was marked verified and the request brings first
/// name, last name and password.
pub proof fn lemma_tokens_need_credentials(state: SharedState, user: User, data: User, choice: OtpChoice, step: JourneyStep)
    requires
        journey_spec(state, user, Ok(Some(data)), choice, step),
        step is IssueTokens || step is CompleteProfile,
    ensures
        (data.password matches Some(h) && user.password matches Some(p) && bcrypt_verify_outcome(p@, h@) == Some(true))
            || (data.password is None && data.verified == Some(true) && user.firstname is Some
                && user.lastname is Some && user.password is Some),
{
}

/// What completing a profile stores is what later logs in: once the account
/// holds the password hash that the completion made, a login with the same
/// password is handed tokens for the account.
pub proof fn lemma_completed_password_logs_in(
    state: SharedState,
    user: User,
    data: User,
    choice: OtpChoice,
    step: JourneyStep,
    later: User,
    later_choice: OtpChoice,
    later_step: JourneyStep,
)
    requires
        journey_spec(state, user, Ok(Some(data)), choice, step),
        step is CompleteProfile,
        later.password matches Some(p) && p@ == user.password.unwrap()@,
        journey_spec(
            state,
            later,
            Ok(Some(User { password: Some(step->password), ..data })),
            later_choice,
            later_step,
        ),
    ensures
        later_step == JourneyStep::IssueTokens(claim_of(User { password: Some(step->password), ..data })),
{
}

/// The link sent for a freshly stored code carries exactly that code after
/// the fixed address, so following it looks up the stored code.
pub proof fn lemma_link_carries_stored_code(link: Seq<char>, code: Seq<char>)
    requires
        link == MAGIC_LINK_PREFIX@ + code,
    ensures
        link.subrange(MAGIC_LINK_PREFIX@.len() as int, link.len() as int) == code,
{
    assert(link.subrange(MAGIC_LINK_PREFIX@.len() as int, link.len() as int) =~= code);
}

/// `u` holds the contact detail `value` in the field `choice` names.
pub open spec fn holds_contact(u: User, choice: OtpChoice, value: Seq<char>) -> bool {
    opt_view(contact(u, choice)) == Some(value)
}

/// How many accounts of `store` hold the contact detail `value`.
pub open spec fn count_holders(store: Seq<User>, choice: OtpChoice, value: Seq<char>) -> nat
    decreases store.len(),
{
    if store.len() == 0 {
        0
    } else {
        count_holders(store.drop_last(), choice, value) + if holds_contact(store.last(), choice, value) {
            1nat
        } else {
            0nat
        }
    }
}

/// The store after an add-user step: the new account appended when the step
/// inserts one, else unchanged.
pub open spec fn store_after(store: Seq<User>, step: AddUserStep) -> Seq<User> {
    match step {
        AddUserStep::Insert(n) => store.push(stored_user(n)),
        AddUserStep::Done(_) => store,
    }
}

/// Adding an account never gives a contact detail a second account: when
/// the lookup reports the store truthfully (nothing found exactly when no
/// account holds the detail) and at most one account held it before, at
/// most one holds it after, and an inserting step leaves exactly one.
pub proof fn lemma_add_user_keeps_contacts_unique(
    store: Seq<User>,
    choice: OtpChoice,
    value: Seq<char>,
    lookup: Result<Option<User>, String>,
    step: AddUserStep,
)
    requires
        count_holders(store, choice, value) <= 1,
        lookup matches Ok(None) ==> count_holders(store, choice, value) == 0,
        lookup matches Ok(Some(_)) ==> count_holders(store, choice, value) > 0,
        add_user_spec(choice, value, lookup, step),
    ensures
        count_holders(store_after(store, step), choice, value) <= 1,
        step is Insert ==> count_holders(store_after(store, step), choice, value) == 1,
{
    if step is Insert {
        let n = step->Insert_0;
        let after = store.push(stored_user(n));
        assert(after.drop_last() =~= store);
        assert(holds_contact(stored_user(n), choice, value));
    }
}

/// An account filled from provider claims takes, from the claims, the
/// e-mail address, the picture and whether the provider verified the
/// address, and is marked as signed in by the provider; the request's id and
/// password stay.
pub proof fn lemma_provider_claims_fill_user(u: User, user: User, claims: ProviderClaim)
    requires
        provider_user_spec(u, user, claims),
    ensures
        u.verified == Some(claims.email_verified),
        u.email == Some(claims.email),
        u.picture == Some(claims.picture),
        u.auth_identifier == Some(ToUse::Provider),
        u.password == user.password,
        u._id == user._id,
        u.phone_number == user.phone_number,
        u.provider == user.provider,
{
}

/// An account added for a free contact detail is signed in by the way that
/// goes with the detail (e-mail for an address, phone number for a number),
/// holds the detail, is not verified, and is found by the query that a
/// later login by that detail makes.
pub proof fn lemma_added_account_found_by_login(
    choice: OtpChoice,
    value: Seq<char>,
    step: AddUserStep,
    request: User,
    query: Filter,
)
    requires
        add_user_spec(choice, value, Ok(None), step),
        opt_view(contact(request, choice)) == Some(value),
        is_filter(query, contact_field(choice), opt_view(contact(request, choice)), Some(to_use_of(choice))),
    ensures
        step matches AddUserStep::Insert(n) && {
            &&& choice == OtpChoice::Email ==> n.auth_identifier == ToUse::Email && stored_user(n).email == Some(n.value)
            &&& choice == OtpChoice::PhoneNumber ==> n.auth_identifier == ToUse::PhoneNumber && stored_user(n).phone_number == Some(n.value)
            &&& n.value@ == value
            &&& stored_user(n).verified == Some(false)
            &&& user_matches(stored_user(n), query)
        },
        choice == OtpChoice::Email ==> query.field == Field::Email && query.auth_identifier == Some(ToUse::Email),
        choice == OtpChoice::PhoneNumber ==> query.field == Field::PhoneNumber && query.auth_identifier == Some(ToUse::PhoneNumber),
{
}

/// For a state whose checks were compiled from the service's patterns, a
/// login by a contact detail that has no account gets a magic link exactly
/// when the e-mail pattern (for an address) or the phone pattern (for a
/// number) matches the detail, and is refused otherwise.
pub proof fn lemma_new_contact_checked_by_pattern(state: SharedState, user: User, choice: OtpChoice, step: JourneyStep)
    requires
        state.email_regex.pattern() == EMAIL_PATTERN@,
        state.phone_regex.pattern() == PHONE_PATTERN@,
        contact(user, choice) is Some,
        journey_spec(state, user, Ok(None), choice, step),
    ensures
        choice == OtpChoice::Email ==> (step is SendMagicLink <==> regex_is_match(EMAIL_PATTERN@, user.email.unwrap()@)),
        choice == OtpChoice::PhoneNumber ==> (step is SendMagicLink <==> regex_is_match(
            PHONE_PATTERN@,
            user.phone_number.unwrap()@,
        )),
        !(step is SendMagicLink) ==> step is Respond,
{
}

/// Each delivery channel goes with its own contact detail, stored field,
/// way of signing in, pattern and messages: e-mail with the e-mail address,
/// phone with the phone number.
pub proof fn lemma_channels_keep_their_details(u: User, state: SharedState)
    ensures
        contact(u, OtpChoice::Email) == u.email,
        contact(u, OtpChoice::PhoneNumber) == u.phone_number,
        contact_field(OtpChoice::Email) == Field::Email,
        contact_field(OtpChoice::PhoneNumber) == Field::PhoneNumber,
        to_use_of(OtpChoice::Email) == ToUse::Email,
        to_use_of(OtpChoice::PhoneNumber) == ToUse::PhoneNumber,
        contact_pattern(state, OtpChoice::Email) == state.email_regex.pattern(),
        contact_pattern(state, OtpChoice::PhoneNumber) == state.phone_regex.pattern(),
        invalid_contact_msg(OtpChoice::Email) == "Provide a valid email address."@,
        invalid_contact_msg(OtpChoice::PhoneNumber) == "Provide a valid phone number."@,
        in_use_msg(OtpChoice::Email) == "Provided email address already in use."@,
        in_use_msg(OtpChoice::PhoneNumber) == "Provided phone number already in use."@,
{
}

} // verus!
