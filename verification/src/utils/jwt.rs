use vstd::prelude::*;
use crate::models::users::User;
use crate::utils::entropy::{is_uuid_v4_text, new_uuid_v4};
use crate::utils::enums::Tokens;

verus! {

/// The claims that the service puts in its tokens besides the standard ones.
pub struct CustomClaim {
    pub email: Option<String>,
    pub phone_number: Option<String>,
    pub user_id: Option<String>,
    pub access: bool,
    pub firstname: Option<String>,
    pub lastname: Option<String>,
}

/// The claims of an identity token from an outside sign-in provider.
pub struct ProviderClaim {
    pub aud: String,
    pub email: String,
    pub email_verified: bool,
    pub picture: String,
    pub name: String,
}

/// A token that has been logged out and must no longer be accepted.
pub struct TokenBlacklist {
    pub _id: String,
    pub token: String,
}

/// The claims made for `user`: its contact details, id and names, not yet
/// marked as an access token.
pub open spec fn claim_of(user: User) -> CustomClaim {
    CustomClaim {
        email: user.email,
        phone_number: user.phone_number,
        user_id: user._id,
        access: false,
        firstname: user.firstname,
        lastname: user.lastname,
    }
}

/// The claims made for a user carry the user's own details: its e-mail
/// address, phone number, id, first and last name, each in its own claim,
/// and they are not an access token's.
pub proof fn lemma_claims_carry_user(user: User)
    ensures
        claim_of(user).email == user.email,
        claim_of(user).phone_number == user.phone_number,
        claim_of(user).user_id == user._id,
        claim_of(user).firstname == user.firstname,
        claim_of(user).lastname == user.lastname,
        !claim_of(user).access,
{
}

impl CustomClaim {
    pub fn new(user: User) -> (c: CustomClaim)
        ensures
            c == claim_of(user),
            c.email == user.email,
            c.phone_number == user.phone_number,
            c.user_id == user._id,
            !c.access,
            c.firstname == user.firstname,
            c.lastname == user.lastname,
    {
        CustomClaim {
            email: user.email,
            phone_number: user.phone_number,
            user_id: user._id,
            access: false,
            firstname: user.firstname,
            lastname: user.lastname,
        }
    }
}

impl TokenBlacklist {
    /// A blacklist entry for `token` under a fresh random id.
    pub fn new(token: String) -> (t: TokenBlacklist)
        ensures
            t.token == token,
            is_uuid_v4_text(t._id@),
    {
        TokenBlacklist { _id: new_uuid_v4(), token }
    }
}

/// Seconds in ten minutes, the life of an access token.
pub const ACCESS_TOKEN_SECS: u64 = 600;

/// Seconds in seven days, the life of a refresh token.
pub const REFRESH_TOKEN_SECS: u64 = 604800;

/// How long a token of a kind stays valid, in seconds, and whether it is an
/// access token.
pub open spec fn token_lifetime(choice: Tokens) -> (u64, bool) {
    match choice {
        Tokens::Access => (ACCESS_TOKEN_SECS, true),
        Tokens::Refresh => (REFRESH_TOKEN_SECS, false),
    }
}

/// An access token lasts ten minutes and is marked as an access token; a
/// refresh token lasts seven days and is not.
pub proof fn lemma_token_lifetimes()
    ensures
        token_lifetime(Tokens::Access).0 == 10 * 60,
        token_lifetime(Tokens::Access).1,
        token_lifetime(Tokens::Refresh).0 == 7 * 24 * 60 * 60,
        !token_lifetime(Tokens::Refresh).1,
{
}

/// How long a token of a kind stays valid, in seconds, and whether it is an
/// access token.
pub fn get_duration_token(choice: &Tokens) -> (r: (u64, bool))
    ensures
        r == token_lifetime(*choice),
{
    match choice {
        Tokens::Access => (ACCESS_TOKEN_SECS, true),
        Tokens::Refresh => (REFRESH_TOKEN_SECS, false),
    }
}

/// The claims signed into a token of kind `tokens`: those of the user with
/// the access flag of the kind.
pub open spec fn token_claims_spec(user_claim: CustomClaim, tokens: Tokens) -> CustomClaim {
    CustomClaim { access: token_lifetime(tokens).1, ..user_claim }
}

/// What a token of kind `tokens` for `user_claim` is made of: the claims to
/// sign and how many seconds the token stays valid.
pub fn token_claims(user_claim: CustomClaim, tokens: &Tokens) -> (r: (CustomClaim, u64))
    ensures
        r.0 == token_claims_spec(user_claim, *tokens),
        r.1 == token_lifetime(*tokens).0,
{
    let (time, access) = get_duration_token(tokens);
    let mut claim = user_claim;
    claim.access = access;
    (claim, time)
}

/// Both token requests for one user: the access token first.
pub fn token_pair_claims(user: CustomClaim) -> (r: ((CustomClaim, u64), (CustomClaim, u64)))
    ensures
        r.0.0 == token_claims_spec(user, Tokens::Access),
        r.0.1 == ACCESS_TOKEN_SECS,
        r.1.0 == token_claims_spec(user, Tokens::Refresh),
        r.1.1 == REFRESH_TOKEN_SECS,
{
    let user_two = CustomClaim {
        email: crate::utils::text::clone_opt(&user.email),
        phone_number: crate::utils::text::clone_opt(&user.phone_number),
        user_id: crate::utils::text::clone_opt(&user.user_id),
        access: user.access,
        firstname: crate::utils::text::clone_opt(&user.firstname),
        lastname: crate::utils::text::clone_opt(&user.lastname),
    };
    let access = token_claims(user, &Tokens::Access);
    let refresh = token_claims(user_two, &Tokens::Refresh);
    (access, refresh)
}

/// The message given when an access token is offered where a refresh token
/// is wanted.
pub open spec fn not_refresh_msg() -> Seq<char> {
    "Token is not a refresh token"@
}

/// Whether a token with these claims is accepted as a refresh token.
pub open spec fn passes_refresh_check(c: CustomClaim) -> bool {
    !c.access
}

/// A refresh token is one whose access flag is off.
pub fn access_check(details: &CustomClaim) -> (r: Result<(), String>)
    ensures
        r is Ok <==> passes_refresh_check(*details),
        r matches Err(e) ==> e@ == not_refresh_msg(),
{
    if details.access {
        Err("Token is not a refresh token".to_owned())
    } else {
        Ok(())
    }
}

/// Checks a token offered as a refresh token, given what verifying its
/// signature and expiry gave: the verification error, or the access check.
pub fn validate_refresh_token(verified: Result<CustomClaim, String>) -> (r: Result<(), String>)
    ensures
        match verified {
            Err(e) => r == Err::<(), String>(e),
            Ok(c) => (r is Ok <==> passes_refresh_check(c)) && (r matches Err(m) ==> m@ == not_refresh_msg()),
        },
{
    match verified {
        Err(err) => Err(err),
        Ok(details) => access_check(&details),
    }
}

} // verus!
