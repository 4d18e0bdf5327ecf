use vstd::prelude::*;
use vstd::string::*;

use crate::models::{ErrorResponse, MessageResponse};
use crate::text::{joined, text_equals};

verus! {

pub const SERVICE_NAME: &'static str = "slatehub-api (mock)";

pub const REGISTER_DEFAULT_USERNAME: &'static str = "new_user";

pub const LOGIN_DEFAULT_USERNAME: &'static str = "test_user";

pub const TOKEN_PREFIX: &'static str = "mock_token_for_";

pub const PERSON_ID_PREFIX: &'static str = "person:";

pub const EMAIL_DOMAIN: &'static str = "@example.com";

pub const STAGE_NAME_PREFIX: &'static str = "The Great ";

/// The (lower-case) username for which public profile lookups find nobody.
pub const MISSING_USERNAME: &'static str = "notfound";

/// What `str::to_lowercase` returns for `s`.
pub uninterp spec fn lower_of(s: Seq<char>) -> Seq<char>;

/// What `str::to_uppercase` returns for `s`.
pub uninterp spec fn upper_of(s: Seq<char>) -> Seq<char>;

/// Relies on str::to_lowercase: Unicode lower-case mapping of each character,
/// a function of the text alone.
#[verifier::external_body]
fn lowercase(s: &str) -> (r: String)
    ensures
        r@ == lower_of(s@),
        s@.len() == 0 ==> r@.len() == 0,
{
    s.to_lowercase()
}

/// Relies on str::to_uppercase: Unicode upper-case mapping of each character,
/// a function of the text alone.
#[verifier::external_body]
fn uppercase(s: &str) -> (r: String)
    ensures
        r@ == upper_of(s@),
        s@.len() == 0 ==> r@.len() == 0,
{
    s.to_uppercase()
}

/// Relies on chrono::Utc::now and DateTime::to_rfc3339_opts: the current time
/// as RFC 3339 text ending in "Z". Nothing is promised of which time it is.
#[verifier::external_body]
fn now_rfc3339() -> (r: String) {
    chrono::Utc::now().to_rfc3339_opts(chrono::SecondsFormat::AutoSi, true)
}

/// The usernames that are always reported as taken.
pub open spec fn is_reserved_username(s: Seq<char>) -> bool {
    s == "admin"@ || s == "test"@ || s == "root"@
}

/// The username a request names, or `default` when it names none.
pub open spec fn username_or(u: Option<&str>, default: Seq<char>) -> Seq<char> {
    match u {
        Some(s) => s@,
        None => default,
    }
}

fn pick_username(u: Option<&str>, default: &str) -> (r: String)
    ensures
        r@ == username_or(u, default@),
{
    match u {
        Some(s) => String::from_str(s),
        None => String::from_str(default),
    }
}

/// The answer of the health endpoint.
pub struct HealthStatus {
    pub status: String,
    pub service: String,
    /// When the answer was made, as RFC 3339 text.
    pub timestamp: String,
}

/// A freshly registered account; the request's other fields are echoed back as given.
pub struct RegisteredUser {
    pub token: String,
    pub id: String,
    pub username: String,
    pub verification_level: u32,
}

/// The account shown to the frontend.
pub struct MockUser {
    pub id: String,
    pub username: String,
    pub email: String,
    pub name: String,
    pub stage_name: String,
    pub verification_level: u32,
}

/// A signed-in session: its token and its account.
pub struct LoginSession {
    pub token: String,
    pub user: MockUser,
}

/// The fixed part of an updated profile; the new name and stage name are
/// echoed back as given.
pub struct ProfileIdentity {
    pub id: String,
    pub username: String,
    pub email: String,
    pub verification_level: u32,
}

/// Reports the service as healthy, with the current time.
pub fn health_check() -> (r: HealthStatus)
    ensures
        r.status@ == "healthy"@,
        r.service@ == SERVICE_NAME@,
{
    HealthStatus {
        status: String::from_str("healthy"),
        service: String::from_str(SERVICE_NAME),
        timestamp: now_rfc3339(),
    }
}

/// Registers `username` ("new_user" when the request names none).
pub fn mock_register(username: Option<&str>) -> (r: RegisteredUser)
    ensures
        r.username@ == username_or(username, REGISTER_DEFAULT_USERNAME@),
        r.token@ == TOKEN_PREFIX@ + r.username@,
        r.id@ == PERSON_ID_PREFIX@ + r.username@,
        r.verification_level == 1,
{
    let name = pick_username(username, REGISTER_DEFAULT_USERNAME);
    RegisteredUser {
        token: joined(TOKEN_PREFIX, name.as_str()),
        id: joined(PERSON_ID_PREFIX, name.as_str()),
        username: name,
        verification_level: 1,
    }
}

/// Signs in `username` ("test_user" when the request names none); any
/// password is accepted.
pub fn mock_login(username: Option<&str>) -> (r: LoginSession)
    ensures
        r.user.username@ == username_or(username, LOGIN_DEFAULT_USERNAME@),
        r.token@ == TOKEN_PREFIX@ + r.user.username@,
        r.user.id@ == PERSON_ID_PREFIX@ + r.user.username@,
        r.user.email@ == r.user.username@ + EMAIL_DOMAIN@,
        r.user.name@ == "Test User"@,
        r.user.stage_name@ == "The Tester"@,
        r.user.verification_level == 1,
{
    let name = pick_username(username, LOGIN_DEFAULT_USERNAME);
    let user = MockUser {
        id: joined(PERSON_ID_PREFIX, name.as_str()),
        email: joined(name.as_str(), EMAIL_DOMAIN),
        username: name,
        name: String::from_str("Test User"),
        stage_name: String::from_str("The Tester"),
        verification_level: 1,
    };
    LoginSession { token: joined(TOKEN_PREFIX, user.username.as_str()), user }
}

/// The account of the signed-in user, always the same one.
pub fn mock_me() -> (r: MockUser)
    ensures
        r.id@ == "person:current_user_id"@,
        r.username@ == "current_user"@,
        r.email@ == "current@example.com"@,
        r.name@ == "Current User"@,
        r.stage_name@ == "The Current One"@,
        r.verification_level == 2,
{
    MockUser {
        id: String::from_str("person:current_user_id"),
        username: String::from_str("current_user"),
        email: String::from_str("current@example.com"),
        name: String::from_str("Current User"),
        stage_name: String::from_str("The Current One"),
        verification_level: 2,
    }
}

/// Whether a username, already in lower case, is free.
pub fn username_available_folded(folded: &str) -> (r: bool)
    ensures
        r == !is_reserved_username(folded@),
{
    !(text_equals(folded, "admin") || text_equals(folded, "test") || text_equals(folded, "root"))
}

/// Whether `username` (empty when the request names none) is free: the
/// reserved names are taken whatever their case, every other name is free.
pub fn mock_check_username(username: Option<&str>) -> (r: bool)
    ensures
        r == !is_reserved_username(lower_of(username_or(username, ""@))),
{
    let name = pick_username(username, "");
    let folded = lowercase(name.as_str());
    username_available_folded(folded.as_str())
}

/// Signs out; there is no session to end.
pub fn mock_logout() -> (r: MessageResponse)
    ensures
        r.message@ == "Logged out successfully"@,
{
    MessageResponse { message: String::from_str("Logged out successfully") }
}

/// The fixed account that a profile update applies to.
pub fn mock_update_profile() -> (r: ProfileIdentity)
    ensures
        r.id@ == "person:current_user_id"@,
        r.username@ == "current_user"@,
        r.email@ == "current@example.com"@,
        r.verification_level == 2,
{
    ProfileIdentity {
        id: String::from_str("person:current_user_id"),
        username: String::from_str("current_user"),
        email: String::from_str("current@example.com"),
        verification_level: 2,
    }
}

/// The public profile of `username`, given its lower-case and upper-case
/// forms: nobody when the lower-case form is "notfound".
pub fn public_profile_folded(username: &str, lower: &str, upper: &str) -> (r: Result<
    MockUser,
    ErrorResponse,
>)
    ensures
        r is Err <==> lower@ == MISSING_USERNAME@,
        r matches Err(e) ==> e.error@ == "User not found"@ && e.message@
            == "A user with that username does not exist."@,
        r matches Ok(u) ==> {
            &&& u.id@ == PERSON_ID_PREFIX@ + username@
            &&& u.username@ == username@
            &&& u.email@ == username@ + EMAIL_DOMAIN@
            &&& u.name@ == upper@
            &&& u.stage_name@ == STAGE_NAME_PREFIX@ + username@
            &&& u.verification_level == 1
        },
{
    if text_equals(lower, MISSING_USERNAME) {
        return Err(
            ErrorResponse {
                error: String::from_str("User not found"),
                message: String::from_str("A user with that username does not exist."),
            },
        );
    }
    Ok(
        MockUser {
            id: joined(PERSON_ID_PREFIX, username),
            username: String::from_str(username),
            email: joined(username, EMAIL_DOMAIN),
            name: String::from_str(upper),
            stage_name: joined(STAGE_NAME_PREFIX, username),
            verification_level: 1,
        },
    )
}

/// The public profile of `username`; nobody is found under "notfound", in any case.
pub fn mock_get_public_profile(username: &str) -> (r: Result<MockUser, ErrorResponse>)
    ensures
        r is Err <==> lower_of(username@) == MISSING_USERNAME@,
        r matches Err(e) ==> e.error@ == "User not found"@ && e.message@
            == "A user with that username does not exist."@,
        r matches Ok(u) ==> {
            &&& u.id@ == PERSON_ID_PREFIX@ + username@
            &&& u.username@ == username@
            &&& u.email@ == username@ + EMAIL_DOMAIN@
            &&& u.name@ == upper_of(username@)
            &&& u.stage_name@ == STAGE_NAME_PREFIX@ + username@
            &&& u.verification_level == 1
        },
{
    let lower = lowercase(username);
    let upper = uppercase(username);
    public_profile_folded(username, lower.as_str(), upper.as_str())
}

} // verus!
