//! The records of the login boundary: who asks, which claims a token
//! carries, and the administrator account that first setup creates.
use vstd::prelude::*;
use crate::error::CoreError;
use crate::text::lit;

verus! {

#[verifier::external_type_specification]
#[verifier::external_body]
pub struct ExBcryptError(bcrypt::BcryptError);

/// Relies on `uuid::Uuid::new_v4` and its hyphenated text form: a fresh
/// random identifier, written as 36 characters.
#[verifier::external_body]
fn fresh_id() -> (r: String)
    ensures
        r@.len() == 36,
{
    uuid::Uuid::new_v4().to_string()
}

/// Relies on `bcrypt::hash` at `bcrypt::DEFAULT_COST`: a salted hash of the
/// password; it fails only when the system's randomness cannot be read.
#[verifier::external_body]
fn hash_password(password: &str) -> (r: Result<String, bcrypt::BcryptError>)
{
    bcrypt::hash(password, bcrypt::DEFAULT_COST)
}

/// Seconds for which a login token is valid.
pub const TOKEN_LIFETIME_SECS: u64 = 86400;

/// A login or first-setup request.
#[derive(Debug)]
pub struct LoginRequest {
    pub username: String,
    pub password: String,
}

/// A user as shown to clients.
#[derive(Debug)]
pub struct User {
    pub id: String,
    pub username: String,
    pub role: String,
}

/// The claims of a login token; `exp` is in seconds since the Unix epoch.
#[derive(Debug)]
pub struct Claims {
    pub sub: String,
    pub username: String,
    pub role: String,
    pub exp: usize,
}

/// The reply to a successful login.
#[derive(Debug)]
pub struct LoginResponse {
    pub token: String,
    pub user: User,
}

/// The administrator account that first setup stores.
#[derive(Debug)]
pub struct AdminAccount {
    pub id: String,
    pub username: String,
    pub password_hash: String,
    pub role: String,
}

/// The identifier under which the administrator logs in.
pub open spec fn admin_id() -> Seq<char> {
    "admin-uuid"@
}

/// The role of the administrator.
pub open spec fn admin_role() -> Seq<char> {
    "admin"@
}

/// When a token issued at `now` expires, if that instant can be written.
pub fn expiration_after(now: u64) -> (r: Option<usize>)
    ensures
        r matches Some(e) ==> e == now + TOKEN_LIFETIME_SECS,
        r is None <==> now + TOKEN_LIFETIME_SECS > usize::MAX,
{
    if now > usize::MAX as u64 {
        return None;
    }
    let n = now as usize;
    n.checked_add(TOKEN_LIFETIME_SECS as usize)
}

/// The claims of the token issued at `now` to the user of `request`: the
/// administrator's identity and role, valid for a day.
pub fn login_claims(request: &LoginRequest, now: u64) -> (r: Option<Claims>)
    ensures
        r is None <==> now + TOKEN_LIFETIME_SECS > usize::MAX,
        r matches Some(c) ==> {
            &&& c.sub@ == admin_id()
            &&& c.username@ == request.username@
            &&& c.role@ == admin_role()
            &&& c.exp == now + TOKEN_LIFETIME_SECS
        },
{
    match expiration_after(now) {
        None => None,
        Some(exp) => Some(Claims {
            sub: lit("admin-uuid"),
            username: request.username.clone(),
            role: lit("admin"),
            exp,
        }),
    }
}

/// The reply that carries a signed token to the user of `request`.
pub fn login_response(request: LoginRequest, token: String) -> (r: LoginResponse)
    ensures
        r.token@ == token@,
        r.user.id@ == admin_id(),
        r.user.username@ == request.username@,
        r.user.role@ == admin_role(),
{
    LoginResponse {
        token,
        user: User { id: lit("admin-uuid"), username: request.username, role: lit("admin") },
    }
}

/// Whether first setup may create the administrator, given how many users
/// exist: only while there are none.
pub fn setup_permitted(user_count: i64) -> (r: Result<(), CoreError>)
    ensures
        r is Ok <==> user_count <= 0,
        r matches Err(e) ==> e matches CoreError::InvalidRequest { reason } && reason@ == "Admin already setup"@,
{
    if user_count > 0 {
        Err(CoreError::InvalidRequest { reason: lit("Admin already setup") })
    } else {
        Ok(())
    }
}

/// The administrator account for `request`: a fresh identifier, the
/// requested name, the hashed password and the administrator role.
pub fn new_admin(request: &LoginRequest) -> (r: Result<AdminAccount, bcrypt::BcryptError>)
    ensures
        r matches Ok(a) ==> {
            &&& a.id@.len() == 36
            &&& a.username@ == request.username@
            &&& a.role@ == admin_role()
        },
{
    let id = fresh_id();
    match hash_password(request.password.as_str()) {
        Ok(password_hash) => Ok(AdminAccount {
            id,
            username: request.username.clone(),
            password_hash,
            role: lit("admin"),
        }),
        Err(e) => Err(e),
    }
}

} // verus!
