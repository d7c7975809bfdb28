//! Users and their sessions: the bodies of the auth endpoints, the checks
//! made on them before anything is stored, and the server's settings.
use crate::calendar::{stamp_passed, stamp_passed_spec};
use crate::error::{is_validation, validation, ApiError};
use crate::security::{
    check_password_length, hash_password, registration_allowed, MAX_HASHED_PASSWORD_BYTES,
};
use crate::text::{matches_at, occurs_at, str_eq, substring};
use vstd::prelude::*;
use vstd::string::*;
use vstd::utf8::encode_utf8;

verus! {

/// A signed-in device of a user.
#[derive(Debug)]
pub struct Session {
    pub id: String,
    pub device_id: String,
    pub device_name: String,
    pub user_agent: Option<String>,
    pub ip_last_seen: Option<String>,
    pub created_at: String,
    pub last_used_at: String,
    pub expires_at: String,
    /// Whether this is the session making the request.
    pub current: bool,
}

/// The live sessions of a user, most recently used first.
#[derive(Debug)]
pub struct SessionList {
    pub items: Vec<Session>,
}

/// The caller of an authenticated request, as its session names it.
#[derive(Debug, Clone)]
pub struct CurrentUser {
    pub id: String,
    pub is_admin: bool,
    pub session_id: String,
    pub device_id: String,
}

/// A session just opened, with the bearer token that only the client keeps.
#[derive(Debug)]
pub struct Issued {
    pub session_id: String,
    pub token: String,
    pub expires_at: String,
}

/// A user as the API shows it.
#[derive(Debug)]
pub struct User {
    pub id: String,
    pub email: String,
    pub display_name: String,
    pub default_currency: String,
    pub locale: String,
    pub is_admin: bool,
    pub partner_name: Option<String>,
    pub photo_url: Option<String>,
    pub created_at: String,
    pub updated_at: String,
}

/// Body of `POST /auth/register`.
#[derive(Debug)]
pub struct RegisterRequest {
    pub email: String,
    pub password: String,
    pub display_name: String,
    pub default_currency: String,
    pub locale: String,
    pub device_id: String,
    pub device_name: String,
}

/// Body of `POST /auth/login`.
#[derive(Debug)]
pub struct LoginRequest {
    pub email: String,
    pub password: String,
    pub device_id: String,
    pub device_name: String,
}

/// Body of `POST /auth/password`.
#[derive(Debug)]
pub struct PasswordChangeRequest {
    pub current_password: String,
    pub new_password: String,
}

/// Body of `PATCH /auth/me`: fields left out keep their value.
#[derive(Debug)]
pub struct ProfileUpdate {
    pub display_name: Option<String>,
    pub default_currency: Option<String>,
    pub locale: Option<String>,
    pub partner_name: Option<String>,
}

/// The bearer token handed out at sign-in.
#[derive(Debug)]
pub struct SessionToken {
    pub id: String,
    pub token: String,
    pub expires_at: String,
}

/// Answer to a successful registration or login.
#[derive(Debug)]
pub struct AuthResponse {
    pub user: User,
    pub session: SessionToken,
}

/// Answer of `GET /auth/me`.
#[derive(Debug)]
pub struct UserResponse {
    pub user: User,
}

impl RegisterRequest {
    /// Whether a registration may go ahead: registration must be open, and
    /// the password at least 12 bytes long. Whether the email is taken is
    /// asked of the database afterwards.
    pub fn check(&self, allow_registration: bool) -> (r: Result<(), ApiError>)
        ensures
            r is Ok <==> (allow_registration && encode_utf8(self.password@).len() >= 12),
            !allow_registration ==> r == Err::<(), ApiError>(ApiError::Forbidden),
            allow_registration ==> (r matches Err(e) ==> is_validation(
                e,
                "password"@,
                "min 12 chars"@,
            )),
    {
        if !allow_registration {
            return Err(ApiError::Forbidden);
        }
        check_password_length(self.password.as_str(), "password")
    }
}

impl PasswordChangeRequest {
    /// The new password must be at least 12 bytes long.
    pub fn check(&self) -> (r: Result<(), ApiError>)
        ensures
            r is Ok <==> encode_utf8(self.new_password@).len() >= 12,
            r matches Err(e) ==> is_validation(e, "new_password"@, "min 12 chars"@),
    {
        check_password_length(self.new_password.as_str(), "new_password")
    }
}

/// The lockout check made before a password is compared, at the instant
/// `now_secs`, `now_nanos`: a lockout that ends after now answers
/// `RateLimited`. No lockout, or one whose time does not read as an RFC 3339
/// timestamp, lets the login go on.
pub fn check_lockout(lockout_until: Option<&str>, now_secs: i64, now_nanos: u32) -> (r: Result<
    (),
    ApiError,
>)
    ensures
        r is Ok <==> !(lockout_until matches Some(l) && stamp_passed_spec(
            l@,
            (now_secs as int, now_nanos as int),
            true,
        ) == Some(false)),
        r is Err ==> r == Err::<(), ApiError>(ApiError::RateLimited),
{
    match lockout_until {
        Some(l) => match stamp_passed(l, now_secs, now_nanos, true) {
            Some(false) => Err(ApiError::RateLimited),
            _ => Ok(()),
        },
        None => Ok(()),
    }
}

/// Whether the caller may revoke a session: it must exist (`owner` is its
/// user, `None` when there is no such session) and belong to the caller.
pub fn check_session_owner(owner: Option<&str>, caller: &str) -> (r: Result<(), ApiError>)
    ensures
        owner is None ==> r == Err::<(), ApiError>(ApiError::NotFound),
        owner matches Some(o) ==> (r is Ok <==> o@ == caller@),
        owner matches Some(o) && o@ != caller@ ==> r == Err::<(), ApiError>(ApiError::Forbidden),
{
    match owner {
        None => Err(ApiError::NotFound),
        Some(o) => {
            if str_eq(o, caller) {
                Ok(())
            } else {
                Err(ApiError::Forbidden)
            }
        },
    }
}

/// The bearer token of an `Authorization` header: the text after
/// `"Bearer "`. A missing header, or one without that prefix, is
/// `Unauthenticated`.
pub fn bearer_token(authorization: Option<&str>) -> (r: Result<String, ApiError>)
    ensures
        match authorization {
            Some(h) => if occurs_at(h@, "Bearer "@, 0) {
                r matches Ok(t) && t@ == h@.subrange(7, h@.len() as int)
            } else {
                r == Err::<String, ApiError>(ApiError::Unauthenticated)
            },
            None => r == Err::<String, ApiError>(ApiError::Unauthenticated),
        },
{
    proof {
        reveal_strlit("Bearer ");
    }
    match authorization {
        Some(h) => {
            if matches_at(h, "Bearer ", 0) {
                let n = h.unicode_len();
                Ok(substring(h, 7, n))
            } else {
                Err(ApiError::Unauthenticated)
            }
        },
        None => Err(ApiError::Unauthenticated),
    }
}

/// The server's settings.
#[derive(Debug, Clone)]
pub struct Config {
    pub database_url: String,
    pub bind_addr: String,
    pub allow_registration: bool,
}

/// Database used when none is configured.
pub const DEFAULT_DATABASE_URL: &'static str = "sqlite://owo.db?mode=rwc";

/// Address listened on when none is configured.
pub const DEFAULT_BIND_ADDR: &'static str = "127.0.0.1:8080";

pub open spec fn or_default(v: Option<String>, d: Seq<char>) -> Seq<char> {
    match v {
        Some(s) => s@,
        None => d,
    }
}

impl Config {
    /// The settings from the values of `DATABASE_URL`, `BIND_ADDR` and
    /// `OWO_ALLOW_REGISTRATION` (each `None` when unset): unset addresses
    /// take their defaults, and registration is open unless the setting is
    /// `"false"` or `"0"`.
    pub fn from_vars(
        database_url: Option<String>,
        bind_addr: Option<String>,
        allow_registration: Option<&str>,
    ) -> (r: Config)
        ensures
            r.database_url@ == or_default(database_url, DEFAULT_DATABASE_URL@),
            r.bind_addr@ == or_default(bind_addr, DEFAULT_BIND_ADDR@),
            r.allow_registration == (match allow_registration {
                Some(v) => v@ != "false"@ && v@ != "0"@,
                None => true,
            }),
    {
        let database_url = match database_url {
            Some(s) => s,
            None => String::from_str(DEFAULT_DATABASE_URL),
        };
        let bind_addr = match bind_addr {
            Some(s) => s,
            None => String::from_str(DEFAULT_BIND_ADDR),
        };
        Config {
            database_url,
            bind_addr,
            allow_registration: registration_allowed(allow_registration),
        }
    }
}

/// Body of a request to the user service to create a user.
#[derive(Debug)]
pub struct CreateUserRequest {
    pub email: String,
    pub password: String,
    pub full_name: Option<String>,
}

/// The values the user service stores for a new user.
#[derive(Debug)]
pub struct NewUser {
    pub email: String,
    pub password_hash: String,
    pub full_name: String,
}

/// Creates, reads and lists users of the user service.
pub struct UserService;

impl UserService {
    /// The row stored for a new user: the email as given, an Argon2id hash
    /// of the password (never the password itself), and the full name,
    /// empty when none was given. Fails only for a password longer than
    /// Argon2 hashes (2^32 - 1 bytes).
    pub fn new_user(req: CreateUserRequest) -> (r: Result<NewUser, ApiError>)
        ensures
            r is Ok <==> encode_utf8(req.password@).len() <= MAX_HASHED_PASSWORD_BYTES,
            r matches Ok(u) ==> {
                &&& u.email@ == req.email@
                &&& u.full_name@ == or_default(req.full_name, Seq::empty())
                &&& u.password_hash@.len() >= 10
                &&& u.password_hash@.subrange(0, 10) == "$argon2id$"@
            },
            r matches Err(e) ==> e is Internal,
    {
        let hash = match hash_password(req.password.as_str()) {
            Ok(h) => h,
            Err(e) => return Err(e),
        };
        let full_name = match req.full_name {
            Some(n) => n,
            None => String::new(),
        };
        Ok(NewUser { email: req.email, password_hash: hash, full_name })
    }
}

} // verus!
