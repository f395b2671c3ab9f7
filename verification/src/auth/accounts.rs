//! User accounts: registration, login with a password, logout.

use crate::auth::password::{bcrypt_verifies, hash_password, verify_password};
use crate::auth::token::{create_jwt_token_at, token_at};
use crate::clock::{now, Timestamp, TOKEN_LIFETIME_SECS};
use crate::content::outcome::Stored;
use crate::errors::app::AppError;
use crate::ident::Uuid;
use crate::response::{error_reply, is_failure, is_success, success_reply, ApiResponse, Reply};
use vstd::prelude::*;

verus! {

/// What a user may do.
#[derive(Debug, Clone, Copy, PartialEq, Eq, Structural)]
pub enum UserRole {
    Parent,
    Admin,
    Child,
}

/// A user account as the store holds it. `password` is the hash of the
/// password, never the password itself.
#[derive(Debug)]
pub struct User {
    pub id: Uuid,
    pub username: String,
    pub email: String,
    pub password: String,
    pub phone: Option<String>,
    pub role: UserRole,
    pub is_active: bool,
    pub last_login: Option<Timestamp>,
    pub created_at: Timestamp,
    pub updated_at: Timestamp,
}

/// What is needed to open an account.
#[derive(Debug)]
pub struct CreateUserRequest {
    pub username: String,
    pub email: String,
    pub password: String,
    pub phone: Option<String>,
    pub role: Option<UserRole>,
}

/// What a caller sends to log in.
#[derive(Debug)]
pub struct LoginRequest {
    pub email: String,
    pub password: String,
}

/// What may be changed of an account; an absent field stays as it is.
#[derive(Debug)]
pub struct UpdateUserRequest {
    pub username: Option<String>,
    pub email: Option<String>,
    pub phone: Option<String>,
    pub is_active: Option<bool>,
}

/// What a caller receives after opening an account.
#[derive(Debug)]
pub struct Registered {
    pub user: User,
    pub message: String,
}

/// What a caller receives after logging in.
#[derive(Debug)]
pub struct LoggedIn {
    pub user: User,
    pub token: String,
    pub message: String,
}

/// The role of an account for which none was asked.
pub open spec fn role_or_default(role: Option<UserRole>) -> UserRole {
    match role {
        Some(r) => r,
        None => UserRole::Parent,
    }
}

impl User {
    /// The account that a request becomes once it has been given an
    /// identity and the time of its creation: the password is hashed,
    /// the role is `Parent` unless another was asked for, and the account
    /// is active and has never been logged into. The only failure is one
    /// of the hashing.
    pub fn from_request(req: CreateUserRequest, id: Uuid, at: Timestamp) -> (r: Result<
        User,
        AppError,
    >)
        ensures
            r matches Ok(user) ==> {
                &&& user.id == id
                &&& user.username == req.username
                &&& user.email == req.email
                &&& bcrypt_verifies(req.password@, user.password@) == Some(true)
                &&& user.phone == req.phone
                &&& user.role == role_or_default(req.role)
                &&& user.is_active
                &&& user.last_login is None
                &&& user.created_at == at
                &&& user.updated_at == at
            },
            r matches Err(e) ==> e is BCrypt,
    {
        let password = match hash_password(req.password.as_str()) {
            Ok(h) => h,
            Err(e) => {
                return Err(e);
            },
        };
        Ok(
            User {
                id,
                username: req.username,
                email: req.email,
                password,
                phone: req.phone,
                role: match req.role {
                    Some(r) => r,
                    None => UserRole::Parent,
                },
                is_active: true,
                last_login: None,
                created_at: at,
                updated_at: at,
            },
        )
    }

    /// Checks a password against the stored hash.
    pub fn verify_password(&self, password: &str) -> (r: Result<bool, AppError>)
        ensures
            match r {
                Ok(same) => bcrypt_verifies(password@, self.password@) == Some(same),
                Err(e) => e is BCrypt && bcrypt_verifies(password@, self.password@) is None,
            },
    {
        verify_password(password, self.password.as_str())
    }

    /// The account as it is shown to a caller: without the password hash.
    pub fn without_password(self) -> (r: User)
        ensures
            r.password@.len() == 0,
            r == (User { password: r.password, ..self }),
    {
        User {
            id: self.id,
            username: self.username,
            email: self.email,
            password: String::new(),
            phone: self.phone,
            role: self.role,
            is_active: self.is_active,
            last_login: self.last_login,
            created_at: self.created_at,
            updated_at: self.updated_at,
        }
    }
}

impl CreateUserRequest {
    /// A request is complete when user name, address and password are
    /// all given.
    pub open spec fn complete(&self) -> bool {
        self.email@.len() > 0 && self.password@.len() > 0 && self.username@.len() > 0
    }

    /// Whether user name, address and password are all given.
    pub fn is_complete(&self) -> (r: bool)
        ensures
            r == self.complete(),
    {
        !(self.email.as_str().is_empty() || self.password.as_str().is_empty()
            || self.username.as_str().is_empty())
    }
}

impl LoginRequest {
    /// A request is complete when address and password are both given.
    pub open spec fn complete(&self) -> bool {
        self.email@.len() > 0 && self.password@.len() > 0
    }

    /// Whether address and password are both given.
    pub fn is_complete(&self) -> (r: bool)
        ensures
            r == self.complete(),
    {
        !(self.email.as_str().is_empty() || self.password.as_str().is_empty())
    }
}

/// Where a registration stands.
#[derive(Clone, Copy, Debug, PartialEq, Eq, Structural)]
pub enum RegisterState {
    /// The request has arrived.
    Received,
    /// The store has been asked whether the address is taken.
    EmailAsked,
    /// The store has been asked whether the user name is taken.
    UsernameAsked,
    /// The store has been asked to open the account.
    CreateAsked,
    /// The reply has been handed out.
    Finished,
}

/// What happened since the last step of a registration.
pub enum RegisterEvent {
    /// The request arrived.
    Request(CreateUserRequest),
    /// The store told whether an account with the address exists.
    EmailLookup(Stored<bool>),
    /// The store told whether an account with the user name exists.
    UsernameLookup(Stored<bool>),
    /// The store opened the account, or failed to.
    Created(Stored<User>),
}

/// What is to be done next in a registration.
pub enum RegisterAction {
    /// Ask the store whether an account with the address of the request
    /// exists.
    FindByEmail(CreateUserRequest),
    /// Ask the store whether an account with the user name exists.
    FindByUsername,
    /// Ask the store to open the account.
    Create,
    /// Send the reply.
    Respond(Reply<ApiResponse<Registered>>),
    /// The event does not belong to the state; the registration is
    /// abandoned.
    Reject,
}

/// Whether `r` is the reply that ends a registration after `event` in
/// `state`.
pub open spec fn register_reply(
    state: RegisterState,
    event: RegisterEvent,
    at: Timestamp,
    r: Reply<ApiResponse<Registered>>,
) -> bool {
    match (state, event) {
        (RegisterState::Received, RegisterEvent::Request(_)) => is_failure(
            r,
            400,
            "用户名、邮箱和密码不能为空"@,
            at,
        ),
        (RegisterState::EmailAsked, RegisterEvent::EmailLookup(Ok(true))) => is_failure(
            r,
            409,
            "该邮箱已被注册"@,
            at,
        ),
        (RegisterState::UsernameAsked, RegisterEvent::UsernameLookup(Ok(true))) => is_failure(
            r,
            409,
            "该用户名已被使用"@,
            at,
        ),
        (RegisterState::CreateAsked, RegisterEvent::Created(Ok(user))) => is_success(r, 201, at)
            && (r.body.data matches Some(done) && done.message@ == "注册成功"@ && done.user.password@.len()
            == 0 && done.user == (User { password: done.user.password, ..user })),
        _ => is_failure(r, 500, "注册失败"@, at),
    }
}

/// Takes one step of a registration: an incomplete request is answered
/// with 400 at once; then the address and the user name are looked up
/// in turn, and a taken one is answered with 409; then the account is
/// opened, which is answered with 201 and the account without its
/// password hash. A failure of the store at any point is answered with
/// 500.
pub fn register_handler(state: RegisterState, event: RegisterEvent, at: Timestamp) -> (r: (
    RegisterState,
    RegisterAction,
))
    ensures
        match (state, event) {
            (RegisterState::Received, RegisterEvent::Request(req)) => if req.complete() {
                r.0 == RegisterState::EmailAsked && r.1 == RegisterAction::FindByEmail(req)
            } else {
                r.0 == RegisterState::Finished && (r.1 matches RegisterAction::Respond(reply)
                    && register_reply(state, event, at, reply))
            },
            (RegisterState::EmailAsked, RegisterEvent::EmailLookup(Ok(false))) => r.0
                == RegisterState::UsernameAsked && r.1 is FindByUsername,
            (RegisterState::UsernameAsked, RegisterEvent::UsernameLookup(Ok(false))) => r.0
                == RegisterState::CreateAsked && r.1 is Create,
            (RegisterState::EmailAsked, RegisterEvent::EmailLookup(_)) | (
                RegisterState::UsernameAsked,
                RegisterEvent::UsernameLookup(_),
            ) | (RegisterState::CreateAsked, RegisterEvent::Created(_)) => r.0
                == RegisterState::Finished && (r.1 matches RegisterAction::Respond(reply)
                && register_reply(state, event, at, reply)),
            _ => r.0 == RegisterState::Finished && r.1 is Reject,
        },
{
    match state {
        RegisterState::Received => match event {
            RegisterEvent::Request(req) => {
                if req.is_complete() {
                    (RegisterState::EmailAsked, RegisterAction::FindByEmail(req))
                } else {
                    (
                        RegisterState::Finished,
                        RegisterAction::Respond(
                            error_reply(400, "用户名、邮箱和密码不能为空", at),
                        ),
                    )
                }
            },
            _ => (RegisterState::Finished, RegisterAction::Reject),
        },
        RegisterState::EmailAsked => match event {
            RegisterEvent::EmailLookup(Ok(false)) => (
                RegisterState::UsernameAsked,
                RegisterAction::FindByUsername,
            ),
            RegisterEvent::EmailLookup(Ok(true)) => (
                RegisterState::Finished,
                RegisterAction::Respond(error_reply(409, "该邮箱已被注册", at)),
            ),
            RegisterEvent::EmailLookup(Err(_)) => (
                RegisterState::Finished,
                RegisterAction::Respond(error_reply(500, "注册失败", at)),
            ),
            _ => (RegisterState::Finished, RegisterAction::Reject),
        },
        RegisterState::UsernameAsked => match event {
            RegisterEvent::UsernameLookup(Ok(false)) => (
                RegisterState::CreateAsked,
                RegisterAction::Create,
            ),
            RegisterEvent::UsernameLookup(Ok(true)) => (
                RegisterState::Finished,
                RegisterAction::Respond(error_reply(409, "该用户名已被使用", at)),
            ),
            RegisterEvent::UsernameLookup(Err(_)) => (
                RegisterState::Finished,
                RegisterAction::Respond(error_reply(500, "注册失败", at)),
            ),
            _ => (RegisterState::Finished, RegisterAction::Reject),
        },
        RegisterState::CreateAsked => match event {
            RegisterEvent::Created(Ok(user)) => (
                RegisterState::Finished,
                RegisterAction::Respond(
                    success_reply(
                        201,
                        Registered {
                            user: user.without_password(),
                            message: "注册成功".to_string(),
                        },
                        at,
                    ),
                ),
            ),
            RegisterEvent::Created(Err(_)) => (
                RegisterState::Finished,
                RegisterAction::Respond(error_reply(500, "注册失败", at)),
            ),
            _ => (RegisterState::Finished, RegisterAction::Reject),
        },
        RegisterState::Finished => (RegisterState::Finished, RegisterAction::Reject),
    }
}

/// Whether `r` is the reply to a login at the time `at`, and `touch`
/// tells rightly whether the time of the last login is to be recorded.
pub open spec fn login_reply(
    req: &LoginRequest,
    lookup: Stored<Option<User>>,
    secret: Seq<char>,
    at: Timestamp,
    r: Reply<ApiResponse<LoggedIn>>,
    touch: bool,
) -> bool {
    if !req.complete() {
        !touch && is_failure(r, 400, "邮箱和密码不能为空"@, at)
    } else {
        match lookup {
            Err(_) => !touch && is_failure(r, 500, "登录失败"@, at),
            Ok(None) => !touch && is_failure(r, 401, "用户名或密码错误"@, at),
            Ok(Some(user)) => if !user.is_active {
                !touch && is_failure(r, 401, "账户已被禁用"@, at)
            } else {
                match bcrypt_verifies(req.password@, user.password@) {
                    None => !touch && is_failure(r, 500, "登录失败"@, at),
                    Some(false) => !touch && is_failure(r, 401, "用户名或密码错误"@, at),
                    Some(true) => touch && match token_at(user.id, at, secret) {
                        Some(token) => is_success(r, 200, at) && (r.body.data matches Some(done)
                            && done.token@ == token && done.message@ == "登录成功"@
                            && done.user.password@.len() == 0 && done.user == (User {
                            password: done.user.password,
                            ..user
                        })),
                        None => is_failure(r, 500, "登录失败"@, at),
                    },
                }
            },
        }
    }
}

/// Answers a login at the time `at`. An incomplete request is answered
/// with 400 whatever `lookup` says: the store is to be asked only for a
/// request that is complete. An unknown address and a wrong password
/// are answered alike; a disabled account is told so. The second part
/// of the result tells whether the password was right, in which case
/// the caller records the time of the login; whether that succeeds
/// changes nothing.
pub fn login_handler_at(
    req: &LoginRequest,
    lookup: Stored<Option<User>>,
    secret: &str,
    at: Timestamp,
) -> (r: (Reply<ApiResponse<LoggedIn>>, bool))
    requires
        0 <= at.secs <= i64::MAX - TOKEN_LIFETIME_SECS,
    ensures
        login_reply(req, lookup, secret@, at, r.0, r.1),
{
    if !req.is_complete() {
        return (error_reply(400, "邮箱和密码不能为空", at), false);
    }
    let user = match lookup {
        Ok(Some(user)) => user,
        Ok(None) => {
            return (error_reply(401, "用户名或密码错误", at), false);
        },
        Err(_) => {
            return (error_reply(500, "登录失败", at), false);
        },
    };
    if !user.is_active {
        return (error_reply(401, "账户已被禁用", at), false);
    }
    match user.verify_password(req.password.as_str()) {
        Ok(true) => {
            match create_jwt_token_at(user.id, secret, at) {
                Ok(token) => (
                    success_reply(
                        200,
                        LoggedIn {
                            user: user.without_password(),
                            token,
                            message: "登录成功".to_string(),
                        },
                        at,
                    ),
                    true,
                ),
                Err(_) => (error_reply(500, "登录失败", at), true),
            }
        },
        Ok(false) => (error_reply(401, "用户名或密码错误", at), false),
        Err(_) => (error_reply(500, "登录失败", at), false),
    }
}

/// Answers a login now: the reply to a login at some time not before
/// the epoch.
pub fn login_handler(req: &LoginRequest, lookup: Stored<Option<User>>, secret: &str) -> (r: (
    Reply<ApiResponse<LoggedIn>>,
    bool,
))
    ensures
        exists|at: Timestamp|
            at.secs >= 0 && #[trigger] login_reply(req, lookup, secret@, at, r.0, r.1),
{
    let at = now();
    login_handler_at(req, lookup, secret, at)
}

/// Answers a logout at the time `at`. Tokens are not kept on the
/// server, so there is nothing to undo.
pub fn logout_handler(at: Timestamp) -> (r: Reply<ApiResponse<String>>)
    ensures
        is_success(r, 200, at),
        r.body.data matches Some(m) && m@ == "登出成功"@,
{
    success_reply(200, "登出成功".to_string(), at)
}

/// Answers a request for the caller's own account at the time `at`: it
/// takes a login.
pub fn me_handler(at: Timestamp) -> (r: Reply<ApiResponse<User>>)
    ensures
        is_failure(r, 401, "需要身份验证"@, at),
{
    error_reply(401, "需要身份验证", at)
}

} // verus!
