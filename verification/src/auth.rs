//! Who is calling: identities, roles and account records.

use vstd::prelude::*;
use crate::decimal::Decimal;
use crate::error::{Error, UnauthorizedType};
use crate::token::{AccessTokenClaims, RefreshTokenClaims, RefreshTokenModel, current_timestamp};
use crate::util::{fresh_object_id, hash_password, now, verify_password, DateTime, ObjectId};
use crate::validate::{is_email, length_between, must_match, valid_email};

verus! {

/// What a user may do.
#[derive(Clone, Copy, Debug, PartialEq, Eq, Structural)]
pub enum UserRole {
    Customer,
    Courier,
    Admin,
}

impl Default for UserRole {
    fn default() -> (role: UserRole)
        ensures
            role == UserRole::Customer,
    {
        UserRole::Customer
    }
}

impl UserRole {
    /// Whether the role may handle deliveries: couriers and admins.
    pub fn delivers(&self) -> (r: bool)
        ensures
            r == may_deliver(*self),
    {
        match self {
            UserRole::Customer => false,
            UserRole::Courier | UserRole::Admin => true,
        }
    }
}

/// Whether a role may handle deliveries.
pub open spec fn may_deliver(role: UserRole) -> bool {
    role != UserRole::Customer
}

/// The identity and role that a request was made under.
#[derive(Clone, Copy, Debug)]
pub struct UserAccess {
    pub id: ObjectId,
    pub role: UserRole,
}

/// An account as it is stored.
#[derive(Clone, Debug)]
pub struct UserModel {
    pub id: ObjectId,
    pub name: String,
    pub email: String,
    pub password: String,
    pub role: UserRole,
    pub balance: Decimal,
    pub created_at: DateTime,
    pub updated_at: DateTime,
}

/// The refresh token that a request carried in its cookie.
#[derive(Clone, Debug)]
pub struct RefreshToken(pub String);

impl RefreshToken {
    /// The refresh token of a request, given the value of its
    /// `refresh_token` cookie: a request without one lets no one in.
    pub fn from_cookie(value: Option<String>) -> (r: Result<RefreshToken, Error>)
        ensures
            match value {
                Some(token) => r matches Ok(found) && found.0@ == token@,
                None => r matches Err(e) && e == Error::Unauthorized(
                    UnauthorizedType::InvalidRefreshToken,
                ),
            },
    {
        match value {
            Some(token) => Ok(RefreshToken(token)),
            None => Err(Error::Unauthorized(UnauthorizedType::InvalidRefreshToken)),
        }
    }
}

/// The body of a request to open an account.
#[derive(Clone, Debug)]
pub struct RegisterRequest {
    pub name: String,
    pub email: String,
    pub password: String,
    pub confirm_password: String,
}

/// The body of a request to log in.
#[derive(Clone, Debug)]
pub struct LoginRequest {
    pub email: String,
    pub password: String,
}

/// The tokens handed out on login.
#[derive(Clone, Debug)]
pub struct LoginResponse {
    pub refresh_token: String,
    pub access_token: String,
}

/// An account as values.
pub struct UserView {
    pub id: Seq<u8>,
    pub name: Seq<char>,
    pub email: Seq<char>,
    pub password: Seq<char>,
    pub role: UserRole,
    pub balance: (int, nat),
    pub created_at: DateTime,
    pub updated_at: DateTime,
}

impl View for UserModel {
    type V = UserView;

    open spec fn view(&self) -> UserView {
        UserView {
            id: self.id@,
            name: self.name@,
            email: self.email@,
            password: self.password@,
            role: self.role,
            balance: self.balance@,
            created_at: self.created_at,
            updated_at: self.updated_at,
        }
    }
}

// ---------------------------------------------------------------------------
// Who is calling
// ---------------------------------------------------------------------------

impl UserModel {
    /// The account that an access token was issued for, given what storage
    /// holds under its identifier: a token whose account is gone lets no one
    /// in.
    pub fn from_id(found: Option<UserModel>) -> (r: Result<UserModel, Error>)
        ensures
            match found {
                Some(user) => r == Ok::<UserModel, Error>(user),
                None => r == Err::<UserModel, Error>(
                    Error::Unauthorized(UnauthorizedType::InvalidAccessToken),
                ),
            },
    {
        match found {
            Some(user) => Ok(user),
            None => Err(Error::Unauthorized(UnauthorizedType::InvalidAccessToken)),
        }
    }
}

impl UserAccess {
    /// The identity that an access token stands for at the second `now`: none
    /// once the token has lapsed.
    pub fn from_token_at(claims: &AccessTokenClaims, now: i64) -> (r: Result<UserAccess, Error>)
        ensures
            claims.exp < now ==> r == Err::<UserAccess, Error>(
                Error::Unauthorized(UnauthorizedType::InvalidAccessToken),
            ),
            claims.exp >= now ==> r == Ok::<UserAccess, Error>(
                UserAccess { id: claims.sub, role: claims.user_role },
            ),
    {
        if claims.is_expired_at(now) {
            return Err(Error::Unauthorized(UnauthorizedType::InvalidAccessToken));
        }
        Ok(UserAccess { id: claims.sub, role: claims.user_role })
    }

    /// The identity that an access token stands for now.
    pub fn from_token(claims: &AccessTokenClaims) -> (r: Result<UserAccess, Error>)
        ensures
            match r {
                Ok(access) => access == (UserAccess { id: claims.sub, role: claims.user_role }),
                Err(e) => e == Error::Unauthorized(UnauthorizedType::InvalidAccessToken),
            },
    {
        let now = current_timestamp();
        UserAccess::from_token_at(claims, now)
    }
}

/// A refresh token that was read: its claims, and the token itself.
#[derive(Clone, Debug)]
pub struct RefreshClaim(pub RefreshTokenClaims, pub String);

impl RefreshClaim {
    /// The claim of a refresh token, given what decoding it gave; a token
    /// that does not decode is refused.
    pub fn from_token(decoded: Option<RefreshTokenClaims>, refresh_token: String) -> (r: Result<
        RefreshClaim,
        Error,
    >)
        ensures
            match decoded {
                Some(claims) => r matches Ok(claim) && claim.0 == claims && claim.1@
                    == refresh_token@,
                None => r matches Err(e) && e == Error::Unauthorized(
                    UnauthorizedType::InvalidRefreshToken,
                ),
            },
    {
        match decoded {
            Some(claims) => Ok(RefreshClaim(claims, refresh_token)),
            None => Err(Error::Unauthorized(UnauthorizedType::InvalidRefreshToken)),
        }
    }
}

// ---------------------------------------------------------------------------
// Opening an account
// ---------------------------------------------------------------------------

/// The first of the fields of a new account that breaks its rule, in the
/// order name, e-mail, password, confirmation: a name of 1 to 124
/// characters, an e-mail address, a password of 8 to 64 characters, and a
/// confirmation equal to the password.
pub open spec fn invalid_field(
    name: Seq<char>,
    email: Seq<char>,
    password: Seq<char>,
    confirm_password: Seq<char>,
) -> Option<Seq<char>> {
    if !(1 <= name.len() <= 124) {
        Some("name"@)
    } else if !valid_email(email) {
        Some("email"@)
    } else if !(8 <= password.len() <= 64) {
        Some("password"@)
    } else if confirm_password != password {
        Some("confirm_password"@)
    } else {
        None
    }
}

/// Whether `r` reports exactly the first invalid field, if there is one.
pub open spec fn reports_invalid_field(r: Result<(), Error>, field: Option<Seq<char>>) -> bool {
    match field {
        Some(field) => r matches Err(Error::ValidationError(text)) && text@ == field,
        None => r is Ok,
    }
}

/// Checks the four text fields of a new account.
fn validate_fields(name: &str, email: &str, password: &str, confirm_password: &str) -> (r: Result<
    (),
    Error,
>)
    ensures
        reports_invalid_field(r, invalid_field(name@, email@, password@, confirm_password@)),
{
    if !length_between(name, 1, 124) {
        return Err(Error::ValidationError("name".to_owned()));
    }
    if !is_email(email) {
        return Err(Error::ValidationError("email".to_owned()));
    }
    if !length_between(password, 8, 64) {
        return Err(Error::ValidationError("password".to_owned()));
    }
    if !must_match(confirm_password, password) {
        return Err(Error::ValidationError("confirm_password".to_owned()));
    }
    Ok(())
}

impl RegisterRequest {
    /// Checks the fields; the failure names the first that breaks its rule.
    pub fn validate(&self) -> (r: Result<(), Error>)
        ensures
            reports_invalid_field(
                r,
                invalid_field(self.name@, self.email@, self.password@, self.confirm_password@),
            ),
    {
        validate_fields(
            self.name.as_str(),
            self.email.as_str(),
            self.password.as_str(),
            self.confirm_password.as_str(),
        )
    }
}

/// What a new account is made from.
#[derive(Clone, Debug)]
pub struct CreateUserRequest {
    pub name: String,
    pub email: String,
    pub password: String,
    pub confirm_password: String,
    pub balance: Decimal,
    pub role: UserRole,
}

impl CreateUserRequest {
    /// Checks the fields; the failure names the first that breaks its rule.
    pub fn validate(&self) -> (r: Result<(), Error>)
        ensures
            reports_invalid_field(
                r,
                invalid_field(self.name@, self.email@, self.password@, self.confirm_password@),
            ),
    {
        validate_fields(
            self.name.as_str(),
            self.email.as_str(),
            self.password.as_str(),
            self.confirm_password.as_str(),
        )
    }
}

/// The account that a request creates under `id` at `at`, with the password
/// stored as `hashed`.
pub open spec fn new_user(
    request: CreateUserRequest,
    hashed: Seq<char>,
    id: Seq<u8>,
    at: DateTime,
) -> UserView {
    UserView {
        id,
        name: request.name@,
        email: request.email@,
        password: hashed,
        role: request.role,
        balance: request.balance@,
        created_at: at,
        updated_at: at,
    }
}

/// Whether `r` is what creating an account gives: the first invalid field;
/// else, where `existing` accounts have the e-mail address already, that it
/// must be unique; else the failure to hash the password; else the account.
pub open spec fn creates_user(
    r: Result<UserModel, Error>,
    request: CreateUserRequest,
    existing: u64,
    hashed: Result<String, Error>,
    id: Seq<u8>,
    at: DateTime,
) -> bool {
    match invalid_field(
        request.name@,
        request.email@,
        request.password@,
        request.confirm_password@,
    ) {
        Some(field) => r matches Err(Error::ValidationError(text)) && text@ == field,
        None => if existing > 0 {
            r matches Err(Error::MustUniqueError(text)) && text@ == "email"@
        } else {
            match hashed {
                Ok(hashed) => r matches Ok(user) && user@ == new_user(request, hashed@, id, at),
                Err(e) => r matches Err(f) && f == e,
            }
        },
    }
}

/// Creates the account that `request` describes, under `id` and at `at`.
/// `existing` is the number of accounts that have the e-mail address, and
/// `hashed` the outcome of hashing the password.
pub fn create_user_at(
    request: CreateUserRequest,
    existing: u64,
    hashed: Result<String, Error>,
    id: ObjectId,
    at: DateTime,
) -> (r: Result<UserModel, Error>)
    ensures
        creates_user(r, request, existing, hashed, id@, at),
{
    match request.validate() {
        Err(e) => { return Err(e); },
        Ok(_) => {},
    }
    if existing > 0 {
        return Err(Error::MustUniqueError("email".to_owned()));
    }
    let password = match hashed {
        Ok(password) => password,
        Err(e) => { return Err(e); },
    };
    Ok(
        UserModel {
            id,
            name: request.name,
            email: request.email,
            password,
            role: request.role,
            balance: request.balance,
            created_at: at,
            updated_at: at,
        },
    )
}

/// Creates the account that `request` describes, now and under a fresh
/// identifier, with the password hashed by `argon`. The password is hashed
/// only once the request is valid and the address free.
pub fn create_user(argon: &argon2::Argon2, request: CreateUserRequest, existing: u64) -> (r: Result<
    UserModel,
    Error,
>)
    ensures
        exists|hashed: Result<String, Error>, id: Seq<u8>, at: DateTime|
            #[trigger] creates_user(r, request, existing, hashed, id, at) && (hashed matches Err(
                e,
            ) ==> e is PasswordHashError),
{
    match request.validate() {
        Err(e) => {
            assert(creates_user(
                Err::<UserModel, Error>(e),
                request,
                existing,
                Ok::<String, Error>(request.name),
                Seq::<u8>::empty(),
                DateTime { millis: 0 },
            ));
            return Err(e);
        },
        Ok(_) => {},
    }
    if existing > 0 {
        let r = Err(Error::MustUniqueError("email".to_owned()));
        assert(creates_user(
            r,
            request,
            existing,
            Ok::<String, Error>(request.name),
            Seq::<u8>::empty(),
            DateTime { millis: 0 },
        ));
        return r;
    }
    let hashed = hash_password(argon, request.password.as_str());
    let id = fresh_object_id();
    let at = now();
    create_user_at(request, existing, hashed, id, at)
}

/// An account as it is shown: without its password.
#[derive(Clone, Debug)]
pub struct RegisterResponse {
    pub id: ObjectId,
    pub name: String,
    pub email: String,
    pub role: UserRole,
    pub balance: Decimal,
    pub created_at: DateTime,
    pub updated_at: DateTime,
}

impl RegisterResponse {
    /// What is shown of `user`.
    pub fn from_user(user: UserModel) -> (shown: RegisterResponse)
        ensures
            shown.id@ == user.id@,
            shown.name@ == user.name@,
            shown.email@ == user.email@,
            shown.role == user.role,
            shown.balance@ == user.balance@,
            shown.created_at == user.created_at,
            shown.updated_at == user.updated_at,
    {
        RegisterResponse {
            id: user.id,
            name: user.name,
            email: user.email,
            role: user.role,
            balance: user.balance,
            created_at: user.created_at,
            updated_at: user.updated_at,
        }
    }
}

/// What registering asks to be created: a customer with an empty balance.
pub fn registration(request: RegisterRequest) -> (account: CreateUserRequest)
    ensures
        account.name@ == request.name@,
        account.email@ == request.email@,
        account.password@ == request.password@,
        account.confirm_password@ == request.confirm_password@,
        account.balance@ == (0int, 0nat),
        account.role == UserRole::Customer,
{
    CreateUserRequest {
        name: request.name,
        email: request.email,
        password: request.password,
        confirm_password: request.confirm_password,
        balance: Decimal::zero(),
        role: UserRole::Customer,
    }
}

/// Opens a customer account with an empty balance: the account to store.
pub fn register(argon: &argon2::Argon2, request: RegisterRequest, existing: u64) -> (r: Result<
    UserModel,
    Error,
>)
    ensures
        match invalid_field(
            request.name@,
            request.email@,
            request.password@,
            request.confirm_password@,
        ) {
            Some(field) => r matches Err(Error::ValidationError(text)) && text@ == field,
            None => if existing > 0 {
                r matches Err(Error::MustUniqueError(text)) && text@ == "email"@
            } else {
                match r {
                    Ok(user) => {
                        &&& user.name@ == request.name@
                        &&& user.email@ == request.email@
                        &&& user.role == UserRole::Customer
                        &&& user.balance@ == (0int, 0nat)
                        &&& user.created_at == user.updated_at
                    },
                    Err(e) => e is PasswordHashError,
                }
            },
        },
{
    let account = registration(request);
    create_user(argon, account, existing)
}

// ---------------------------------------------------------------------------
// Logging in and out
// ---------------------------------------------------------------------------

/// Whom a login lets in: the account found for the e-mail address, where the
/// password matched; otherwise the attempt is refused without saying which
/// of the two was wrong.
pub fn login_outcome(user: Option<UserModel>, password_matches: bool) -> (r: Result<
    UserModel,
    Error,
>)
    ensures
        match user {
            Some(found) if password_matches => r == Ok::<UserModel, Error>(found),
            _ => r == Err::<UserModel, Error>(
                Error::Unauthorized(UnauthorizedType::WrongUsernameOrPassword),
            ),
        },
{
    match user {
        Some(found) => {
            if password_matches {
                Ok(found)
            } else {
                Err(Error::Unauthorized(UnauthorizedType::WrongUsernameOrPassword))
            }
        },
        None => Err(Error::Unauthorized(UnauthorizedType::WrongUsernameOrPassword)),
    }
}

/// Logs in with the account found for the request's e-mail address, if any,
/// checking the password with `argon`.
pub fn login(argon: &argon2::Argon2, user: Option<UserModel>, request: &LoginRequest) -> (r: Result<
    UserModel,
    Error,
>)
    ensures
        match r {
            Ok(found) => user == Some(found),
            Err(e) => e == Error::Unauthorized(UnauthorizedType::WrongUsernameOrPassword),
        },
{
    match user {
        Some(found) => {
            let matches = verify_password(
                argon,
                request.password.as_str(),
                found.password.as_str(),
            );
            login_outcome(Some(found), matches)
        },
        None => login_outcome(None, false),
    }
}

/// The cookie that carries a refresh token.
pub fn refresh_cookie(refresh_token: &str) -> (cookie: String)
    ensures
        cookie@ == "refresh_token="@ + refresh_token@ + "; HttpOnly; Path=/"@,
{
    "refresh_token=".to_owned().concat(refresh_token).concat("; HttpOnly; Path=/")
}

/// Which stored refresh token a logout removes: the one found for the
/// claim. Where none was found the caller is not let in.
pub fn logout(stored: Option<RefreshTokenModel>) -> (r: Result<ObjectId, Error>)
    ensures
        match stored {
            Some(model) => r matches Ok(id) && id@ == model.id@,
            None => r matches Err(e) && e == Error::Unauthorized(
                UnauthorizedType::InvalidRefreshToken,
            ),
        },
{
    match stored {
        Some(model) => Ok(model.id),
        None => Err(Error::Unauthorized(UnauthorizedType::InvalidRefreshToken)),
    }
}

/// What a request for a new access token leads to: whether the stored
/// refresh token is to be removed, and the user to issue the token for or
/// the refusal.
#[derive(Debug)]
pub struct Refreshed {
    pub revoke: bool,
    pub user: Result<UserModel, Error>,
}

/// Decides a request for a new access token. `stored` is the refresh token
/// found for the claim, `token_matches` whether the token presented matches
/// its hash, and `user` the account found for the claim. A stored token that
/// does not match is removed; without a stored token or an account the
/// caller is not let in.
pub fn refresh_outcome(
    stored: Option<RefreshTokenModel>,
    token_matches: bool,
    user: Option<UserModel>,
) -> (r: Refreshed)
    ensures
        r.revoke == (stored is Some && !token_matches),
        match (stored, user) {
            (Some(_), Some(found)) => r.user == Ok::<UserModel, Error>(found),
            _ => r.user == Err::<UserModel, Error>(
                Error::Unauthorized(UnauthorizedType::InvalidRefreshToken),
            ),
        },
{
    match stored {
        None => Refreshed {
            revoke: false,
            user: Err(Error::Unauthorized(UnauthorizedType::InvalidRefreshToken)),
        },
        Some(_) => {
            let user = match user {
                Some(found) => Ok(found),
                None => Err(Error::Unauthorized(UnauthorizedType::InvalidRefreshToken)),
            };
            Refreshed { revoke: !token_matches, user }
        },
    }
}

/// Decides a request for a new access token, checking the token presented
/// against the stored hash with `argon`.
pub fn refresh_access_token(
    argon: &argon2::Argon2,
    stored: Option<RefreshTokenModel>,
    refresh_token: &str,
    user: Option<UserModel>,
) -> (r: Refreshed)
    ensures
        stored is None ==> !r.revoke,
        match (stored, user) {
            (Some(_), Some(found)) => r.user == Ok::<UserModel, Error>(found),
            _ => r.user == Err::<UserModel, Error>(
                Error::Unauthorized(UnauthorizedType::InvalidRefreshToken),
            ),
        },
{
    let matches = match &stored {
        Some(model) => verify_password(argon, refresh_token, model.token.as_str()),
        None => false,
    };
    refresh_outcome(stored, matches, user)
}

} // verus!
