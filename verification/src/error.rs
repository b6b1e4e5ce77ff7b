//! The failures of the service and how each is reported.

use vstd::prelude::*;

verus! {

pub const UNAUTHORIZED: u16 = 401;

pub const PAYMENT_REQUIRED: u16 = 402;

pub const FORBIDDEN: u16 = 403;

pub const NOT_FOUND: u16 = 404;

pub const UNPROCESSABLE_ENTITY: u16 = 422;

pub const INTERNAL_SERVER_ERROR: u16 = 500;

/// Why a caller was not let in.
#[derive(Clone, Copy, Debug, PartialEq, Eq, Structural)]
pub enum UnauthorizedType {
    WrongUsernameOrPassword,
    InvalidAccessToken,
    InvalidRefreshToken,
    WrongPassword,
    PasswordNotMatch,
    NoPermission,
}

impl UnauthorizedType {
    /// The sentence shown to the caller.
    pub fn message(&self) -> (text: &'static str)
        ensures
            text@ == unauthorized_text(*self),
    {
        match self {
            UnauthorizedType::WrongUsernameOrPassword => "Wrong Username or Password",
            UnauthorizedType::InvalidAccessToken => "Invalid access token",
            UnauthorizedType::InvalidRefreshToken => "Invalid refresh token",
            UnauthorizedType::WrongPassword => "Wrong Password",
            UnauthorizedType::PasswordNotMatch => "Password doesn't match",
            UnauthorizedType::NoPermission => "You have no permission to access this resource",
        }
    }
}

pub open spec fn unauthorized_text(kind: UnauthorizedType) -> Seq<char> {
    match kind {
        UnauthorizedType::WrongUsernameOrPassword => "Wrong Username or Password"@,
        UnauthorizedType::InvalidAccessToken => "Invalid access token"@,
        UnauthorizedType::InvalidRefreshToken => "Invalid refresh token"@,
        UnauthorizedType::WrongPassword => "Wrong Password"@,
        UnauthorizedType::PasswordNotMatch => "Password doesn't match"@,
        UnauthorizedType::NoPermission => "You have no permission to access this resource"@,
    }
}

/// A failure of a request. Variants that wrap a failure of a lower layer
/// carry its text.
#[derive(Clone, Debug)]
pub enum Error {
    ValidationError(String),
    NotFound(String),
    NoResource,
    PasswordHashError(String),
    DatabaseError(String),
    JWTError(String),
    MustUniqueError(String),
    Unauthorized(UnauthorizedType),
    Forbidden,
    BSONSerError(String),
    ViteManifestNotFound,
    CustomStatus(u16, String),
    CustomStr(u16, &'static str),
    MismatchMerchant,
    InsufficientFund,
}

/// The status code under which a failure is reported.
pub open spec fn status_of(error: Error) -> u16 {
    match error {
        Error::Unauthorized(_) => UNAUTHORIZED,
        Error::ValidationError(_) | Error::MustUniqueError(_) | Error::MismatchMerchant =>
            UNPROCESSABLE_ENTITY,
        Error::InsufficientFund => PAYMENT_REQUIRED,
        Error::Forbidden => FORBIDDEN,
        Error::NotFound(_) | Error::NoResource => NOT_FOUND,
        Error::PasswordHashError(_)
        | Error::ViteManifestNotFound
        | Error::DatabaseError(_)
        | Error::JWTError(_)
        | Error::BSONSerError(_) => INTERNAL_SERVER_ERROR,
        Error::CustomStatus(code, _) => code,
        Error::CustomStr(code, _) => code,
    }
}

/// The name of a failure's variant.
pub open spec fn variant_name(error: Error) -> Seq<char> {
    match error {
        Error::NotFound(_) => "NotFound"@,
        Error::NoResource => "NoResource"@,
        Error::ViteManifestNotFound => "ViteManifestNotFound"@,
        Error::Forbidden => "Forbidden"@,
        Error::MismatchMerchant => "MismatchMerchant"@,
        Error::InsufficientFund => "InsufficientFund"@,
        Error::ValidationError(_) => "ValidationError"@,
        Error::PasswordHashError(_) => "PasswordHashError"@,
        Error::DatabaseError(_) => "DatabaseError"@,
        Error::JWTError(_) => "JWTError"@,
        Error::BSONSerError(_) => "BSONSerError"@,
        Error::MustUniqueError(_) => "MustUniqueError"@,
        Error::Unauthorized(_) => "Unauthorized"@,
        Error::CustomStatus(_, _) => "CustomStatus"@,
        Error::CustomStr(_, _) => "CustomStr"@,
    }
}

/// The sentence shown to the caller for a failure.
pub open spec fn message_of(error: Error) -> Seq<char> {
    match error {
        Error::ValidationError(detail) => "validation error: "@ + detail@,
        Error::NotFound(uri) => uri@ + " not found"@,
        Error::NoResource => "No resource found"@,
        Error::PasswordHashError(detail) => detail@,
        Error::DatabaseError(detail) => detail@,
        Error::JWTError(detail) => detail@,
        Error::MustUniqueError(field) => field@ + " must unique"@,
        Error::Unauthorized(kind) => unauthorized_text(kind),
        Error::Forbidden => "You have no permission to access this resource"@,
        Error::BSONSerError(detail) => detail@,
        Error::ViteManifestNotFound => "Vite Manifest doesn't exists"@,
        Error::CustomStatus(_, detail) => detail@,
        Error::CustomStr(_, detail) => detail@,
        Error::MismatchMerchant => "products must be from the same merchant"@,
        Error::InsufficientFund =>
            "Your balance is not sufficient to complete this transaction."@,
    }
}

impl Error {
    /// The status code under which this failure is reported.
    pub fn status_code(&self) -> (code: u16)
        ensures
            code == status_of(*self),
    {
        match self {
            Error::Unauthorized(_) => UNAUTHORIZED,
            Error::ValidationError(_) | Error::MustUniqueError(_) | Error::MismatchMerchant =>
                UNPROCESSABLE_ENTITY,
            Error::InsufficientFund => PAYMENT_REQUIRED,
            Error::Forbidden => FORBIDDEN,
            Error::NotFound(_) | Error::NoResource => NOT_FOUND,
            Error::PasswordHashError(_)
            | Error::ViteManifestNotFound
            | Error::DatabaseError(_)
            | Error::JWTError(_)
            | Error::BSONSerError(_) => INTERNAL_SERVER_ERROR,
            Error::CustomStatus(code, _) => *code,
            Error::CustomStr(code, _) => *code,
        }
    }

    /// The name of this failure's variant.
    pub fn to_string_variant(&self) -> (name: String)
        ensures
            name@ == variant_name(*self),
    {
        let name: &'static str = match self {
            Error::NotFound(_) => "NotFound",
            Error::NoResource => "NoResource",
            Error::ViteManifestNotFound => "ViteManifestNotFound",
            Error::Forbidden => "Forbidden",
            Error::MismatchMerchant => "MismatchMerchant",
            Error::InsufficientFund => "InsufficientFund",
            Error::ValidationError(_) => "ValidationError",
            Error::PasswordHashError(_) => "PasswordHashError",
            Error::DatabaseError(_) => "DatabaseError",
            Error::JWTError(_) => "JWTError",
            Error::BSONSerError(_) => "BSONSerError",
            Error::MustUniqueError(_) => "MustUniqueError",
            Error::Unauthorized(_) => "Unauthorized",
            Error::CustomStatus(_, _) => "CustomStatus",
            Error::CustomStr(_, _) => "CustomStr",
        };
        name.to_owned()
    }

    /// The sentence shown to the caller.
    pub fn message(&self) -> (text: String)
        ensures
            text@ == message_of(*self),
    {
        match self {
            Error::ValidationError(detail) => {
                "validation error: ".to_owned().concat(detail.as_str())
            },
            Error::NotFound(uri) => uri.clone().concat(" not found"),
            Error::NoResource => "No resource found".to_owned(),
            Error::PasswordHashError(detail) => detail.clone(),
            Error::DatabaseError(detail) => detail.clone(),
            Error::JWTError(detail) => detail.clone(),
            Error::MustUniqueError(field) => field.clone().concat(" must unique"),
            Error::Unauthorized(kind) => kind.message().to_owned(),
            Error::Forbidden => "You have no permission to access this resource".to_owned(),
            Error::BSONSerError(detail) => detail.clone(),
            Error::ViteManifestNotFound => "Vite Manifest doesn't exists".to_owned(),
            Error::CustomStatus(_, detail) => detail.clone(),
            Error::CustomStr(_, detail) => (*detail).to_owned(),
            Error::MismatchMerchant => "products must be from the same merchant".to_owned(),
            Error::InsufficientFund => {
                "Your balance is not sufficient to complete this transaction.".to_owned()
            },
        }
    }
}

/// A failure as it is sent to the caller.
#[derive(Clone, Debug)]
pub struct ErrorJson {
    pub kind: String,
    pub message: String,
}

impl ErrorJson {
    /// The variant name and sentence of a failure.
    pub fn from_error(error: &Error) -> (json: ErrorJson)
        ensures
            json.kind@ == variant_name(*error),
            json.message@ == message_of(*error),
    {
        ErrorJson { kind: error.to_string_variant(), message: error.message() }
    }
}

} // verus!
