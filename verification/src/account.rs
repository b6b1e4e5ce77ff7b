//! Accounts as an admin manages them.

use vstd::prelude::*;
use crate::auth::{
    create_user,
    creates_user,
    CreateUserRequest,
    RegisterResponse,
    UserAccess,
    UserModel,
    UserRole,
    UserView,
};
use crate::decimal::Decimal;
use crate::error::Error;
use crate::util::{hash_password, now, DateTime, ObjectId};
use crate::validate::{is_email, length_between, must_match, valid_email};

verus! {

/// The body of a request to create an account.
#[derive(Clone, Debug)]
pub struct AccountRequest {
    pub name: String,
    pub email: String,
    pub password: String,
    pub confirm_password: String,
    pub balance: Option<Decimal>,
    pub role: UserRole,
}

/// The body of a request to change an account: what is absent stays.
#[derive(Clone, Debug)]
pub struct UpdateRequest {
    pub name: Option<String>,
    pub email: Option<String>,
    pub password: Option<String>,
    pub confirm_password: Option<String>,
    pub balance: Option<Decimal>,
    pub role: Option<UserRole>,
}

/// Whether a role manages accounts: admins only.
pub open spec fn may_administer(role: UserRole) -> bool {
    role == UserRole::Admin
}

/// Whether the caller is an admin.
fn administers(user: &UserAccess) -> (r: bool)
    ensures
        r == may_administer(user.role),
{
    match user.role {
        UserRole::Customer | UserRole::Courier => false,
        UserRole::Admin => true,
    }
}

/// What an admin's request asks to be created: the account as given, with
/// an empty balance where none is named.
pub fn account_of(request: AccountRequest) -> (account: CreateUserRequest)
    ensures
        account.name@ == request.name@,
        account.email@ == request.email@,
        account.password@ == request.password@,
        account.confirm_password@ == request.confirm_password@,
        account.role == request.role,
        account.balance@ == match request.balance {
            Some(balance) => balance@,
            None => (0int, 0nat),
        },
{
    let balance = match request.balance {
        Some(balance) => balance,
        None => Decimal::zero(),
    };
    CreateUserRequest {
        name: request.name,
        email: request.email,
        password: request.password,
        confirm_password: request.confirm_password,
        balance,
        role: request.role,
    }
}

/// An admin creates an account; anyone else is refused. `existing` is the
/// number of accounts that have the e-mail address. The account returned is
/// the one to store.
pub fn create(
    argon: &argon2::Argon2,
    user: &UserAccess,
    request: AccountRequest,
    existing: u64,
) -> (r: Result<UserModel, Error>)
    ensures
        !may_administer(user.role) ==> r == Err::<UserModel, Error>(Error::Forbidden),
        may_administer(user.role) ==> match crate::auth::invalid_field(
            request.name@,
            request.email@,
            request.password@,
            request.confirm_password@,
        ) {
            Some(field) => r matches Err(Error::ValidationError(text)) && text@ == field,
            None => if existing > 0 {
                r matches Err(Error::MustUniqueError(text)) && text@ == "email"@
            } else {
                match r {
                    Ok(shown) => {
                        &&& shown.name@ == request.name@
                        &&& shown.email@ == request.email@
                        &&& shown.role == request.role
                        &&& shown.balance@ == match request.balance {
                            Some(balance) => balance@,
                            None => (0int, 0nat),
                        }
                        &&& shown.created_at == shown.updated_at
                    },
                    Err(e) => e is PasswordHashError,
                }
            },
        },
{
    if !administers(user) {
        return Err(Error::Forbidden);
    }
    let account = account_of(request);
    create_user(argon, account, existing)
}

/// The text of a field that may be absent.
pub open spec fn text_of(field: Option<String>) -> Option<Seq<char>> {
    match field {
        Some(text) => Some(text@),
        None => None,
    }
}

/// The first of the fields of a change that breaks its rule, in the order
/// name, e-mail, password, confirmation. The rules are those of a new
/// account, for the fields that are present; the confirmation must be
/// present exactly when the password is, and equal to it.
pub open spec fn invalid_change(
    name: Option<Seq<char>>,
    email: Option<Seq<char>>,
    password: Option<Seq<char>>,
    confirm_password: Option<Seq<char>>,
) -> Option<Seq<char>> {
    if name matches Some(n) && !(1 <= n.len() <= 124) {
        Some("name"@)
    } else if email matches Some(e) && !valid_email(e) {
        Some("email"@)
    } else if password matches Some(p) && !(8 <= p.len() <= 64) {
        Some("password"@)
    } else if confirm_password != password {
        Some("confirm_password"@)
    } else {
        None
    }
}

impl UpdateRequest {
    /// Checks the fields; the failure names the first that breaks its rule.
    pub fn validate(&self) -> (r: Result<(), Error>)
        ensures
            crate::auth::reports_invalid_field(
                r,
                invalid_change(
                    text_of(self.name),
                    text_of(self.email),
                    text_of(self.password),
                    text_of(self.confirm_password),
                ),
            ),
    {
        if let Some(name) = &self.name {
            if !length_between(name.as_str(), 1, 124) {
                return Err(Error::ValidationError("name".to_owned()));
            }
        }
        if let Some(email) = &self.email {
            if !is_email(email.as_str()) {
                return Err(Error::ValidationError("email".to_owned()));
            }
        }
        if let Some(password) = &self.password {
            if !length_between(password.as_str(), 8, 64) {
                return Err(Error::ValidationError("password".to_owned()));
            }
        }
        let confirmed = match (&self.confirm_password, &self.password) {
            (Some(confirmation), Some(password)) => must_match(
                confirmation.as_str(),
                password.as_str(),
            ),
            (None, None) => true,
            _ => false,
        };
        if !confirmed {
            return Err(Error::ValidationError("confirm_password".to_owned()));
        }
        Ok(())
    }
}

/// The account after a change at `at`: each field that the request names
/// replaces the stored one, the password by its hash.
pub open spec fn changed(
    account: UserView,
    request: UpdateRequest,
    hashed: Option<Seq<char>>,
    at: DateTime,
) -> UserView {
    UserView {
        id: account.id,
        name: match request.name {
            Some(name) => name@,
            None => account.name,
        },
        email: match request.email {
            Some(email) => email@,
            None => account.email,
        },
        password: match hashed {
            Some(hashed) => hashed,
            None => account.password,
        },
        role: match request.role {
            Some(role) => role,
            None => account.role,
        },
        balance: match request.balance {
            Some(balance) => balance@,
            None => account.balance,
        },
        updated_at: at,
        created_at: account.created_at,
    }
}

/// Whether a change names an e-mail address other than the stored one.
pub open spec fn changes_email(account: UserView, request: UpdateRequest) -> bool {
    request.email matches Some(email) && email@ != account.email
}

/// Whether `r` is what changing an account gives: the first invalid field;
/// else a refusal of anyone but an admin; else that no account was found;
/// else, where the e-mail address changes and `existing` accounts have the
/// new one, that it must be unique; else the failure to hash a new password;
/// else the changed account. `hashed` is the outcome of hashing the new
/// password, where the request names one.
pub open spec fn updates_account(
    r: Result<UserModel, Error>,
    user: UserAccess,
    account: Option<UserModel>,
    request: UpdateRequest,
    existing: u64,
    hashed: Option<Result<String, Error>>,
    at: DateTime,
) -> bool {
    match invalid_change(
        text_of(request.name),
        text_of(request.email),
        text_of(request.password),
        text_of(request.confirm_password),
    ) {
        Some(field) => r matches Err(Error::ValidationError(text)) && text@ == field,
        None => if !may_administer(user.role) {
            r matches Err(e) && e == Error::Forbidden
        } else {
            match account {
                None => r matches Err(e) && e == Error::NoResource,
                Some(account) => if changes_email(account@, request) && existing > 0 {
                    r matches Err(Error::MustUniqueError(text)) && text@ == "email"@
                } else {
                    match hashed {
                        Some(Err(e)) => r matches Err(f) && f == e,
                        Some(Ok(hashed)) => r matches Ok(n) && n@ == changed(
                            account@,
                            request,
                            Some(hashed@),
                            at,
                        ),
                        None => r matches Ok(n) && n@ == changed(account@, request, None, at),
                    }
                },
            }
        },
    }
}

/// Whether the request may go on to change `account`: it is valid, the
/// caller an admin, the account found and the new e-mail address free.
fn check_update(
    user: &UserAccess,
    account: &Option<UserModel>,
    request: &UpdateRequest,
    existing: u64,
) -> (r: Result<(), Error>)
    ensures
        match invalid_change(
            text_of(request.name),
            text_of(request.email),
            text_of(request.password),
            text_of(request.confirm_password),
        ) {
            Some(field) => r matches Err(Error::ValidationError(text)) && text@ == field,
            None => if !may_administer(user.role) {
                r matches Err(e) && e == Error::Forbidden
            } else {
                match *account {
                    None => r matches Err(e) && e == Error::NoResource,
                    Some(account) => if changes_email(account@, *request) && existing > 0 {
                        r matches Err(Error::MustUniqueError(text)) && text@ == "email"@
                    } else {
                        r is Ok
                    },
                }
            },
        },
{
    match request.validate() {
        Err(e) => { return Err(e); },
        Ok(_) => {},
    }
    if !administers(user) {
        return Err(Error::Forbidden);
    }
    let account = match account {
        Some(account) => account,
        None => { return Err(Error::NoResource); },
    };
    if let Some(email) = &request.email {
        if *email != account.email && existing > 0 {
            return Err(Error::MustUniqueError("email".to_owned()));
        }
    }
    Ok(())
}

/// Applies a checked change to an account.
fn apply_update(account: UserModel, request: UpdateRequest, hashed: Option<String>, at: DateTime) -> (n:
    UserModel)
    ensures
        n@ == changed(account@, request, text_of(hashed), at),
{
    UserModel {
        id: account.id,
        name: match request.name {
            Some(name) => name,
            None => account.name,
        },
        email: match request.email {
            Some(email) => email,
            None => account.email,
        },
        password: match hashed {
            Some(hashed) => hashed,
            None => account.password,
        },
        role: match request.role {
            Some(role) => role,
            None => account.role,
        },
        balance: match request.balance {
            Some(balance) => balance,
            None => account.balance,
        },
        updated_at: at,
        created_at: account.created_at,
    }
}

/// An admin changes the account found for the request, at `at`. `existing`
/// is the number of accounts that have the e-mail address the request
/// names, and `hashed` the outcome of hashing the password it names, or
/// `None` to leave the stored password.
pub fn update_at(
    user: &UserAccess,
    account: Option<UserModel>,
    request: UpdateRequest,
    existing: u64,
    hashed: Option<Result<String, Error>>,
    at: DateTime,
) -> (r: Result<UserModel, Error>)
    ensures
        updates_account(r, *user, account, request, existing, hashed, at),
{
    match check_update(user, &account, &request, existing) {
        Err(e) => { return Err(e); },
        Ok(_) => {},
    }
    let account = match account {
        Some(account) => account,
        None => { return Err(Error::NoResource); },
    };
    let password = match hashed {
        Some(Ok(hashed)) => Some(hashed),
        Some(Err(e)) => { return Err(e); },
        None => None,
    };
    Ok(apply_update(account, request, password, at))
}

/// An admin changes the account found for the request, now, hashing a new
/// password with `argon`.
pub fn update(
    argon: &argon2::Argon2,
    user: &UserAccess,
    account: Option<UserModel>,
    request: UpdateRequest,
    existing: u64,
) -> (r: Result<UserModel, Error>)
    ensures
        exists|hashed: Option<Result<String, Error>>, at: DateTime|
            #[trigger] updates_account(r, *user, account, request, existing, hashed, at) && (
            hashed matches Some(Err(e)) ==> e is PasswordHashError),
{
    match check_update(user, &account, &request, existing) {
        Err(e) => {
            assert(updates_account(
                Err::<UserModel, Error>(e),
                *user,
                account,
                request,
                existing,
                None,
                DateTime { millis: 0 },
            ));
            return Err(e);
        },
        Ok(_) => {},
    }
    let hashed = match &request.password {
        Some(password) => Some(hash_password(argon, password.as_str())),
        None => None,
    };
    let at = now();
    update_at(user, account, request, existing, hashed, at)
}

/// Which account a request withdraws: the one found, for an admin.
pub fn delete(user: &UserAccess, account: Option<UserModel>) -> (r: Result<ObjectId, Error>)
    ensures
        if !may_administer(user.role) {
            r matches Err(e) && e == Error::Forbidden
        } else {
            match account {
                Some(a) => r matches Ok(id) && id@ == a.id@,
                None => r matches Err(e) && e == Error::NoResource,
            }
        },
{
    if !administers(user) {
        return Err(Error::Forbidden);
    }
    match account {
        Some(account) => Ok(account.id),
        None => Err(Error::NoResource),
    }
}

/// The account found for a request to read one, as it is shown.
pub fn show(account: Option<UserModel>) -> (r: Result<RegisterResponse, Error>)
    ensures
        match account {
            Some(a) => r matches Ok(shown) && shown.id@ == a.id@ && shown.name@ == a.name@
                && shown.email@ == a.email@ && shown.role == a.role && shown.balance@
                == a.balance@,
            None => r matches Err(e) && e == Error::NoResource,
        },
{
    match account {
        Some(account) => Ok(RegisterResponse::from_user(account)),
        None => Err(Error::NoResource),
    }
}

} // verus!
