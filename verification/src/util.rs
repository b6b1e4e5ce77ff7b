//! Plain-value forms of identifiers and instants.

use vstd::prelude::*;
use crate::error::Error;

verus! {

/// A twelve-byte document identifier.
#[derive(Clone, Copy, Debug)]
pub struct ObjectId {
    pub bytes: [u8; 12],
}

impl View for ObjectId {
    type V = Seq<u8>;

    open spec fn view(&self) -> Seq<u8> {
        self.bytes@
    }
}

impl ObjectId {
    /// Wraps twelve bytes as an identifier.
    pub fn from_bytes(bytes: [u8; 12]) -> (id: ObjectId)
        ensures
            id@ == bytes@,
    {
        ObjectId { bytes }
    }

    /// Whether two identifiers hold the same bytes.
    pub fn same(&self, other: &ObjectId) -> (equal: bool)
        ensures
            equal == (self@ == other@),
    {
        let mut i: usize = 0;
        while i < 12
            invariant
                i <= 12,
                forall|k: int| 0 <= k < i ==> self.bytes@[k] == other.bytes@[k],
            decreases 12 - i,
        {
            if self.bytes[i] != other.bytes[i] {
                return false;
            }
            i += 1;
        }
        assert(self.bytes@ =~= other.bytes@);
        true
    }
}

/// Calls `bson::oid::ObjectId::new` and takes the bytes of what it made.
/// Nothing is claimed of them.
#[verifier::external_body]
pub(crate) fn fresh_object_id() -> (id: ObjectId) {
    ObjectId { bytes: bson::oid::ObjectId::new().bytes() }
}

/// An instant, in milliseconds since the Unix epoch.
#[derive(Clone, Copy, Debug, PartialEq, Eq, Structural)]
pub struct DateTime {
    pub millis: i64,
}

impl DateTime {
    /// The instant `millis` milliseconds after the epoch.
    pub fn from_millis(millis: i64) -> (at: DateTime)
        ensures
            at.millis == millis,
    {
        DateTime { millis }
    }
}

/// Reads the clock with `bson::DateTime::now` and takes its milliseconds.
/// Nothing is claimed of the instant.
#[verifier::external_body]
pub(crate) fn now() -> (at: DateTime) {
    DateTime { millis: bson::DateTime::now().timestamp_millis() }
}

/// The hashing context of `argon2`, carried through to its calls.
#[verifier::external_type_specification]
#[verifier::external_body]
pub struct ExArgon2<'key>(argon2::Argon2<'key>);

/// Reads `hashed` with `password_hash::PasswordHash::new` and has `argon`
/// check the password against it with `verify_password`: whether both
/// succeed. What that depends on lies inside `argon`, so nothing is claimed.
#[verifier::external_body]
pub fn verify_password(argon: &argon2::Argon2, password: &str, hashed: &str) -> (matches: bool) {
    let hashed = match password_hash::PasswordHash::new(hashed) {
        Ok(hashed) => hashed,
        Err(_) => return false,
    };
    argon2::PasswordVerifier::verify_password(argon, password.as_bytes(), &hashed).is_ok()
}

/// Draws a salt with `password_hash::SaltString::generate` and has `argon`
/// hash the password with `hash_password`; the hash, or the failure, is
/// returned as text. The salt is random, so nothing is claimed of the hash.
#[verifier::external_body]
fn salted_hash(argon: &argon2::Argon2, password: &str) -> (hashed: Result<String, String>) {
    let salt = password_hash::SaltString::generate(&mut password_hash::rand_core::OsRng);
    match argon2::PasswordHasher::hash_password(argon, password.as_bytes(), &salt) {
        Ok(hash) => Ok(hash.to_string()),
        Err(error) => Err(error.to_string()),
    }
}

/// The salted hash of a password, or the failure of the hasher.
pub fn hash_password(argon: &argon2::Argon2, password: &str) -> (hashed: Result<String, Error>)
    ensures
        hashed is Err ==> hashed->Err_0 is PasswordHashError,
{
    match salted_hash(argon, password) {
        Ok(hashed) => Ok(hashed),
        Err(text) => Err(Error::PasswordHashError(text)),
    }
}

} // verus!
