use vstd::prelude::*;
use vstd::utf8::encode_utf8;
use crate::err::IdentityError;

verus! {

/// The failure of the hashing primitive. Nothing is read from it: every such
/// failure counts as the same one.
#[verifier::external_type_specification]
#[verifier::external_body]
pub struct ExArgon2Error(argon2::Error);

/// The encoded Argon2 hash of a password under a salt with the primitive's
/// default settings, where there is one.
pub uninterp spec fn argon2_encoded(pwd: Seq<char>, salt: Seq<char>) -> Option<Seq<char>>;

/// What the primitive answers when asked whether a password belongs to an
/// encoded hash; `None` where it cannot read the hash.
pub uninterp spec fn argon2_verified(encoded: Seq<char>, pwd: Seq<char>) -> Option<bool>;

/// The inputs that the primitive hashes: a salt of 8 bytes or more, and
/// neither salt nor password longer than a 32-bit length can say.
pub open spec fn hashable(pwd: Seq<char>, salt: Seq<char>) -> bool {
    &&& encode_utf8(pwd).len() <= 0xFFFF_FFFF
    &&& 8 <= encode_utf8(salt).len() <= 0xFFFF_FFFF
}

/// Whether `encoded` is the hash that the primitive makes of `pwd` under some
/// salt.
pub open spec fn hashed_from(encoded: Seq<char>, pwd: Seq<char>) -> bool {
    exists|salt: Seq<char>| argon2_encoded(pwd, salt) == Some(encoded)
}

/// Calls `argon2::hash_encoded` on the bytes of password and salt with
/// `Config::default()`. The call computes from its arguments alone, and
/// refuses exactly the inputs whose lengths lie outside the primitive's
/// limits.
#[verifier::external_body]
fn argon2_hash(pwd: &str, salt: &str) -> (r: Result<String, argon2::Error>)
    ensures
        r is Ok <==> hashable(pwd@, salt@),
        r matches Ok(h) ==> argon2_encoded(pwd@, salt@) == Some(h@),
        r is Err ==> argon2_encoded(pwd@, salt@) is None,
{
    argon2::hash_encoded(pwd.as_bytes(), salt.as_bytes(), &argon2::Config::default())
}

/// Calls `argon2::verify_encoded`. The call computes from its arguments
/// alone; it reads settings and salt back out of the encoded hash and hashes
/// the password anew, so a hash that `hash_encoded` made of this very
/// password is confirmed.
#[verifier::external_body]
fn argon2_verify(encoded: &str, pwd: &str) -> (r: Result<bool, argon2::Error>)
    ensures
        r matches Ok(b) ==> argon2_verified(encoded@, pwd@) == Some(b),
        r is Err ==> argon2_verified(encoded@, pwd@) is None,
        hashed_from(encoded@, pwd@) ==> r matches Ok(true),
{
    argon2::verify_encoded(encoded, pwd.as_bytes())
}

/// What `hash_password` returns.
pub open spec fn hash_result(pwd: Seq<char>, salt: Seq<char>) -> Result<Seq<char>, IdentityError> {
    match argon2_encoded(pwd, salt) {
        Some(h) => Ok(h),
        None => Err(IdentityError::PasswordCannotBeMade),
    }
}

/// Whether `pwd` opens the credential `hashed`: never when it is empty,
/// else when the primitive confirms it. A hash that the primitive cannot
/// read opens for nothing.
pub open spec fn password_matches(hashed: Seq<char>, pwd: Seq<char>) -> bool {
    pwd.len() > 0 && argon2_verified(hashed, pwd) == Some(true)
}

/// A result with a text in it seen as a value.
pub open spec fn text_result(r: Result<String, IdentityError>) -> Result<Seq<char>, IdentityError> {
    match r {
        Ok(s) => Ok(s@),
        Err(e) => Err(e),
    }
}

/// Derives the stored form of a password under a salt.
pub fn hash_password(pwd: &str, salt: &str) -> (r: Result<String, IdentityError>)
    ensures
        text_result(r) == hash_result(pwd@, salt@),
        r is Ok <==> hashable(pwd@, salt@),
{
    match argon2_hash(pwd, salt) {
        Ok(h) => Ok(h),
        Err(_) => Err(IdentityError::PasswordCannotBeMade),
    }
}

/// Checks a password against a stored hash.
pub fn verify_password(hashed: &str, pwd: &str) -> (r: bool)
    ensures
        r == password_matches(hashed@, pwd@),
        pwd@.len() == 0 ==> !r,
        pwd@.len() > 0 && hashed_from(hashed@, pwd@) ==> r,
{
    if pwd.is_empty() {
        return false;
    }
    match argon2_verify(hashed, pwd) {
        Ok(b) => b,
        Err(_) => false,
    }
}

} // verus!
