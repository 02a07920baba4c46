//! Password hashing and checking with Argon2, through the `argon2` crate,
//! salted with random bytes from `rand`.

use vstd::prelude::*;

verus! {

#[verifier::external_type_specification]
#[verifier::external_body]
pub struct ExArgon2Error(argon2::Error);

/// The encoded hash that `argon2::hash_encoded` writes for `pwd` with `salt`
/// under the crate's default configuration.
pub uninterp spec fn argon2_encoded(pwd: Seq<u8>, salt: Seq<u8>) -> Seq<char>;

/// What `argon2::verify_encoded(encoded, pwd)` answers: `Some(matches)`, or
/// `None` where it reports an error (an encoding it cannot read).
pub uninterp spec fn argon2_verified(encoded: Seq<char>, pwd: Seq<u8>) -> Option<bool>;

/// Draws a 32-byte salt with `rand::thread_rng().gen::<[u8; 32]>()`.
/// Claimed: only the length; the bytes are random.
#[verifier::external_body]
fn random_salt() -> (r: Vec<u8>)
    ensures
        r@.len() == 32,
{
    rand::Rng::gen::<[u8; 32]>(&mut rand::thread_rng()).to_vec()
}

/// Calls `argon2::hash_encoded(pwd, salt, &Config::default())`. Claimed: the
/// result is the named `argon2_encoded(pwd, salt)`; the call succeeds whenever
/// the password is at most `u32::MAX` bytes and the salt between 8 and
/// `u32::MAX` bytes (the only limits the default configuration leaves in the
/// crate's checks); and, as the crate's README shows, `verify_encoded` accepts
/// the password against the hash.
#[verifier::external_body]
fn hash_encoded(pwd: &[u8], salt: &[u8]) -> (r: Result<String, argon2::Error>)
    ensures
        pwd@.len() <= u32::MAX && 8 <= salt@.len() <= u32::MAX ==> r is Ok,
        r matches Ok(h) ==> h@ == argon2_encoded(pwd@, salt@) && argon2_verified(h@, pwd@) == Some(
            true,
        ),
{
    argon2::hash_encoded(pwd, salt, &argon2::Config::default())
}

/// Calls `argon2::verify_encoded(encoded, pwd)`. Claimed: the result is the
/// named `argon2_verified(encoded, pwd)`.
#[verifier::external_body]
fn verify_encoded(encoded: &str, pwd: &[u8]) -> (r: Result<bool, argon2::Error>)
    ensures
        r is Ok <==> argon2_verified(encoded@, pwd@) is Some,
        r matches Ok(b) ==> argon2_verified(encoded@, pwd@) == Some(b),
{
    argon2::verify_encoded(encoded, pwd)
}

/// `encoded` is the hash of `pwd` under some 32-byte salt.
pub open spec fn is_hash_of(encoded: Seq<char>, pwd: Seq<u8>) -> bool {
    exists|salt: Seq<u8>| salt.len() == 32 && encoded == #[trigger] argon2_encoded(pwd, salt)
}

/// `pwd` matches the encoded hash: `verify_encoded` succeeds and says so.
pub open spec fn password_matches(encoded: Seq<char>, pwd: Seq<u8>) -> bool {
    argon2_verified(encoded, pwd) == Some(true)
}

/// Hashes `password` under a fresh random salt.
pub fn hash(password: &[u8]) -> (r: String)
    requires
        password@.len() <= u32::MAX,
    ensures
        is_hash_of(r@, password@),
        password_matches(r@, password@),
{
    let salt = random_salt();
    match hash_encoded(password, salt.as_slice()) {
        Ok(h) => h,
        Err(_) => {
            proof {
                assert(false);
            }
            String::new()
        },
    }
}

/// Whether `password` matches the encoded hash; an unreadable hash matches nothing.
pub fn verify_password(encoded: &str, password: &[u8]) -> (r: bool)
    ensures
        r == password_matches(encoded@, password@),
{
    match verify_encoded(encoded, password) {
        Ok(b) => b,
        Err(_) => false,
    }
}

} // verus!
