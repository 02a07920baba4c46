//! A user as the gateway stores it: the name, an Argon2 hash of the
//! password, timestamps and a lock flag.

use vstd::prelude::*;
use vstd::string::*;
use vstd::utf8::encode_utf8;

use crate::password::{hash, is_hash_of, password_matches, verify_password};
use crate::util::datetime::{utc_now, Instant};

verus! {

/// A stored user.
#[derive(Clone, Debug)]
pub struct User {
    username: String,
    password: String,
    created_at: Instant,
    updated_at: Instant,
    locked: bool,
}

/// Credentials sent with a login or registration request.
#[derive(Clone, Debug)]
pub struct UserRequest {
    pub username: String,
    pub password: String,
}

impl User {
    /// The user's name.
    pub closed spec fn name(self) -> Seq<char> {
        self.username@
    }

    /// The stored password hash.
    pub closed spec fn password_hash(self) -> Seq<char> {
        self.password@
    }

    /// When the user was created.
    pub closed spec fn created(self) -> Instant {
        self.created_at
    }

    /// When the user was last updated.
    pub closed spec fn updated(self) -> Instant {
        self.updated_at
    }

    /// Whether the user is locked.
    pub closed spec fn is_locked(self) -> bool {
        self.locked
    }

    /// A new, unlocked user whose password is stored as an Argon2 hash under
    /// a fresh random salt, created and updated now.
    pub fn new(username: String, password: String) -> (r: User)
        requires
            encode_utf8(password@).len() <= u32::MAX,
        ensures
            r.name() == username@,
            is_hash_of(r.password_hash(), encode_utf8(password@)),
            password_matches(r.password_hash(), encode_utf8(password@)),
            r.created() == r.updated(),
            !r.is_locked(),
    {
        let now = utc_now();
        let hashed = hash(password.as_str().as_bytes());
        User { username, password: hashed, created_at: now, updated_at: now, locked: false }
    }

    /// A user as read back from storage.
    pub fn from_parts(
        username: String,
        password: String,
        created_at: Instant,
        updated_at: Instant,
        locked: bool,
    ) -> (r: User)
        ensures
            r.name() == username@,
            r.password_hash() == password@,
            r.created() == created_at,
            r.updated() == updated_at,
            r.is_locked() == locked,
    {
        User { username, password, created_at, updated_at, locked }
    }

    /// Whether `password` matches the stored hash.
    pub fn verify_password(&self, password: String) -> (r: bool)
        ensures
            r == password_matches(self.password_hash(), encode_utf8(password@)),
    {
        verify_password(self.password.as_str(), password.as_str().as_bytes())
    }

    /// The user's name.
    pub fn username(&self) -> (r: &String)
        ensures
            r@ == self.name(),
    {
        &self.username
    }

    /// The stored password hash.
    pub fn password(&self) -> (r: &String)
        ensures
            r@ == self.password_hash(),
    {
        &self.password
    }

    /// When the user was created.
    pub fn created_at(&self) -> (r: Instant)
        ensures
            r == self.created(),
    {
        self.created_at
    }

    /// When the user was last updated.
    pub fn updated_at(&self) -> (r: Instant)
        ensures
            r == self.updated(),
    {
        self.updated_at
    }

    /// Whether the user is locked.
    pub fn locked(&self) -> (r: bool)
        ensures
            r == self.is_locked(),
    {
        self.locked
    }
}

} // verus!
