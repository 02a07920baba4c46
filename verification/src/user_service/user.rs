//! A user as the user service keeps it: the same record, with the same
//! hashing and checking of passwords, as the gateway keeps.

pub use crate::gateway::users::user::User;
