//! The storage interface a user database offers to the rest of the relay.
//!
//! Storage itself is an external collaborator with no interesting failure
//! structure of its own; nothing here carries a contract, and every value a
//! database hands back goes through the verified decision functions before
//! it means anything.

use vstd::prelude::*;

use crate::user::User;

verus! {

/// One stored user. WARNING: holds secure fields — never hand it to an
/// insecure context.
#[derive(Debug)]
pub struct UserDBEntry {
    pub password_hash: String,
    pub username: String,
    pub inner_user: User,
}

/// Basic calls for a given database: adding and looking up users.
pub trait DBCalls {
    /// Looks a user up by handle; the error is a human-readable reason.
    fn fetch_user(&mut self, username: &str) -> Result<UserDBEntry, String>;

    /// Stores a new user, returning the stored public record.
    fn add_user(&mut self, new_user: UserDBEntry) -> Result<User, String>;

    /// Marks a user as banned.
    fn ban_user(&mut self, username: &str) -> Result<User, String>;

    /// Prepares the database for use; a simple stand-in for migrations.
    fn setup(&mut self);
}

/// Advanced calls for a given database, such as storing messages: a
/// considered extension point, listed so it is part of the interface.
pub trait AdvancedDBCalls {

}

} // verus!
