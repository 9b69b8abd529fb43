//! The minimalist in-memory storage's record of one user.

use vstd::prelude::*;

use crate::user::User;

verus! {

/// One user as the minimalist database keeps it: the secure fields stay
/// private to storage, only the public record is shared.
#[derive(Debug)]
pub struct UserEntry {
    password_hash: String,
    uid: usize,
    pub inner: User,
}

impl UserEntry {
    /// The stored secret this entry holds.
    pub closed spec fn spec_password_hash(&self) -> Seq<char> {
        self.password_hash@
    }

    /// The stored numeric id of this entry.
    pub closed spec fn spec_uid(&self) -> usize {
        self.uid
    }

    /// The public record this entry stores.
    pub closed spec fn spec_inner(&self) -> User {
        self.inner
    }

    pub fn new(password_hash: String, uid: usize, inner: User) -> (r: UserEntry)
        ensures
            r.spec_password_hash() == password_hash@,
            r.spec_uid() == uid,
            r.spec_inner() == inner,
    {
        UserEntry { password_hash, uid, inner }
    }
}

} // verus!
