//! The user identity carried by a validated token.

use vstd::prelude::*;

verus! {

/// Tells registered bots apart from human users.
#[derive(Debug, Clone, PartialEq, Eq, Structural)]
pub enum UserMode {
    User,
    Bot,
}

/// Permission tier of a user, ordered from least to most powerful.
#[derive(Debug, Clone, PartialEq, Eq, Structural)]
pub enum UserPermissions {
    User,
    Moderator,
    Admin,
}

/// The publicly visible record of one user, reconstructed from a validated
/// token at handshake or submission time. Equality is structural.
#[derive(Debug)]
pub struct User {
    pub user_type: UserMode,
    pub permission_level: UserPermissions,
    pub username: String,
    pub handle: String,
    /// So people can know where to reach the user directly.
    pub provider_site: Option<String>,
    pub banned: bool,
}

impl Clone for User {
    fn clone(&self) -> (res: Self)
        ensures
            res == *self,
    {
        User {
            user_type: match self.user_type {
                UserMode::User => UserMode::User,
                UserMode::Bot => UserMode::Bot,
            },
            permission_level: match self.permission_level {
                UserPermissions::User => UserPermissions::User,
                UserPermissions::Moderator => UserPermissions::Moderator,
                UserPermissions::Admin => UserPermissions::Admin,
            },
            username: self.username.clone(),
            handle: self.handle.clone(),
            provider_site: match &self.provider_site {
                Option::Some(p) => Option::Some(p.clone()),
                Option::None => Option::None,
            },
            banned: self.banned,
        }
    }
}

/// Structural equality of two user records: every field agrees.
pub open spec fn user_eq(a: &User, b: &User) -> bool {
    &&& a.user_type == b.user_type
    &&& a.permission_level == b.permission_level
    &&& a.username@ == b.username@
    &&& a.handle@ == b.handle@
    &&& match (a.provider_site, b.provider_site) {
        (Option::Some(x), Option::Some(y)) => x@ == y@,
        (Option::None, Option::None) => true,
        _ => false,
    }
    &&& a.banned == b.banned
}

impl PartialEq for User {
    fn eq(&self, other: &User) -> (r: bool) {
        self.user_type == other.user_type && self.permission_level == other.permission_level
            && self.username == other.username && self.handle == other.handle
            && match (&self.provider_site, &other.provider_site) {
                (Option::Some(a), Option::Some(b)) => *a == *b,
                (Option::None, Option::None) => true,
                _ => false,
            } && self.banned == other.banned
    }
}

impl vstd::std_specs::cmp::PartialEqSpecImpl for User {
    open spec fn obeys_eq_spec() -> bool {
        true
    }

    open spec fn eq_spec(&self, other: &User) -> bool {
        user_eq(self, other)
    }
}

} // verus!
