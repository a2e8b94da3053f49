use vstd::prelude::*;

verus! {

/// The identity of a caller whose credentials have been checked.
pub struct AuthUser {
    pub user_id: i64,
}

/// The identity of a caller when credentials are optional: either a
/// checked identity or none at all.
pub struct MaybeAuthUser(pub Option<AuthUser>);

/// A user profile as handed back to callers.
pub struct User {
    pub id: i64,
    pub username: String,
    pub nickname: Option<String>,
    pub avatar: Option<String>,
    pub description: Option<String>,
}

impl MaybeAuthUser {
    /// The checked identity's user id, if there is one.
    pub fn user_id(&self) -> (r: Option<i64>)
        ensures
            r == match self.0 {
                Some(user) => Some(user.user_id),
                None => None,
            },
    {
        match &self.0 {
            Some(user) => Some(user.user_id),
            None => None,
        }
    }
}

} // verus!
