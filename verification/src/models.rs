//! Client-facing data transfer types of the surrounding application.
//!
//! The command handlers that produce and consume these run outside the
//! library; the types themselves, and the permission check on a session's
//! user, are part of the data model.

use vstd::prelude::*;

verus! {

/// A role-to-permission assignment row.
#[derive(Clone, Copy, Debug, PartialEq, Eq, Structural)]
pub struct RolePermission {
    pub role_id: i64,
    pub permission_id: i64,
}

/// Credentials presented to the login command.
#[derive(Clone, Debug)]
pub struct LoginRequest {
    pub email: String,
    pub password: String,
}

/// What a successful login returns: a session token and the user.
#[derive(Clone, Debug)]
pub struct LoginResponse {
    pub access_token: String,
    pub user: UserInfo,
}

/// The session's view of a user, with the permissions resolved at login.
#[derive(Clone, Debug)]
pub struct UserInfo {
    pub id: i64,
    pub email: String,
    pub full_name: String,
    pub role: String,
    pub permissions: Vec<String>,
}

/// A stock adjustment request: signed quantity change, movement kind, and
/// an optional note.
#[derive(Clone, Debug)]
pub struct UpdateStockRequest {
    pub quantity_change: i32,
    pub movement_type: String,
    pub notes: Option<String>,
}

impl UserInfo {
    /// Whether the user holds the named permission.
    pub fn has_permission(&self, required: &String) -> (r: bool)
        ensures
            r == exists|i: int|
                0 <= i < self.permissions@.len() && #[trigger] self.permissions@[i]@ == required@,
    {
        let mut i: usize = 0;
        while i < self.permissions.len()
            invariant
                i <= self.permissions@.len(),
                forall|k: int| 0 <= k < i ==> #[trigger] self.permissions@[k]@ != required@,
            decreases self.permissions@.len() - i,
        {
            if self.permissions[i] == *required {
                return true;
            }
            i = i + 1;
        }
        false
    }
}

} // verus!
