//! The signed-in user and the checks that guard the API.
use vstd::prelude::*;

use crate::error::{E, R};

verus! {

/// A stored user, as the session and the database hold it.
#[derive(Clone, Debug, PartialEq)]
pub struct User {
    pub id: i64,
    pub email: String,
    pub display_name: Option<String>,
    pub role: String,
    pub is_active: i64,
    pub session_version: String,
    pub created_at: i64,
    pub last_login_at: Option<i64>,
}

/// Whether `u` is an active administrator.
pub open spec fn is_active_admin(u: User) -> bool {
    u.role@ == "admin"@ && u.is_active != 0
}

/// The signed-in user; `Unauthorized` when no one is signed in.
pub fn user(current: Option<User>) -> (r: R<User>)
    ensures
        r == match current {
            Some(u) => Ok::<User, E>(u),
            None => Err::<User, E>(E::Unauthorized),
        },
{
    match current {
        Some(u) => Ok(u),
        None => Err(E::Unauthorized),
    }
}

/// The signed-in user if an active administrator: `Unauthorized` when no one
/// is signed in, `Forbidden` for anyone else.
pub fn admin(current: Option<User>) -> (r: R<User>)
    ensures
        r == match current {
            None => Err::<User, E>(E::Unauthorized),
            Some(u) => if is_active_admin(u) {
                Ok::<User, E>(u)
            } else {
                Err::<User, E>(E::Forbidden)
            },
        },
{
    match current {
        None => Err(E::Unauthorized),
        Some(u) => {
            if crate::text::same_text(u.role.as_str(), "admin") && u.is_active != 0 {
                Ok(u)
            } else {
                Err(E::Forbidden)
            }
        },
    }
}

} // verus!
