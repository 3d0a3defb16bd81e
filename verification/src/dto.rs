//! The request and response bodies of the API.
use vstd::prelude::*;

use crate::auth::User;

verus! {

/// Body of a magic-link request.
pub struct LinkReq {
    pub email: String,
}

/// Body of a magic-link redemption.
pub struct Verify {
    pub token: String,
}

/// The signed-in user as the client sees it.
#[derive(Debug, PartialEq)]
pub struct Me {
    pub id: i64,
    pub email: String,
    pub display_name: Option<String>,
    pub role: String,
}

/// A user as the admin panel sees it.
#[derive(Debug, PartialEq)]
pub struct UserOut {
    pub id: i64,
    pub email: String,
    pub display_name: Option<String>,
    pub role: String,
    pub is_active: bool,
    pub created_at: i64,
    pub last_login_at: Option<i64>,
}

/// One page of the user list.
#[derive(Debug, PartialEq)]
pub struct UserList {
    pub items: Vec<UserOut>,
    pub page: i64,
    pub page_size: i64,
    pub total: i64,
}

/// Body of a user creation.
pub struct Create {
    pub email: String,
    pub display_name: Option<String>,
    pub role: String,
    pub is_active: Option<bool>,
}

/// Body of a user update; an absent field keeps the stored value.
pub struct Update {
    pub display_name: Option<Option<String>>,
    pub role: Option<String>,
    pub is_active: Option<bool>,
}

/// Query of the user list.
pub struct ListQ {
    pub page: i64,
    pub page_size: i64,
    pub query: String,
}

/// The default page number.
pub fn one() -> (r: i64)
    ensures
        r == 1,
{
    1
}

/// The default page size.
pub fn size() -> (r: i64)
    ensures
        r == 25,
{
    25
}

/// A copy of an optional text.
pub fn copy_text(o: &Option<String>) -> (r: Option<String>)
    ensures
        r == *o,
{
    match o {
        Some(s) => Some(s.clone()),
        None => None,
    }
}

/// Whether `out` shows `u` in the admin panel.
pub open spec fn shows(out: UserOut, u: User) -> bool {
    &&& out.id == u.id
    &&& out.email == u.email
    &&& out.display_name == u.display_name
    &&& out.role == u.role
    &&& out.is_active == (u.is_active != 0)
    &&& out.created_at == u.created_at
    &&& out.last_login_at == u.last_login_at
}

impl Me {
    /// The client's view of `user`.
    pub fn from(user: &User) -> (r: Me)
        ensures
            r.id == user.id,
            r.email == user.email,
            r.display_name == user.display_name,
            r.role == user.role,
    {
        Me {
            id: user.id,
            email: user.email.clone(),
            display_name: copy_text(&user.display_name),
            role: user.role.clone(),
        }
    }
}

impl UserOut {
    /// The admin panel's view of `user`.
    pub fn from(user: User) -> (r: UserOut)
        ensures
            shows(r, user),
            r.id == user.id,
            r.email == user.email,
            r.display_name == user.display_name,
            r.role == user.role,
            r.is_active == (user.is_active != 0),
            r.created_at == user.created_at,
            r.last_login_at == user.last_login_at,
    {
        UserOut {
            id: user.id,
            email: user.email,
            display_name: user.display_name,
            role: user.role,
            is_active: user.is_active != 0,
            created_at: user.created_at,
            last_login_at: user.last_login_at,
        }
    }
}

} // verus!
