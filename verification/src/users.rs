//! The rules of the admin panel: paging, creation, updates and deactivation.
use vstd::prelude::*;

use crate::auth::{is_active_admin, User};
use crate::crypto::{is_token, token};
use crate::dto::{copy_text, shows, Create, UserList, UserOut};
use crate::error::{database_error, database_msg, is_bad, is_conflict, is_internal, E, R};
use crate::text::{same_text, trim, trimmed};
use crate::validation::{
    email_msg, email_of, email_valid, name, name_msg, name_value, normalized_email, opt_view,
    role, role_msg, role_valid,
};

verus! {

/// The message when the last active admin would be demoted or deactivated.
pub open spec fn last_admin_msg() -> Seq<char> {
    "Az utolsó aktív admin nem módosítható vagy deaktiválható."@
}

/// The message when an admin would deactivate their own account.
pub open spec fn own_account_msg() -> Seq<char> {
    "Saját fiók nem deaktiválható."@
}

/// The message when a new user's address is already taken.
pub open spec fn duplicate_msg() -> Seq<char> {
    "Ez az e-mail cím már használatban van."@
}

/// The largest page size.
pub open spec fn max_page_size() -> i64 {
    100
}

/// A validated new user.
pub struct NewUser {
    pub email: String,
    pub display_name: Option<String>,
    pub role: String,
    pub is_active: bool,
}

/// The role and status an update asks for, and whether it needs the
/// last-admin check before it may proceed.
pub struct UpdatePlan {
    pub role: String,
    pub is_active: bool,
    pub check_last_admin: bool,
}

/// The stored fields an update writes, and whether the user's unused magic
/// links are retired with it.
pub struct UserChanges {
    pub display_name: Option<String>,
    pub role: String,
    pub is_active: bool,
    pub session_version: String,
    pub retire_links: bool,
}

/// What deactivating a user writes: the inactive status and a fresh session
/// version that ends the user's sessions; the user's unused magic links are
/// retired with it. `check_last_admin` says whether the last-admin check is
/// due first.
pub struct RemovePlan {
    pub check_last_admin: bool,
    pub is_active: bool,
    pub session_version: String,
    pub retire_links: bool,
}

/// The number of active admins among `users`.
pub open spec fn active_admins(users: Seq<User>) -> nat
    decreases users.len(),
{
    if users.len() == 0 {
        0
    } else {
        active_admins(users.drop_last()) + if is_active_admin(users.last()) {
            1nat
        } else {
            0nat
        }
    }
}

/// Whether replacing `users[i]` by `v` passed the last-admin check: a change
/// that takes an active admin away runs only while another is left.
pub open spec fn guarded_change(users: Seq<User>, i: int, v: User) -> bool {
    (is_active_admin(users[i]) && !is_active_admin(v)) ==> active_admins(users) > 1
}

/// The users after the changes `(index, new value)`, applied one after another.
pub open spec fn apply_changes(users: Seq<User>, changes: Seq<(int, User)>) -> Seq<User>
    decreases changes.len(),
{
    if changes.len() == 0 {
        users
    } else {
        let c = changes.last();
        apply_changes(users, changes.drop_last()).update(c.0, c.1)
    }
}

/// Whether each change, applied in turn, hit a stored user and passed the last-admin check.
pub open spec fn all_guarded(users: Seq<User>, changes: Seq<(int, User)>) -> bool {
    forall|k: int| 0 <= k < changes.len() ==> #[trigger] guarded_at(users, changes, k)
}

/// Whether the change `changes[k]`, applied after the ones before it, hit a
/// stored user and passed the last-admin check.
pub open spec fn guarded_at(users: Seq<User>, changes: Seq<(int, User)>, k: int) -> bool {
    let before = apply_changes(users, changes.take(k));
    &&& 0 <= changes[k].0 < before.len()
    &&& guarded_change(before, changes[k].0, changes[k].1)
}

/// The user that a lookup found; `NotFound` when there is none.
pub fn require_found(found: Option<User>) -> (r: R<User>)
    ensures
        r == match found {
            Some(u) => Ok::<User, E>(u),
            None => Err::<User, E>(E::NotFound),
        },
{
    match found {
        Some(u) => Ok(u),
        None => Err(E::NotFound),
    }
}

/// Whether, with `count` active admins, one of them may be demoted or deactivated.
pub open spec fn admins_to_spare(count: i64) -> bool {
    count > 1
}

/// Refuses when at most one active admin is left (`count` is their number).
pub fn ensure_not_last_admin(count: i64) -> (r: R<()>)
    ensures
        r is Ok <==> admins_to_spare(count),
        count <= 1 ==> (r matches Err(x) && is_conflict(x, last_admin_msg())),
        count > 1 ==> r == Ok::<(), E>(()),
{
    if count <= 1 {
        Err(E::Conflict("Az utolsó aktív admin nem módosítható vagy deaktiválható.".to_owned()))
    } else {
        Ok(())
    }
}

/// The page to show: at least the first.
pub fn page_of(page: i64) -> (r: i64)
    ensures
        r == if page < 1 { 1 } else { page },
{
    if page < 1 {
        1
    } else {
        page
    }
}

/// The page size to use: between 1 and 100.
pub fn page_size_of(page_size: i64) -> (r: i64)
    ensures
        r == if page_size < 1 {
            1
        } else if page_size > max_page_size() {
            max_page_size()
        } else {
            page_size
        },
        1 <= r <= 100,
        1 <= page_size <= 100 ==> r == page_size,
        page_size > 100 ==> r == 100,
{
    if page_size < 1 {
        1
    } else if page_size > 100 {
        100
    } else {
        page_size
    }
}

/// How many rows precede the page.
pub fn page_offset(page: i64, page_size: i64) -> (r: i64)
    requires
        i64::MIN <= page - 1,
        i64::MIN <= (page - 1) * page_size <= i64::MAX,
    ensures
        r == (page - 1) * page_size,
{
    (page - 1) * page_size
}

/// The `LIKE` pattern of a search: the trimmed query between `%` signs.
pub fn search_pattern(query: &str) -> (r: String)
    ensures
        r@ == seq!['%'] + trimmed(query@) + seq!['%'],
{
    let t = trim(query);
    let r = crate::text::concat3("%", t.as_str(), "%");
    proof {
        reveal_strlit("%");
    }
    r
}

/// One page of the user list, each user shown as the admin panel sees it.
pub fn user_list(users: Vec<User>, total: i64, page: i64, page_size: i64) -> (r: UserList)
    ensures
        r.items@.len() == users@.len(),
        forall|i: int| 0 <= i < users@.len() ==> shows(#[trigger] r.items@[i], users@[i]),
        forall|i: int|
            0 <= i < users@.len() ==> {
                &&& (#[trigger] r.items@[i]).id == users@[i].id
                &&& r.items@[i].email == users@[i].email
                &&& r.items@[i].display_name == users@[i].display_name
                &&& r.items@[i].role == users@[i].role
                &&& r.items@[i].is_active == (users@[i].is_active != 0)
                &&& r.items@[i].created_at == users@[i].created_at
                &&& r.items@[i].last_login_at == users@[i].last_login_at
            },
        r.total == total,
        r.page == page,
        r.page_size == page_size,
{
    let ghost all = users@;
    let n = users.len();
    let mut rest = users;
    let mut reversed: Vec<User> = Vec::new();
    while rest.len() > 0
        invariant
            n == all.len(),
            rest@.len() + reversed@.len() == n,
            forall|k: int| 0 <= k < rest@.len() ==> rest@[k] == all[k],
            forall|j: int| 0 <= j < reversed@.len() ==> reversed@[j] == all[n - 1 - j],
        decreases rest@.len(),
    {
        let u = rest.pop().unwrap();
        reversed.push(u);
    }
    let mut items: Vec<UserOut> = Vec::new();
    while reversed.len() > 0
        invariant
            n == all.len(),
            reversed@.len() + items@.len() == n,
            forall|j: int| 0 <= j < reversed@.len() ==> reversed@[j] == all[n - 1 - j],
            forall|i: int| 0 <= i < items@.len() ==> shows(#[trigger] items@[i], all[i]),
        decreases reversed@.len(),
    {
        let u = reversed.pop().unwrap();
        items.push(UserOut::from(u));
    }
    UserList { items, page, page_size, total }
}

/// Validates a new user: the address, then the name, then the role; an
/// absent status means active.
pub fn new_user(req: Create) -> (r: R<NewUser>)
    ensures
        !email_valid(normalized_email(req.email@)) ==> (r matches Err(x) && is_bad(x, email_msg())),
        email_valid(normalized_email(req.email@)) && name_value(req.display_name) is None ==> (r matches Err(x) && is_bad(x, name_msg())),
        email_valid(normalized_email(req.email@)) && name_value(req.display_name) is Some && !role_valid(req.role@) ==> (r matches Err(x) && is_bad(x, role_msg())),
        email_valid(normalized_email(req.email@)) && name_value(req.display_name) is Some && role_valid(req.role@) ==> (r matches Ok(n) && {
            &&& n.email@ == normalized_email(req.email@)
            &&& Some(opt_view(n.display_name)) == name_value(req.display_name)
            &&& n.role@ == req.role@
            &&& n.is_active == match req.is_active { Some(b) => b, None => true }
        }),
{
    let email = email_of(req.email.as_str())?;
    let display_name = name(req.display_name)?;
    let role = role(req.role.as_str())?;
    let is_active = match req.is_active {
        Some(b) => b,
        None => true,
    };
    Ok(NewUser { email, display_name, role, is_active })
}

/// The error of a failed insert: a taken address is a conflict, anything
/// else a database error.
pub fn insert_error(unique_violation: bool) -> (r: E)
    ensures
        unique_violation ==> is_conflict(r, duplicate_msg()),
        !unique_violation ==> is_internal(r, database_msg()),
{
    if unique_violation {
        E::Conflict("Ez az e-mail cím már használatban van.".to_owned())
    } else {
        database_error()
    }
}

/// The role an update asks for: the requested one, else the stored one.
pub open spec fn requested_role(old: User, role_req: Option<String>) -> Seq<char> {
    match role_req {
        Some(v) => v@,
        None => old.role@,
    }
}

/// The status an update asks for: the requested one, else the stored one.
pub open spec fn requested_active(old: User, active_req: Option<bool>) -> bool {
    match active_req {
        Some(b) => b,
        None => old.is_active != 0,
    }
}

/// Whether an update of `old` to `new_role` and `active` demotes or
/// deactivates an active admin.
pub open spec fn removes_admin(old: User, new_role: Seq<char>, active: bool) -> bool {
    is_active_admin(old) && (new_role != "admin"@ || !active)
}

/// The first half of an update of user `id` (stored as `old`) by `actor`:
/// validates the role, refuses to deactivate the actor's own account, and
/// says whether the last-admin check is due.
pub fn update_plan(
    actor: &User,
    id: i64,
    old: &User,
    role_req: Option<String>,
    active_req: Option<bool>,
) -> (r: R<UpdatePlan>)
    ensures
        ({
            let new_role = requested_role(*old, role_req);
            let active = requested_active(*old, active_req);
            if role_req is Some && !role_valid(new_role) {
                r matches Err(x) && is_bad(x, role_msg())
            } else if actor.id == id && !active {
                r matches Err(x) && is_conflict(x, own_account_msg())
            } else {
                r matches Ok(p) && {
                    &&& p.role@ == new_role
                    &&& p.is_active == active
                    &&& p.check_last_admin == removes_admin(*old, new_role, active)
                }
            }
        }),
        role_req is None ==> (r matches Ok(p) ==> p.role@ == old.role@),
        active_req is None ==> (r matches Ok(p) ==> p.is_active == (old.is_active != 0)),
        match role_req {
            Some(v) => r matches Ok(p) ==> p.role@ == v@ && (v@ == "admin"@ || v@ == "user"@),
            None => true,
        },
        match active_req {
            Some(b) => r matches Ok(p) ==> p.is_active == b,
            None => true,
        },
        r matches Ok(p) ==> p.check_last_admin == (old.role@ == "admin"@ && old.is_active != 0 && (
        p.role@ != "admin"@ || !p.is_active)),
        r matches Ok(p) ==> !(actor.id == id && !p.is_active),
{
    let new_role = match role_req {
        Some(value) => role(value.as_str())?,
        None => old.role.clone(),
    };
    let is_active = match active_req {
        Some(b) => b,
        None => old.is_active != 0,
    };
    if actor.id == id && !is_active {
        return Err(E::Conflict("Saját fiók nem deaktiválható.".to_owned()));
    }
    let was_admin = same_text(old.role.as_str(), "admin") && old.is_active != 0;
    let check_last_admin = was_admin && (!same_text(new_role.as_str(), "admin") || !is_active);
    Ok(UpdatePlan { role: new_role, is_active, check_last_admin })
}

/// Whether the update changes the role or the status, which ends the user's sessions.
pub open spec fn rotates_sessions(old: User, new_role: Seq<char>, active: bool) -> bool {
    new_role != old.role@ || active != (old.is_active != 0)
}

/// The second half of an update, once the last-admin check has passed:
/// validates the display name and renews the session version when the role
/// or the status changes.
pub fn update_values(old: &User, plan: UpdatePlan, name_req: Option<Option<String>>) -> (r: R<
    UserChanges,
>)
    ensures
        match name_req {
            Some(v) => name_value(v) is None ==> (r matches Err(x) && is_bad(x, name_msg())),
            None => true,
        },
        (match name_req {
            Some(v) => name_value(v) is Some,
            None => true,
        }) ==> (r matches Ok(c) && {
            &&& match name_req {
                Some(v) => Some(opt_view(c.display_name)) == name_value(v),
                None => c.display_name == old.display_name,
            }
            &&& c.role == plan.role
            &&& c.is_active == plan.is_active
            &&& c.retire_links == !plan.is_active
            &&& if rotates_sessions(*old, plan.role@, plan.is_active) {
                is_token(c.session_version@)
            } else {
                c.session_version == old.session_version
            }
        }),
{
    let display_name = match name_req {
        Some(value) => name(value)?,
        None => copy_text(&old.display_name),
    };
    let session_version = if !same_text(plan.role.as_str(), old.role.as_str()) || plan.is_active != (
    old.is_active != 0) {
        token()
    } else {
        old.session_version.clone()
    };
    let retire_links = !plan.is_active;
    Ok(UserChanges {
        display_name,
        role: plan.role,
        is_active: plan.is_active,
        session_version,
        retire_links,
    })
}

/// The deactivation of user `id` (stored as `target`) by `actor`: refuses
/// the actor's own account; otherwise the user becomes inactive with a fresh
/// session version, after the last-admin check when the target is an active
/// admin.
pub fn remove_plan(actor: &User, id: i64, target: &User) -> (r: R<RemovePlan>)
    ensures
        actor.id == id ==> (r matches Err(x) && is_conflict(x, own_account_msg())),
        actor.id != id ==> (r matches Ok(p) && {
            &&& p.check_last_admin == is_active_admin(*target)
            &&& !p.is_active
            &&& is_token(p.session_version@)
            &&& p.retire_links
        }),
{
    if actor.id == id {
        return Err(E::Conflict("Saját fiók nem deaktiválható.".to_owned()));
    }
    let check_last_admin = same_text(target.role.as_str(), "admin") && target.is_active != 0;
    Ok(RemovePlan { check_last_admin, is_active: false, session_version: token(), retire_links: true })
}

} // verus!
