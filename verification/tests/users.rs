use magiclink::auth::User;
use magiclink::dto::{Create, UserOut};
use magiclink::error::E;
use magiclink::users::{
    ensure_not_last_admin, insert_error, new_user, page_of, page_offset, page_size_of, remove_plan,
    require_found, search_pattern, update_plan, update_values, user_list,
};

fn person(id: i64, role: &str, is_active: i64) -> User {
    User {
        id,
        email: format!("u{id}@x.hu"),
        display_name: None,
        role: role.into(),
        is_active,
        session_version: "old-version".into(),
        created_at: 1,
        last_login_at: Some(2),
    }
}

fn conflict(msg: &str) -> E {
    E::Conflict(msg.into())
}

#[test]
fn missing_user_is_not_found() {
    assert_eq!(require_found(None), Err(E::NotFound));
    assert_eq!(require_found(Some(person(1, "user", 1))), Ok(person(1, "user", 1)));
}

#[test]
fn last_admin_guard() {
    let msg = "Az utolsó aktív admin nem módosítható vagy deaktiválható.";
    assert_eq!(ensure_not_last_admin(0), Err(conflict(msg)));
    assert_eq!(ensure_not_last_admin(1), Err(conflict(msg)));
    assert_eq!(ensure_not_last_admin(2), Ok(()));
}

#[test]
fn paging_is_clamped() {
    assert_eq!(page_of(-5), 1);
    assert_eq!(page_of(0), 1);
    assert_eq!(page_of(3), 3);
    assert_eq!(page_size_of(0), 1);
    assert_eq!(page_size_of(25), 25);
    assert_eq!(page_size_of(1000), 100);
    assert_eq!(page_offset(3, 25), 50);
    assert_eq!(page_offset(1, 100), 0);
}

#[test]
fn search_pattern_wraps_the_trimmed_query() {
    assert_eq!(search_pattern("  anna "), "%anna%");
    assert_eq!(search_pattern(""), "%%");
}

#[test]
fn user_list_keeps_order_and_paging() {
    let list = user_list(vec![person(3, "user", 1), person(2, "admin", 0)], 9, 2, 2);
    assert_eq!(list.items, vec![UserOut::from(person(3, "user", 1)), UserOut::from(person(2, "admin", 0))]);
    assert_eq!((list.page, list.page_size, list.total), (2, 2, 9));
    assert!(!list.items[1].is_active);
}

#[test]
fn new_user_is_validated_in_order() {
    let req = |email: &str, name: Option<&str>, role: &str| Create {
        email: email.into(),
        display_name: name.map(|n| n.into()),
        role: role.into(),
        is_active: None,
    };
    let made = new_user(req(" Bob@X.hu ", Some(" Bob "), "user")).unwrap();
    assert_eq!(made.email, "bob@x.hu");
    assert_eq!(made.display_name, Some("Bob".into()));
    assert_eq!(made.role, "user");
    assert!(made.is_active);
    assert_eq!(
        new_user(req("bad", Some(&"x".repeat(200)), "root")).err(),
        Some(E::Bad("Érvényes e-mail cím szükséges.".into()))
    );
    assert_eq!(
        new_user(req("a@b", Some(&"x".repeat(200)), "root")).err(),
        Some(E::Bad("A név legfeljebb 120 karakter lehet.".into()))
    );
    assert_eq!(
        new_user(req("a@b", None, "root")).err(),
        Some(E::Bad("A role értéke admin vagy user lehet.".into()))
    );
    let inactive = new_user(Create { is_active: Some(false), ..req("a@b", None, "admin") }).unwrap();
    assert!(!inactive.is_active);
}

#[test]
fn insert_errors() {
    assert_eq!(insert_error(true), conflict("Ez az e-mail cím már használatban van."));
    assert_eq!(insert_error(false), E::Internal("Adatbázis hiba".into()));
}

#[test]
fn update_keeps_unset_fields() {
    let actor = person(1, "admin", 1);
    let old = person(2, "user", 1);
    let plan = update_plan(&actor, 2, &old, None, None).unwrap();
    assert_eq!(plan.role, "user");
    assert!(plan.is_active);
    assert!(!plan.check_last_admin);
    let changes = update_values(&old, plan, None).unwrap();
    assert_eq!(changes.session_version, "old-version");
    assert_eq!(changes.display_name, None);
    assert!(!changes.retire_links);
}

#[test]
fn deactivation_is_inactive_with_a_fresh_session_version() {
    let actor = person(1, "admin", 1);
    let plan = remove_plan(&actor, 2, &person(2, "user", 1)).unwrap();
    assert!(!plan.is_active);
    assert!(plan.retire_links);
    assert_eq!(plan.session_version.len(), 43);
    assert_ne!(plan.session_version, "old-version");
}

#[test]
fn update_rejects_bad_role_first() {
    let actor = person(1, "admin", 1);
    let r = update_plan(&actor, 1, &actor, Some("root".into()), Some(false));
    assert_eq!(r.err(), Some(E::Bad("A role értéke admin vagy user lehet.".into())));
}

#[test]
fn admin_cannot_deactivate_self() {
    let actor = person(1, "admin", 1);
    let r = update_plan(&actor, 1, &actor, None, Some(false));
    assert_eq!(r.err(), Some(conflict("Saját fiók nem deaktiválható.")));
    assert_eq!(remove_plan(&actor, 1, &actor).err(), Some(conflict("Saját fiók nem deaktiválható.")));
}

#[test]
fn demoting_an_admin_needs_the_last_admin_check() {
    let actor = person(1, "admin", 1);
    let other = person(2, "admin", 1);
    let plan = update_plan(&actor, 2, &other, Some("user".into()), None).unwrap();
    assert!(plan.check_last_admin);
    let plan = update_plan(&actor, 2, &other, None, Some(false)).unwrap();
    assert!(plan.check_last_admin);
    let plan = update_plan(&actor, 2, &other, Some("admin".into()), Some(true)).unwrap();
    assert!(!plan.check_last_admin);
    let inactive_admin = person(3, "admin", 0);
    let plan = update_plan(&actor, 3, &inactive_admin, Some("user".into()), None).unwrap();
    assert!(!plan.check_last_admin);
    assert!(remove_plan(&actor, 2, &other).unwrap().check_last_admin);
    assert!(!remove_plan(&actor, 3, &inactive_admin).unwrap().check_last_admin);
    assert!(!remove_plan(&actor, 4, &person(4, "user", 1)).unwrap().check_last_admin);
}

#[test]
fn role_or_status_change_renews_the_session_version() {
    let actor = person(1, "admin", 1);
    let old = person(2, "user", 1);
    let plan = update_plan(&actor, 2, &old, Some("admin".into()), None).unwrap();
    let changes = update_values(&old, plan, Some(Some(" Új Név ".into()))).unwrap();
    assert_ne!(changes.session_version, "old-version");
    assert_eq!(changes.session_version.len(), 43);
    assert_eq!(changes.display_name, Some("Új Név".into()));
    assert_eq!(changes.role, "admin");
    let plan = update_plan(&actor, 2, &old, None, Some(false)).unwrap();
    let changes = update_values(&old, plan, Some(None)).unwrap();
    assert_ne!(changes.session_version, "old-version");
    assert!(!changes.is_active);
    assert!(changes.retire_links);
    assert_eq!(changes.display_name, None);
}

#[test]
fn update_rejects_long_name() {
    let actor = person(1, "admin", 1);
    let old = person(2, "user", 1);
    let plan = update_plan(&actor, 2, &old, None, None).unwrap();
    assert_eq!(
        update_values(&old, plan, Some(Some("y".repeat(121)))).err().map(|e| e.status()),
        Some(400)
    );
}
