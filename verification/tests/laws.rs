use magiclink::auth::User;
use magiclink::users::{ensure_not_last_admin, update_plan};
use magiclink::links::{
    consume_found, consume_marked, link_counted, link_found, ConsumeStep, LinkStep, TokenRow, ACCEPTED,
};

fn someone(is_active: i64) -> User {
    User {
        id: 1,
        email: "a@b.hu".into(),
        display_name: None,
        role: "user".into(),
        is_active,
        session_version: "v".into(),
        created_at: 0,
        last_login_at: None,
    }
}

fn answer(step: LinkStep) -> Option<Result<u16, magiclink::error::E>> {
    match step {
        LinkStep::Reply(r) => Some(r),
        LinkStep::Issue { .. } => Some(Ok(ACCEPTED)),
        _ => None,
    }
}

#[test]
fn every_address_gets_the_same_answer() {
    assert_eq!(answer(link_found(None)), Some(Ok(202)));
    assert_eq!(answer(link_found(Some(someone(0)))), Some(Ok(202)));
    assert_eq!(answer(link_counted(someone(1), 5, "http://h", 15, 5, 0)), Some(Ok(202)));
    assert_eq!(answer(link_counted(someone(1), 0, "http://h", 15, 5, 0)), Some(Ok(202)));
}

#[test]
fn a_link_signs_in_once() {
    let fresh = TokenRow { id: 1, user_id: 1, expires_at: 100, used_at: None };
    assert!(matches!(consume_found(Some(fresh), 50), ConsumeStep::LoadUser { .. }));
    let used = TokenRow { id: 1, user_id: 1, expires_at: 100, used_at: Some(50) };
    assert!(matches!(consume_found(Some(used), 60), ConsumeStep::Reject));
    assert!(matches!(consume_marked(someone(1), 0), ConsumeStep::Reject));
}

#[test]
fn hourly_limit_over_a_series_of_requests() {
    // Requests every 10 minutes with a limit of 3: the count of tokens created
    // in the last hour decides each one, as the link flow does.
    let per_hour = 3;
    let mut created: Vec<i64> = Vec::new();
    for now in (0..20_000).step_by(600) {
        let recent = created.iter().filter(|&&t| t >= now - 3600).count() as i64;
        if let LinkStep::Issue { record, .. } = link_counted(someone(1), recent, "http://h", 15, per_hour, now) {
            created.push(record.created_at);
        }
    }
    for start in (0..20_000).step_by(100) {
        let in_window = created.iter().filter(|&&t| start <= t && t <= start + 3600).count() as i64;
        assert!(in_window <= per_hour, "window at {start}");
    }
    assert!(created.len() > 3);
}

#[test]
fn a_new_link_revokes_the_older_one() {
    let older = TokenRow { id: 1, user_id: 1, expires_at: 1_000, used_at: None };
    let record = match link_counted(someone(1), 0, "http://h", 15, 5, 100) {
        LinkStep::Issue { record, retire_unused, .. } => {
            assert!(retire_unused);
            record
        }
        _ => panic!("expected a link"),
    };
    let retired = TokenRow { used_at: Some(record.created_at), ..older };
    assert!(matches!(consume_found(Some(retired), 200), ConsumeStep::Reject));
    let newer = TokenRow { id: 2, user_id: record.user_id, expires_at: record.expires_at, used_at: None };
    assert!(matches!(consume_found(Some(newer), 200), ConsumeStep::LoadUser { token_id: 2, .. }));
}

#[test]
fn concurrent_redemptions_sign_in_once() {
    // The second conditional mark finds the row already used and changes nothing.
    assert!(matches!(consume_marked(someone(1), 1), ConsumeStep::Finish(_)));
    assert!(matches!(consume_marked(someone(1), 0), ConsumeStep::Reject));
}

#[test]
fn an_admin_remains() {
    let actor = User { role: "admin".into(), ..someone(1) };
    let other = User { id: 2, role: "admin".into(), ..someone(1) };
    let plan = update_plan(&actor, 2, &other, Some("user".into()), None).unwrap();
    assert!(plan.check_last_admin);
    assert!(ensure_not_last_admin(1).is_err());
    assert!(ensure_not_last_admin(2).is_ok());
}
