use magiclink::auth::User;
use magiclink::crypto::hash;
use magiclink::error::E;
use magiclink::links::{
    callback_url, consume_found, consume_loaded, consume_marked, link_begin, link_counted,
    link_found, link_sent, rate_window_start, token_record, verify_begin, verify_result, ConsumeStep,
    LinkStep, TokenRow, ACCEPTED,
};

fn member() -> User {
    User {
        id: 5,
        email: "m@x.hu".into(),
        display_name: None,
        role: "user".into(),
        is_active: 1,
        session_version: "s".into(),
        created_at: 0,
        last_login_at: None,
    }
}

#[test]
fn link_request_normalizes_the_address() {
    match link_begin(" M@X.hu ") {
        LinkStep::FindUser(e) => assert_eq!(e, "m@x.hu"),
        _ => panic!("expected a lookup"),
    }
    match link_begin("nope") {
        LinkStep::Reply(Err(e)) => assert_eq!(e, E::Bad("Érvényes e-mail cím szükséges.".into())),
        _ => panic!("expected a refusal"),
    }
}

#[test]
fn unknown_address_gets_the_same_answer() {
    assert_eq!(ACCEPTED, 202);
    match link_found(None) {
        LinkStep::Reply(Ok(code)) => assert_eq!(code, ACCEPTED),
        _ => panic!("expected the accepted answer"),
    }
    match link_found(Some(member())) {
        LinkStep::CountRecent(u) => assert_eq!(u, member()),
        _ => panic!("expected a count"),
    }
    let inactive = User { is_active: 0, ..member() };
    match link_found(Some(inactive)) {
        LinkStep::Reply(Ok(code)) => assert_eq!(code, ACCEPTED),
        _ => panic!("expected the accepted answer"),
    }
}

#[test]
fn hourly_limit_issues_nothing_and_answers_the_same() {
    match link_counted(member(), 5, "http://h", 15, 5, 1000) {
        LinkStep::Reply(Ok(code)) => assert_eq!(code, ACCEPTED),
        _ => panic!("expected the accepted answer without a link"),
    }
    match link_counted(member(), 9, "http://h", 15, 5, 1000) {
        LinkStep::Reply(answer) => assert_eq!(answer, Ok(ACCEPTED)),
        _ => panic!("expected the accepted answer without a link"),
    }
    assert_eq!(link_sent(Ok(())), Ok(ACCEPTED));
    assert_eq!(link_sent(Err(E::Internal("mail down".into()))), Ok(ACCEPTED));
}

#[test]
fn issued_link_stores_only_the_hash() {
    match link_counted(member(), 4, "https://app.example", 15, 5, 1000) {
        LinkStep::Issue { user, record, url, retire_unused } => {
            assert!(retire_unused);
            assert_eq!(user, member());
            assert_eq!(record.user_id, 5);
            assert_eq!(record.created_at, 1000);
            assert_eq!(record.expires_at, 1000 + 15 * 60);
            let raw = url.strip_prefix("https://app.example/auth/callback?token=").unwrap();
            assert_eq!(raw.len(), 43);
            assert_eq!(record.token_hash, hash(raw));
            assert_ne!(record.token_hash, raw);
            assert_eq!(verify_begin(raw), Ok(record.token_hash.clone()));
        }
        _ => panic!("expected a token"),
    }
}

#[test]
fn callback_and_record() {
    assert_eq!(callback_url("http://h", "tok"), "http://h/auth/callback?token=tok");
    let r = token_record(3, "abc", 50, 2);
    assert_eq!(r.token_hash, "ba7816bf8f01cfea414140de5dae2223b00361a396177a9cb410ff61f20015ad");
    assert_eq!((r.user_id, r.expires_at, r.created_at), (3, 170, 50));
    assert_eq!(rate_window_start(10_000), 6_400);
}

#[test]
fn short_tokens_are_refused() {
    assert_eq!(verify_begin(&"a".repeat(31)), Err(E::Unauthorized));
    assert_eq!(verify_begin(&"a".repeat(32)), Ok(hash(&"a".repeat(32))));
    assert_eq!(verify_begin(&"é".repeat(16)), Ok(hash(&"é".repeat(16))));
    assert_eq!(verify_begin(""), Err(E::Unauthorized));
}

#[test]
fn redemption_steps() {
    let row = |used_at: Option<i64>, expires_at: i64| TokenRow { id: 8, user_id: 5, expires_at, used_at };
    assert!(matches!(consume_found(None, 100), ConsumeStep::Reject));
    assert!(matches!(consume_found(Some(row(None, 101)), 100), ConsumeStep::LoadUser { token_id: 8, user_id: 5 }));
    assert!(matches!(consume_found(Some(row(None, 100)), 100), ConsumeStep::Reject));
    assert!(matches!(consume_found(Some(row(Some(90), 500)), 100), ConsumeStep::Reject));
    assert!(matches!(consume_loaded(8, None), ConsumeStep::Reject));
    assert!(matches!(consume_loaded(8, Some(User { is_active: 0, ..member() })), ConsumeStep::Reject));
    match consume_loaded(8, Some(member())) {
        ConsumeStep::MarkUsed { token_id, user } => {
            assert_eq!(token_id, 8);
            assert_eq!(user, member());
        }
        _ => panic!("expected the mark"),
    }
    assert!(matches!(consume_marked(member(), 0), ConsumeStep::Reject));
    assert!(matches!(consume_marked(member(), 2), ConsumeStep::Reject));
    match consume_marked(member(), 1) {
        ConsumeStep::Finish(u) => assert_eq!(u, member()),
        _ => panic!("expected the login"),
    }
    assert_eq!(verify_result(None), Err(E::Unauthorized));
    assert_eq!(verify_result(Some(member())), Ok(member()));
}
