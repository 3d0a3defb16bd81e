use magiclink::error::{database_error, E};

#[test]
fn statuses_follow_the_error_kind() {
    assert_eq!(E::Bad("x".into()).status(), 400);
    assert_eq!(E::Unauthorized.status(), 401);
    assert_eq!(E::Forbidden.status(), 403);
    assert_eq!(E::NotFound.status(), 404);
    assert_eq!(E::Conflict("x".into()).status(), 409);
    assert_eq!(E::Rate.status(), 429);
    assert_eq!(E::Internal("x".into()).status(), 500);
}

#[test]
fn messages_shown_to_clients() {
    assert_eq!(E::Bad("rossz".into()).message(), "rossz");
    assert_eq!(E::Conflict("ütközés".into()).message(), "ütközés");
    assert_eq!(E::Unauthorized.message(), "Bejelentkezés szükséges.");
    assert_eq!(E::Forbidden.message(), "Nincs jogosultságod ehhez a művelethez.");
    assert_eq!(E::NotFound.message(), "A kért erőforrás nem található.");
    assert_eq!(E::Rate.message(), "Túl sok kérés. Próbáld később.");
}

#[test]
fn internal_error_text_is_not_shown() {
    let e = E::Internal("disk on fire".into());
    assert_eq!(e.message(), "Váratlan szerverhiba történt.");
    assert_eq!(e.text(), "disk on fire");
}

#[test]
fn log_texts() {
    assert_eq!(E::Unauthorized.text(), "unauthorized");
    assert_eq!(E::Forbidden.text(), "forbidden");
    assert_eq!(E::NotFound.text(), "not found");
    assert_eq!(E::Rate.text(), "rate limit");
    assert_eq!(E::Bad("b".into()).text(), "b");
}

#[test]
fn database_failures_are_internal() {
    assert_eq!(database_error(), E::Internal("Adatbázis hiba".into()));
    assert_eq!(database_error().status(), 500);
}

#[test]
fn error_codes() {
    assert_eq!(E::Bad("x".into()).code(), "bad_request");
    assert_eq!(E::Unauthorized.code(), "unauthorized");
    assert_eq!(E::Forbidden.code(), "forbidden");
    assert_eq!(E::NotFound.code(), "not_found");
    assert_eq!(E::Conflict("x".into()).code(), "conflict");
    assert_eq!(E::Rate.code(), "rate_limited");
    assert_eq!(E::Internal("x".into()).code(), "internal_error");
}
