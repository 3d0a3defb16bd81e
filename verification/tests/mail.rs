use magiclink::mail::message;

#[test]
fn magic_link_mail() {
    let m = message("No Reply <no-reply@example.com>", "a@b.hu", "outbound", "https://x/auth/callback?token=T");
    assert_eq!(m.from, "No Reply <no-reply@example.com>");
    assert_eq!(m.to, "a@b.hu");
    assert_eq!(m.stream, "outbound");
    assert_eq!(m.subject, "Belépési link");
    assert_eq!(m.tag, "magic-link");
    assert_eq!(m.html, "<p><a href=\"https://x/auth/callback?token=T\">Biztonságos belépés</a></p>");
    assert_eq!(m.text, "Belépés: https://x/auth/callback?token=T");
}
