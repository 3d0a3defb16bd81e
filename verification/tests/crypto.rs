use magiclink::crypto::{hash, hex, token};

#[test]
fn hash_is_lowercase_hex_sha256() {
    assert_eq!(hash(""), "e3b0c44298fc1c149afbf4c8996fb92427ae41e4649b934ca495991b7852b855");
    assert_eq!(hash("abc"), "ba7816bf8f01cfea414140de5dae2223b00361a396177a9cb410ff61f20015ad");
}

#[test]
fn hex_writes_two_lowercase_digits_per_byte() {
    assert_eq!(hex(&vec![0x0a, 0x14, 0x1e, 0xff, 0x00]), "0a141eff00");
    assert_eq!(hex(&vec![]), "");
}

#[test]
fn tokens_are_43_url_safe_characters() {
    let t = token();
    assert_eq!(t.len(), 43);
    assert!(t.chars().all(|c| c.is_ascii_alphanumeric() || c == '-' || c == '_'));
}

#[test]
fn tokens_differ() {
    assert_ne!(token(), token());
}

#[test]
fn stored_hash_is_not_the_token() {
    let t = token();
    let h = hash(&t);
    assert_eq!(h.len(), 64);
    assert_ne!(h, t);
}
