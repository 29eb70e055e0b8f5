use tenebra::keys::{Keys, Permissions, KEY_LENGTH, KEY_LIFETIME_MS};

#[test]
fn token_is_32_alphanumeric_characters() {
    let mut keys = Keys::new();
    let token = keys.create_key(Permissions::ViewOnly, 0);
    assert_eq!(token.len(), 32);
    assert_eq!(KEY_LENGTH, 32);
    assert!(token.chars().all(|c| c.is_ascii_alphanumeric()));
}

#[test]
fn tokens_differ() {
    let mut keys = Keys::new();
    let a = keys.create_key(Permissions::ViewOnly, 0);
    let b = keys.create_key(Permissions::ViewOnly, 0);
    assert_ne!(a, b);
}

#[test]
fn token_redeems_once_with_its_permission() {
    let mut keys = Keys::new();
    let view = keys.create_key(Permissions::ViewOnly, 1_000);
    let full = keys.create_key(Permissions::FullControl, 2_000);
    assert_eq!(keys.use_key(&view, 3_000), Some(Permissions::ViewOnly));
    assert_eq!(keys.use_key(&view, 3_001), None);
    assert_eq!(keys.use_key(&full, 3_002), Some(Permissions::FullControl));
    assert_eq!(keys.use_key(&full, 3_003), None);
}

#[test]
fn unknown_token_is_refused() {
    let mut keys = Keys::new();
    keys.create_key(Permissions::FullControl, 0);
    assert_eq!(keys.use_key("abcdefghijklmnopqrstuvwxyz012345", 10), None);
    assert_eq!(keys.use_key("", 10), None);
}

#[test]
fn token_expires_after_an_hour() {
    let mut keys = Keys::new();
    let token = keys.create_key(Permissions::FullControl, 5_000);
    assert_eq!(KEY_LIFETIME_MS, 3_600_000);
    assert_eq!(keys.use_key(&token, 5_000 + 3_600_000), None);

    let token = keys.create_key(Permissions::FullControl, 5_000);
    assert_eq!(keys.use_key(&token, 5_000 + 3_599_999), Some(Permissions::FullControl));
}

#[test]
fn old_tokens_are_swept() {
    let mut keys = Keys::new();
    let old = keys.create_key(Permissions::ViewOnly, 0);
    let young = keys.create_key(Permissions::ViewOnly, 3_000_000);
    keys.remove_old_keys(3_600_000);
    assert_eq!(keys.use_key(&young, 3_600_000), Some(Permissions::ViewOnly));
    keys.remove_old_keys(0);
    assert_eq!(keys.use_key(&old, 0), None);
}

#[test]
fn creating_a_token_sweeps_expired_ones() {
    let mut keys = Keys::new();
    let old = keys.create_key(Permissions::ViewOnly, 0);
    let _ = keys.create_key(Permissions::ViewOnly, 4_000_000);
    assert_eq!(keys.use_key(&old, 100), None);
}
