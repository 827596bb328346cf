use zapo::password::{hash_new_password, hash_password_with_salt, password_check};

#[test]
fn stored_password_passes_check() {
    let password = "hunter42".to_string();
    let stored = hash_new_password(&password);
    assert!(stored.starts_with("$argon2id$"));
    assert!(password_check(&password, &stored));
}

#[test]
fn other_password_fails_check() {
    let stored = hash_new_password(&"hunter42".to_string());
    assert!(!password_check(&"hunter43".to_string(), &stored));
}

#[test]
fn malformed_hash_fails_check() {
    assert!(!password_check(&"hunter42".to_string(), &"not a phc string".to_string()));
    assert!(!password_check(&"hunter42".to_string(), &String::new()));
}

#[test]
fn same_password_gets_different_salts() {
    let password = "pw".to_string();
    let a = hash_new_password(&password);
    let b = hash_new_password(&password);
    assert_ne!(a, b);
    assert!(password_check(&password, &a));
    assert!(password_check(&password, &b));
}

#[test]
fn new_hash_has_default_argon2id_shape() {
    let password = "hunter42".to_string();
    let stored = hash_new_password(&password);
    assert!(stored.starts_with("$argon2id$v=19$m=19456,t=2,p=1$"));
    assert_eq!(stored.len(), 97);
    let parts: Vec<&str> = stored.split('$').collect();
    assert_eq!(parts.len(), 6);
    assert_eq!(parts[4].len(), 22);
    assert_eq!(parts[5].len(), 43);
    assert!(parts[4]
        .chars()
        .chain(parts[5].chars())
        .all(|c| c.is_ascii_alphanumeric() || c == '+' || c == '/'));
    assert_ne!(stored, password);
}

#[test]
fn hash_with_given_salt_is_determined_by_it() {
    let password = "hunter42".to_string();
    let a = hash_password_with_salt(&password, &[0u8; 16]);
    assert!(a.starts_with("$argon2id$v=19$m=19456,t=2,p=1$AAAAAAAAAAAAAAAAAAAAAA$"));
    assert_eq!(a.len(), 97);
    assert_eq!(a, hash_password_with_salt(&password, &[0u8; 16]));
    assert!(password_check(&password, &a));
    let b = hash_password_with_salt(&password, &[0xffu8; 8]);
    assert!(b.starts_with("$argon2id$v=19$m=19456,t=2,p=1$//////////8$"));
    assert_eq!(b.len(), 75 + 11);
}
