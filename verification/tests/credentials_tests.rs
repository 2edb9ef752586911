use maya_core::credentials::{hash_password, verify_password};

#[test]
fn hash_of_empty_string_is_seed() {
    assert_eq!(hash_password(""), "hash_cbf29ce484222325");
}

#[test]
fn hash_of_single_letter_exact_value() {
    assert_eq!(hash_password("a"), "hash_af63dc4c8601ec8c");
}

#[test]
fn verify_accepts_own_hash() {
    for p in ["", "secret1", "contrasena", "pässwörd", "a much longer passphrase with spaces"] {
        let h = hash_password(p);
        assert!(verify_password(p, &h));
    }
}

#[test]
fn hash_is_deterministic() {
    assert_eq!(hash_password("secret1"), hash_password("secret1"));
}

#[test]
fn distinct_passwords_hash_differently() {
    assert_ne!(hash_password("secret1"), hash_password("secret2"));
    assert_ne!(hash_password("abcdef"), hash_password("abcdeg"));
    assert_ne!(hash_password(""), hash_password(" "));
}

#[test]
fn verify_rejects_wrong_password() {
    let h = hash_password("secret1");
    assert!(!verify_password("secret2", &h));
    assert!(!verify_password("", &h));
}
