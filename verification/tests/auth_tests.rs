use cle_tracker::auth::{hash_password, verify_password, SALT};
use sha2::{Digest, Sha256};

fn reference_hash(password: &str) -> String {
    let salted = format!("{}{}", password, SALT);
    let digest = Sha256::digest(salted.as_bytes());
    let mut hex = String::new();
    for b in digest.iter() {
        hex.push_str(&format!("{:02x}", b));
    }
    hex
}

#[test]
fn hash_matches_salted_sha256_hex() {
    for pw in ["", "hunter2", "correct horse battery staple", "päss wörd"] {
        assert_eq!(hash_password(pw), reference_hash(pw));
    }
}

#[test]
fn hash_is_64_lowercase_hex_digits() {
    let h = hash_password("secret");
    assert_eq!(h.len(), 64);
    assert!(h.chars().all(|c| c.is_ascii_hexdigit() && !c.is_ascii_uppercase()));
}

#[test]
fn verify_accepts_the_right_password() {
    let stored = hash_password("open sesame");
    assert!(verify_password("open sesame", &stored));
}

#[test]
fn verify_rejects_a_wrong_password() {
    let stored = hash_password("open sesame");
    assert!(!verify_password("open sesam", &stored));
    assert!(!verify_password("", &stored));
}
