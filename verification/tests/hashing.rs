use rust_basic::usecase::auth::register::hasher::{
    accept_digest, hash_password, verdict_accepts, verify_password, HashFailure,
};

#[test]
fn a_digest_differs_from_the_credential() {
    let digest = hash_password("secret1", 4).expect("hashing succeeds");
    assert_ne!(digest, "secret1");
    assert_eq!(digest.chars().count(), 60);
    assert!(digest.starts_with("$2b$04$"));
}

#[test]
fn two_digests_of_one_credential_differ() {
    let first = hash_password("secret1", 4).expect("hashing succeeds");
    let second = hash_password("secret1", 4).expect("hashing succeeds");
    assert_ne!(first, second);
}

#[test]
fn a_digest_verifies_against_its_credential() {
    let digest = hash_password("secret1", 4).expect("hashing succeeds");
    assert!(verify_password("secret1", &digest));
    assert!(!verify_password("secret2", &digest));
    assert!(!verify_password("", &digest));
}

#[test]
fn a_known_digest_verifies() {
    let digest = "$2b$04$EGdrhbKUv8Oc9vGiXX0HQOxSg445d458Muh7DAHskb6QbtCvdxcie";
    assert!(verify_password("correctbatteryhorsestapler", digest));
    assert!(!verify_password("correctbatteryhorsestaple", digest));
    assert!(!verify_password("wrong", digest));
}

#[test]
fn a_malformed_digest_matches_nothing() {
    assert!(!verify_password("secret1", ""));
    assert!(!verify_password("secret1", "secret1"));
    assert!(!verify_password("secret1", "$2b$04$tooshort"));
}

#[test]
fn the_cost_must_lie_in_the_range() {
    assert_eq!(hash_password("secret1", 3), Err(HashFailure::CostNotAllowed(3)));
    assert_eq!(hash_password("secret1", 32), Err(HashFailure::CostNotAllowed(32)));
    assert_eq!(hash_password("secret1", 0), Err(HashFailure::CostNotAllowed(0)));
    assert!(hash_password("secret1", 4).is_ok());
}

#[test]
fn a_digest_equal_to_the_credential_is_discarded() {
    assert_eq!(
        accept_digest("same", Ok("same".to_string())),
        Err(HashFailure::DigestEqualsPlaintext)
    );
    assert_eq!(accept_digest("plain", Ok("digest".to_string())), Ok("digest".to_string()));
    assert_eq!(accept_digest("plain", Err(HashFailure::Random)), Err(HashFailure::Random));
    assert_eq!(
        accept_digest("plain", Err(HashFailure::CostNotAllowed(2))),
        Err(HashFailure::CostNotAllowed(2))
    );
}

#[test]
fn only_a_positive_verdict_accepts() {
    assert!(verdict_accepts(Some(true)));
    assert!(!verdict_accepts(Some(false)));
    assert!(!verdict_accepts(None));
}

#[test]
fn every_kind_of_credential_verifies_against_its_digest() {
    let long = "x".repeat(100);
    let credentials = ["", "a", "pässwörd ü", "with\0nul", long.as_str()];
    for credential in credentials {
        let digest = hash_password(credential, 4).expect("hashing succeeds");
        assert_eq!(digest.chars().count(), 60);
        assert_ne!(digest, credential);
        assert!(verify_password(credential, &digest));
    }
}

#[test]
fn hashing_fails_for_the_cost_alone() {
    for cost in [0, 1, 2, 3, 32, 33, 1000, u32::MAX] {
        assert_eq!(hash_password("secret1", cost), Err(HashFailure::CostNotAllowed(cost)));
    }
    for cost in [4, 5] {
        assert!(hash_password("secret1", cost).is_ok());
    }
}
