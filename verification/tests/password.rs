use qna_web_app::handle_errors::Error;
use qna_web_app::password::{
    check_password, hash_password, hash_password_with_salt, password_verdict, SALT_LENGTH,
};

const SOMESALT_HASH: &str =
    "$argon2i$v=19$m=4096,t=3,p=1$c29tZXNhbHQ$iWh06vD8Fy27wf9npn6FXWiCX4K6pW6Ue1Bnzz07Z8A";

#[test]
fn salt_has_thirty_two_bytes() {
    assert_eq!(SALT_LENGTH, 32);
}

#[test]
fn hash_with_known_salt_is_the_known_encoding() {
    let hash = hash_password_with_salt(b"password", b"somesalt").unwrap();
    assert_eq!(hash, SOMESALT_HASH);
}

#[test]
fn hash_with_salt_depends_on_password_and_salt_alone() {
    let salt = [7u8; 32];
    let first = hash_password_with_salt(b"secret123", &salt).unwrap();
    let second = hash_password_with_salt(b"secret123", &salt).unwrap();
    assert_eq!(first, second);
    assert_ne!(first, hash_password_with_salt(b"secret124", &salt).unwrap());
    assert_ne!(first, hash_password_with_salt(b"secret123", &[8u8; 32]).unwrap());
    assert!(first.starts_with("$argon2i$v=19$m=4096,t=3,p=1$"));
}

#[test]
fn hash_with_salt_agrees_with_the_hashing_library() {
    let salt = [42u8; 32];
    let expected = argon2::hash_encoded(b"secret123", &salt, &argon2::Config::default()).unwrap();
    assert_eq!(hash_password_with_salt(b"secret123", &salt).unwrap(), expected);
}

#[test]
fn short_salt_is_a_library_failure() {
    match hash_password_with_salt(b"secret123", b"1234567") {
        Err(Error::ArgonLibraryError(text)) => assert_eq!(text, "Salt is too short"),
        other => panic!("unexpected: {:?}", other),
    }
    assert!(hash_password_with_salt(b"secret123", b"12345678").is_ok());
}

#[test]
fn empty_password_can_be_hashed() {
    let hash = hash_password_with_salt(b"", &[0u8; 32]).unwrap();
    assert!(check_password(&hash, b"").is_ok());
    assert!(matches!(check_password(&hash, b"x"), Err(Error::WrongPassword)));
}

#[test]
fn hashed_password_verifies() {
    for password in ["secret123", "", "p", "a much longer pass phrase, with punctuation!", "пароль"] {
        let hash = hash_password(password.as_bytes()).unwrap();
        assert!(check_password(&hash, password.as_bytes()).is_ok(), "{:?}", password);
        assert!(argon2::verify_encoded(&hash, password.as_bytes()).unwrap());
    }
}

#[test]
fn other_password_does_not_verify() {
    let hash = hash_password(b"secret123").unwrap();
    for other in ["wrong", "secret12", "secret1234", "Secret123", ""] {
        assert!(
            matches!(check_password(&hash, other.as_bytes()), Err(Error::WrongPassword)),
            "{:?}",
            other
        );
    }
}

#[test]
fn hashing_twice_gives_two_encodings_that_both_verify() {
    let first = hash_password(b"secret123").unwrap();
    let second = hash_password(b"secret123").unwrap();
    assert_ne!(first, second);
    assert!(check_password(&first, b"secret123").is_ok());
    assert!(check_password(&second, b"secret123").is_ok());
}

#[test]
fn drawn_salt_has_thirty_two_bytes() {
    let hash = hash_password(b"secret123").unwrap();
    let parts: Vec<&str> = hash.split('$').collect();
    assert_eq!(parts.len(), 6);
    assert_eq!(parts[1], "argon2i");
    assert_eq!(parts[2], "v=19");
    assert_eq!(parts[3], "m=4096,t=3,p=1");
    // 32 bytes in base64 without padding take 43 characters.
    assert_eq!(parts[4].len(), 43);
    assert_eq!(parts[5].len(), 43);
    assert_ne!(parts[4], "A".repeat(43));
}

#[test]
fn known_encoding_verifies_its_password() {
    assert!(check_password(SOMESALT_HASH, b"password").is_ok());
    assert!(matches!(check_password(SOMESALT_HASH, b"Password"), Err(Error::WrongPassword)));
}

#[test]
fn malformed_hash_is_a_library_failure() {
    for hash in ["", "secret123", "$argon2i$v=19$m=4096,t=3,p=1$c29tZXNhbHQ", "$argon2x$v=19$m=4096,t=3,p=1$c29tZXNhbHQ$iWh06vD8Fy27wf9npn6FXWiCX4K6pW6Ue1Bnzz07Z8A"] {
        match check_password(hash, b"secret123") {
            Err(Error::ArgonLibraryError(text)) => {
                assert_eq!(text, argon2::verify_encoded(hash, b"secret123").unwrap_err().to_string())
            }
            other => panic!("unexpected for {:?}: {:?}", hash, other),
        }
    }
    match check_password("not a hash", b"secret123") {
        Err(Error::ArgonLibraryError(text)) => assert_eq!(text, "Decoding failed"),
        other => panic!("unexpected: {:?}", other),
    }
}

#[test]
fn verdict_follows_the_check() {
    assert!(matches!(password_verdict(Ok(true)), Ok(())));
    assert!(matches!(password_verdict(Ok(false)), Err(Error::WrongPassword)));
    match password_verdict(Err("Decoding failed".to_string())) {
        Err(Error::ArgonLibraryError(text)) => assert_eq!(text, "Decoding failed"),
        other => panic!("unexpected: {:?}", other),
    }
}
