use weft_auth::passwords::{HashedPassword, PasswordHasher, PasswordHasherError};
use weft_auth::secret::EnvSecret;

const TEST_SECRET: &'static str = "fogwrtspgvjzaylwogmwnvuximgrqrmdwmtymgbpgfkqkrdgzxkdcvsfqpkzolvklhhtuqaoareiwkrfybdtrdevyrhdksbvwhpltsqbeyplxgumzbchtgryoqukaafvxmnlftanopntxppdxyyttnnhjcxaowly";
const SHORT_TEST_SECRET: &'static str = "cfkwxxjduqoitbrmbhffgckvcgpuz";

#[test]
fn test_build_hasher() {
    assert!(PasswordHasher::new(TEST_SECRET).is_ok())
}

#[test]
fn test_build_hasher_short_key() {
    assert_eq!(
        PasswordHasher::new(SHORT_TEST_SECRET).unwrap_err(),
        PasswordHasherError::InvalidSecretKey
    );
}

#[test]
fn hasher_keeps_its_secret() {
    let hasher = PasswordHasher::new(TEST_SECRET).unwrap();
    assert_eq!(hasher.secret(), TEST_SECRET);
}

#[test]
fn hasher_secret_length_boundary() {
    let thirty = "a".repeat(30);
    let thirty_one = "a".repeat(31);
    assert_eq!(PasswordHasher::new(&thirty).unwrap_err(), PasswordHasherError::InvalidSecretKey);
    assert!(PasswordHasher::new(&thirty_one).is_ok());
    assert_eq!(PasswordHasher::new("").unwrap_err(), PasswordHasherError::InvalidSecretKey);
}

#[test]
fn hasher_secret_length_counts_bytes() {
    // sixteen two-byte characters: 16 characters, 32 bytes
    let wide = "é".repeat(16);
    assert!(PasswordHasher::new(&wide).is_ok());
    // fifteen two-byte characters: 30 bytes
    let narrow = "é".repeat(15);
    assert_eq!(PasswordHasher::new(&narrow).unwrap_err(), PasswordHasherError::InvalidSecretKey);
}

#[test]
fn hasher_from_env_secret() {
    assert_eq!(
        PasswordHasher::from_env_secret(EnvSecret::NotPresent).unwrap_err(),
        PasswordHasherError::NoSecretKey
    );
    assert_eq!(
        PasswordHasher::from_env_secret(EnvSecret::NotUnicode).unwrap_err(),
        PasswordHasherError::InvalidSecretKey
    );
    assert_eq!(
        PasswordHasher::from_env_secret(EnvSecret::Present(SHORT_TEST_SECRET.to_string()))
            .unwrap_err(),
        PasswordHasherError::InvalidSecretKey
    );
    let hasher = PasswordHasher::from_env_secret(EnvSecret::Present(TEST_SECRET.to_string()));
    assert_eq!(hasher.unwrap().secret(), TEST_SECRET);
}

#[test]
fn hasher_error_messages() {
    assert_eq!(PasswordHasherError::NoSecretKey.message(), "No secret key");
    assert_eq!(PasswordHasherError::InvalidSecretKey.message(), "Invalid secret key");
    assert_eq!(
        PasswordHasherError::HashingError("out of memory".to_string()).message(),
        "Hashing error: out of memory"
    );
}

#[test]
fn hashed_password_keeps_its_text() {
    let text = "$argon2id$v=19$m=4096,t=192,p=4$c29tZXNhbHQ$ZGlnZXN0";
    let hashed = HashedPassword::from_str(text).unwrap();
    assert_eq!(hashed.as_str(), text);
    assert_eq!(hashed.clone().as_str(), text);
}
