use base64::Engine;
use euterpe_server::crypto::MasterKey;
use euterpe_server::error::ApiError;

#[test]
fn round_trip_hex_key() {
    let key = MasterKey::parse(&hex::encode([7u8; 32])).unwrap();
    let enc = key.encrypt("secret-token").unwrap();
    assert_ne!(enc, "secret-token");
    assert_eq!(key.decrypt(&enc).unwrap(), "secret-token");
}

#[test]
fn base64_keys_and_length_checks() {
    let b64 = base64::engine::general_purpose::STANDARD.encode([1u8; 32]);
    let key = MasterKey::parse(&b64).unwrap();
    let enc = key.encrypt("ü-multibyte").unwrap();
    assert_eq!(key.decrypt(&enc).unwrap(), "ü-multibyte");
    match MasterKey::parse(&hex::encode([1u8; 16])) {
        Err(ApiError::Config(m)) => assert!(m.starts_with("invalid EUTERPE_MASTER_KEY base64")
            || m == "EUTERPE_MASTER_KEY must be 32 bytes"),
        _ => panic!("expected config error"),
    }
    let short = base64::engine::general_purpose::STANDARD.encode([1u8; 16]);
    match MasterKey::parse(&short) {
        Err(ApiError::Config(m)) => assert_eq!(m, "EUTERPE_MASTER_KEY must be 32 bytes"),
        _ => panic!("expected config error"),
    }
    match MasterKey::parse("!!not base64!!") {
        Err(ApiError::Config(m)) => assert!(m.starts_with("invalid EUTERPE_MASTER_KEY base64: ")),
        _ => panic!("expected config error"),
    }
}

#[test]
fn decrypt_errors() {
    let key = MasterKey::parse(&hex::encode([7u8; 32])).unwrap();
    assert_eq!(key.decrypt("AAAA").unwrap_err().message(), "ciphertext too short");
    assert!(key
        .decrypt("***")
        .unwrap_err()
        .message()
        .starts_with("invalid ciphertext: "));
    let other = MasterKey::parse(&hex::encode([8u8; 32])).unwrap();
    let enc = other.encrypt("x").unwrap();
    assert!(key
        .decrypt(&enc)
        .unwrap_err()
        .message()
        .starts_with("decrypt failed: "));
}

#[test]
fn encrypt_succeeds_on_ordinary_secrets() {
    let key = MasterKey::parse(&hex::encode([5u8; 32])).unwrap();
    assert!(key.encrypt("").is_ok());
    assert!(key.encrypt("a longer secret with ünïcode").is_ok());
}
