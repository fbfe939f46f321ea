use passrs::crypto::{CryptoError, CryptoGateway, TrialGateway, TRIAL_MARK};

const GPG_KEY_ID: &str = "passrs-tests@nocht.io";

fn gateway() -> TrialGateway {
    let mut gateway = TrialGateway::new();
    gateway.add_key(GPG_KEY_ID);
    gateway
}

#[test]
fn encrypt_and_decrypt_should_be_isomorphic() {
    let expected = "test";
    let gpg = gateway();
    let ciphertext = gpg
        .encrypt(GPG_KEY_ID, expected.as_bytes())
        .expect("ciphertext encryption error");
    let plaintext = gpg.decrypt(&ciphertext).expect("plaintext").into_zeroized_string().unwrap();
    assert_eq!(&*plaintext, expected);
}

#[test]
fn any_bytes_come_back_from_a_round_trip() {
    let gpg = gateway();
    let payloads: Vec<Vec<u8>> =
        vec![vec![], vec![0], vec![TRIAL_MARK], vec![255, 0, 10, 13], vec![7; 300]];
    for payload in payloads {
        let ciphertext = gpg.encrypt(GPG_KEY_ID, &payload).unwrap();
        assert_ne!(ciphertext, payload);
        assert_eq!(gpg.decrypt(&ciphertext).unwrap().as_bytes(), &payload[..]);
    }
}

#[test]
fn the_trial_ciphertext_is_the_mark_and_the_plaintext() {
    let gpg = gateway();
    assert_eq!(gpg.encrypt(GPG_KEY_ID, b"ab").unwrap(), vec![TRIAL_MARK, b'a', b'b']);
    assert_eq!(TRIAL_MARK, 0xa5);
}

#[test]
fn encryption_under_a_missing_key_fails() {
    let gpg = gateway();
    assert_eq!(
        gpg.encrypt("nobody@nocht.io", b"test"),
        Err(CryptoError::KeyNotFound("nobody@nocht.io".to_string()))
    );
    assert!(TrialGateway::new().encrypt(GPG_KEY_ID, b"test").is_err());
}

#[test]
fn bytes_without_the_mark_do_not_decrypt() {
    let gpg = gateway();
    assert!(matches!(gpg.decrypt(b""), Err(CryptoError::DecryptionFailed(_))));
    assert!(matches!(gpg.decrypt(b"plain"), Err(CryptoError::DecryptionFailed(_))));
}

#[test]
fn the_mark_alone_decrypts_to_nothing() {
    let gpg = gateway();
    assert_eq!(gpg.decrypt(&[TRIAL_MARK]).unwrap().as_bytes(), b"");
}

#[test]
fn a_key_exists_once_it_was_added() {
    let mut gpg = TrialGateway::new();
    assert_eq!(gpg.key_exists(GPG_KEY_ID), Ok(false));
    gpg.add_key(GPG_KEY_ID);
    assert_eq!(gpg.key_exists(GPG_KEY_ID), Ok(true));
    assert_eq!(gpg.key_exists("passrs-tests@nocht.i"), Ok(false));
    gpg.add_key("second");
    assert_eq!(gpg.key_exists(GPG_KEY_ID), Ok(true));
    assert_eq!(gpg.key_exists("second"), Ok(true));
}

#[test]
fn crypto_errors_have_their_messages() {
    assert_eq!(
        CryptoError::KeyNotFound("me@nocht.io".to_string()).message(),
        "The key \"me@nocht.io\" could not be found!"
    );
    assert_eq!(
        CryptoError::EncryptionFailed("why".to_string()).message(),
        "The secret could not be encrypted."
    );
    assert_eq!(
        CryptoError::DecryptionFailed("why".to_string()).message(),
        "The secret could not be decrypted."
    );
    assert_eq!(
        CryptoError::BackendUnavailable("why".to_string()).message(),
        "The encryption backend is not available."
    );
    assert_eq!(CryptoError::NotText.message(), "The decrypted secret is not text.");
}
