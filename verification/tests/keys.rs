use wireguard_conf::{PresharedKey, PrivateKey, PublicKey, WireguardError};

#[test]
fn private_key_round_trip() {
    let key = PrivateKey::random();
    let text = key.to_base64();
    assert_eq!(text.len(), 44);
    let decoded = PrivateKey::try_from(text).unwrap();
    assert_eq!(decoded, key);
}

#[test]
fn public_key_round_trip() {
    let key = PublicKey::from(&PrivateKey::random());
    let text = key.to_base64();
    assert_eq!(text.len(), 44);
    let decoded = PublicKey::try_from(text).unwrap();
    assert_eq!(decoded, key);
}

#[test]
fn preshared_key_round_trip() {
    let key = PresharedKey::random();
    let text = key.to_base64();
    assert_eq!(text.len(), 44);
    let decoded = PresharedKey::try_from(text).unwrap();
    assert_eq!(decoded, key);
}

#[test]
fn derive_public_is_deterministic() {
    let key = PrivateKey::random();
    let p1 = PublicKey::from(&key);
    let p2 = PublicKey::from(&key);
    assert_eq!(p1, p2);
}

#[test]
fn derive_public_known_vector() {
    // the classic curve test vector: scalar multiplication of this secret
    // with the base point gives this public value
    let secret = PrivateKey::try_from("dwdtCnMYpX08FsFyUbJmRd9ML4frwJkqsXf7pR25LCo=".to_string())
        .unwrap();
    let public = PublicKey::from(&secret);
    assert_eq!(public.to_base64(), "hSDwCYkwp1R0i33ctD73Wg2/Og0mOBr066SpjqqbTmo=");
}

#[test]
fn decode_known_bytes() {
    let key = PresharedKey::try_from("AAECAwQFBgcICQoLDA0ODxAREhMUFRYXGBkaGxwdHh8=".to_string())
        .unwrap();
    let expected: Vec<u8> = (0u8..32).collect();
    assert_eq!(key.as_bytes(), expected.as_slice());
    assert_eq!(key.to_base64(), "AAECAwQFBgcICQoLDA0ODxAREhMUFRYXGBkaGxwdHh8=");
}

#[test]
fn decode_rejects_bad_text() {
    // not base64 at all
    assert_eq!(
        PrivateKey::try_from("not base64!!".to_string()),
        Err(WireguardError::InvalidPrivateKey)
    );
    // valid base64, but only three bytes
    assert_eq!(
        PrivateKey::try_from("YWJj".to_string()),
        Err(WireguardError::InvalidPrivateKey)
    );
    assert_eq!(
        PublicKey::try_from("YWJj".to_string()),
        Err(WireguardError::InvalidPublicKey)
    );
    assert_eq!(
        PresharedKey::try_from("YWJj".to_string()),
        Err(WireguardError::InvalidPresharedKey)
    );
    // missing padding is not canonical
    assert_eq!(
        PrivateKey::try_from("AAAAAAAAAAAAAAAAAAAAAAAAAAAAAAAAAAAAAAAAAAA".to_string()),
        Err(WireguardError::InvalidPrivateKey)
    );
}

#[test]
fn preshared_decode_trims_whitespace() {
    let key = PresharedKey::try_from(
        "  \n\tAAECAwQFBgcICQoLDA0ODxAREhMUFRYXGBkaGxwdHh8=  \r\n".to_string(),
    )
    .unwrap();
    let expected: Vec<u8> = (0u8..32).collect();
    assert_eq!(key.as_bytes(), expected.as_slice());

    // private keys are decoded as given: surrounding whitespace fails
    assert_eq!(
        PrivateKey::try_from(" AAECAwQFBgcICQoLDA0ODxAREhMUFRYXGBkaGxwdHh8=".to_string()),
        Err(WireguardError::InvalidPrivateKey)
    );
}

#[test]
fn random_keys_differ() {
    assert_ne!(PrivateKey::random(), PrivateKey::random());
    assert_ne!(PresharedKey::random(), PresharedKey::random());
    assert_eq!(PresharedKey::random().as_bytes().len(), 32);
}

#[test]
fn error_messages() {
    assert_eq!(WireguardError::InvalidPrivateKey.message(), "invalid private key");
    assert_eq!(WireguardError::InvalidPublicKey.message(), "invalid public key");
    assert_eq!(WireguardError::InvalidPresharedKey.message(), "invalid preshared key");
    assert_eq!(WireguardError::NoPrivateKeyProvided.message(), "no private key provided");
    assert_eq!(WireguardError::NoAssignedIP.message(), "no assigned ip");
}
