use zentao_client::codec::{obfuscate_then_reveal, xor_decrypt, xor_encrypt_decrypt};

#[test]
fn round_trip_ascii_secret() {
    let secret = "my-bearer-token-123";
    let key = "zentao_app_key_2025";
    let encoded = xor_encrypt_decrypt(secret, key);
    assert_eq!(xor_decrypt(&encoded, key), Ok(String::from(secret)));
}

#[test]
fn round_trip_unicode_secret() {
    let secret = "密码 with spaces and 🎫";
    let key = "k";
    let encoded = xor_encrypt_decrypt(secret, key);
    assert_eq!(xor_decrypt(&encoded, key), Ok(String::from(secret)));
}

#[test]
fn round_trip_empty_secret() {
    let key = "key";
    let encoded = xor_encrypt_decrypt("", key);
    assert_eq!(xor_decrypt(&encoded, key), Ok(String::new()));
}

#[test]
fn obfuscation_has_exact_encoding() {
    // 'A' (0x41) XOR 'k' (0x6b) is 0x2a, whose padded base64 text is "Kg==".
    assert_eq!(xor_encrypt_decrypt("A", "k"), "Kg==");
}

#[test]
fn reveal_rejects_invalid_base64() {
    assert!(xor_decrypt("not valid base64!!", "key").is_err());
}

#[test]
fn reveal_rejects_non_canonical_padding() {
    assert!(xor_decrypt("Kg", "k").is_err());
}

#[test]
fn reveal_rejects_bytes_that_are_not_text() {
    // "lA==" decodes to the byte 0x94; XOR with 'k' (0x6b) gives 0xff,
    // which is not valid UTF-8.
    assert!(xor_decrypt("lA==", "k").is_err());
}

#[test]
fn wrong_key_does_not_recover_the_secret() {
    let encoded = xor_encrypt_decrypt("secret", "right-key");
    let wrong = xor_decrypt(&encoded, "wrong-key");
    assert_ne!(wrong, Ok(String::from("secret")));
}

#[test]
fn composed_round_trip_law_holds_at_runtime() {
    assert_eq!(
        obfuscate_then_reveal("账号密码", "zentao_app_key_2025"),
        Ok(String::from("账号密码"))
    );
}
