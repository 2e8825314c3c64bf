use verigate::credential::{CredentialError, Token};

#[test]
fn round_trip_reproduces_user_and_nonce() {
    let token = Token::new(42).unwrap();
    let text = token.generate();
    let back = Token::parse(text).unwrap();
    assert_eq!(back.user_id, 42);
    assert_eq!(back.nonce, token.nonce);
}

#[test]
fn round_trip_holds_at_extreme_user_ids() {
    for user_id in [0u64, 1, u64::MAX - 1, u64::MAX] {
        let token = Token::new(user_id).unwrap();
        let back = Token::parse(token.generate()).unwrap();
        assert_eq!(back.user_id, user_id);
        assert_eq!(back.nonce, token.nonce);
    }
}

#[test]
fn issued_nonce_has_fixed_width() {
    let token = Token::new(7).unwrap();
    assert_eq!(token.nonce.len(), 32);
}

#[test]
fn serialized_form_is_urlsafe_text_of_expected_length() {
    let token = Token::new(99).unwrap();
    let text = token.generate();
    // 41 bytes render as ceil(41 * 4 / 3) = 55 characters, none of them
    // outside the URL-safe alphabet.
    assert_eq!(text.len(), 55);
    assert!(text
        .chars()
        .all(|c| c.is_ascii_alphanumeric() || c == '-' || c == '_'));
}

#[test]
fn known_credential_serializes_to_known_text() {
    let token = Token {
        user_id: 0,
        nonce: vec![0u8; 32],
    };
    // Eight zero bytes, a dot (0x2e), thirty-two zero bytes.
    let expected_bytes: Vec<u8> = {
        let mut b = vec![0u8; 8];
        b.push(b'.');
        b.extend_from_slice(&[0u8; 32]);
        b
    };
    let expected =
        base64::Engine::encode(&base64::engine::general_purpose::URL_SAFE_NO_PAD, &expected_bytes);
    assert_eq!(token.generate(), expected);
    // Bytes 0..9 are eight zeros then 0x2e: the first twelve characters are
    // eleven `A`s and a `u` (0x2e's low six bits).
    assert!(expected.starts_with("AAAAAAAAAAAu"));
}

#[test]
fn truncated_credential_is_malformed() {
    let token = Token::new(42).unwrap();
    let mut text = token.generate();
    text.pop();
    assert_eq!(Token::parse(text), Err(CredentialError::Malformed));
}

#[test]
fn corrupted_credential_never_decodes_to_another_user() {
    let token = Token::new(42).unwrap();
    let text = token.generate();
    let bytes = text.into_bytes();
    for i in 0..bytes.len() {
        let mut corrupt = bytes.clone();
        // Flip to a different character of the URL-safe alphabet.
        corrupt[i] = if corrupt[i] == b'A' { b'B' } else { b'A' };
        if corrupt == bytes {
            continue;
        }
        let corrupt = String::from_utf8(corrupt).unwrap();
        match Token::parse(corrupt) {
            Err(CredentialError::Malformed) => {}
            Ok(back) => {
                // A decode may still succeed: the corrupted text is then the
                // valid serialization of some credential, but of a different
                // one, and the replay guard is what rejects it.
                assert!(back.user_id != token.user_id || back.nonce != token.nonce);
            }
        }
    }
}

#[test]
fn empty_and_garbage_inputs_are_malformed() {
    assert_eq!(Token::parse(String::new()), Err(CredentialError::Malformed));
    assert_eq!(
        Token::parse("not base64 at all!".to_string()),
        Err(CredentialError::Malformed)
    );
    // Valid base64, wrong decoded length.
    assert_eq!(
        Token::parse("AAAA".to_string()),
        Err(CredentialError::Malformed)
    );
    // Padding is refused by the unpadded engine.
    assert_eq!(
        Token::parse("AAA=".to_string()),
        Err(CredentialError::Malformed)
    );
}

#[test]
fn corrupt_separator_is_malformed() {
    // 41 bytes whose ninth byte is not the separator.
    let mut bytes = vec![0u8; 41];
    bytes[8] = b',';
    let text =
        base64::Engine::encode(&base64::engine::general_purpose::URL_SAFE_NO_PAD, &bytes);
    assert_eq!(Token::parse(text), Err(CredentialError::Malformed));
}

#[test]
fn reencoding_with_altered_user_id_yields_the_altered_user_only() {
    let token = Token::new(42).unwrap();
    let forged = Token {
        user_id: 43,
        nonce: token.nonce.clone(),
    };
    let back = Token::parse(forged.generate()).unwrap();
    // The decode is structurally valid but names the forged user, never 42;
    // validation against the replay guard is what rejects it.
    assert_eq!(back.user_id, 43);
    assert_ne!(back.user_id, token.user_id);
}
