use base64::Engine;
use rey::crypto::aead::{secretbox_decrypt, secretbox_encrypt, stream_decrypt, stream_encrypt};
use rey::crypto::error::CryptoError;
use rey::crypto::kdf::{derive_kek, derive_key, derive_subkey, derive_verification_key};
use rey::crypto::key::{decrypt_key, encrypt_key, generate_key};
use rey::crypto::seal::{generate_keypair, open, public_key_of, seal};
use rey::crypto::types::{Argon2Profile, EncryptedKey, Key256, Nonce24, Salt16};
use rey::crypto::util::{
    base64_decode, base64_encode, constant_time_eq, hex_decode, hex_encode, zeroize_bytes,
};

// Messages of the errors.

#[test]
fn test_display_mac_mismatch() {
    let err = CryptoError::MacMismatch;
    assert_eq!(err.to_string(), "MAC verification failed");
}

#[test]
fn test_display_unsupported_cipher() {
    let err = CryptoError::UnsupportedCipher("AES-GCM".to_string());
    assert_eq!(err.to_string(), "unsupported cipher: AES-GCM");
}

#[test]
fn test_display_allocation_failed() {
    let err = CryptoError::AllocationFailed;
    assert_eq!(err.to_string(), "memory allocation failed for Argon2id");
}

#[test]
fn error_test_display_invalid_key() {
    let err = CryptoError::InvalidKey;
    assert_eq!(err.to_string(), "invalid key length");
}

#[test]
fn test_display_invalid_nonce() {
    let err = CryptoError::InvalidNonce;
    assert_eq!(err.to_string(), "invalid nonce length");
}

#[test]
fn test_display_base64_error() {
    let err = CryptoError::Base64Error("invalid input".to_string());
    assert_eq!(err.to_string(), "base64 decode error: invalid input");
}

#[test]
fn test_display_hex_error() {
    let err = CryptoError::HexError("bad hex".to_string());
    assert_eq!(err.to_string(), "hex decode error: bad hex");
}

#[test]
fn test_error_source_returns_none() {
    let err = CryptoError::MacMismatch;
    assert!(err.source().is_none());

    let err = CryptoError::UnsupportedCipher("test".to_string());
    assert!(err.source().is_none());
}

// Byte utilities.

#[test]
fn test_constant_time_eq_equal() {
    assert!(constant_time_eq(b"hello", b"hello"));
}

#[test]
fn test_constant_time_eq_not_equal() {
    assert!(!constant_time_eq(b"hello", b"world"));
}

#[test]
fn test_constant_time_eq_different_lengths() {
    assert!(!constant_time_eq(b"hello", b"hell"));
}

#[test]
fn test_zeroize_bytes() {
    let mut data = [1u8, 2, 3, 4, 5];
    zeroize_bytes(&mut data);
    assert_eq!(data, [0u8; 5]);
}

#[test]
fn test_base64_roundtrip() {
    let data = b"hello world";
    let encoded = base64_encode(data);
    let decoded = base64_decode(&encoded).unwrap();
    assert_eq!(decoded, data);
}

#[test]
fn test_base64_decode_invalid() {
    let result = base64_decode("!!!invalid!!!");
    assert!(result.is_err());
}

#[test]
fn test_hex_roundtrip() {
    let data = b"hello world";
    let encoded = hex_encode(data);
    let decoded = hex_decode(&encoded).unwrap();
    assert_eq!(decoded, data);
}

#[test]
fn test_hex_decode_invalid() {
    let result = hex_decode("zzzz");
    assert!(result.is_err());
}

#[test]
fn base64_encode_known_value() {
    assert_eq!(base64_encode(b"hello"), "aGVsbG8=");
    assert_eq!(base64_encode(b""), "");
}

#[test]
fn base64_decode_error_variant() {
    assert!(matches!(base64_decode("a"), Err(CryptoError::Base64Error(_))));
}

#[test]
fn hex_encode_known_value() {
    assert_eq!(hex_encode(&[0x00, 0x0f, 0xab, 0xff]), "000fabff");
}

#[test]
fn hex_decode_accepts_upper_case() {
    assert_eq!(hex_decode("ABff").unwrap(), vec![0xab, 0xff]);
}

#[test]
fn hex_decode_odd_length_is_hex_error() {
    assert!(matches!(hex_decode("abc"), Err(CryptoError::HexError(_))));
}

#[test]
fn zeroize_empty_slice() {
    let mut data: [u8; 0] = [];
    zeroize_bytes(&mut data);
    assert_eq!(data.len(), 0);
}

// Secretbox.

#[test]
fn test_secretbox_roundtrip() {
    let key = generate_key();
    let plaintext = b"hello world";
    let (nonce, ciphertext) = secretbox_encrypt(plaintext, &key);
    let decrypted = secretbox_decrypt(&nonce, &ciphertext, &key).unwrap();
    assert_eq!(decrypted, plaintext);
}

#[test]
fn test_secretbox_mac_mismatch_on_tampered_ciphertext() {
    let key = generate_key();
    let plaintext = b"hello world";
    let (nonce, mut ciphertext) = secretbox_encrypt(plaintext, &key);
    if !ciphertext.is_empty() {
        ciphertext[0] ^= 0xFF;
    }
    let result = secretbox_decrypt(&nonce, &ciphertext, &key);
    assert!(matches!(result, Err(CryptoError::MacMismatch)));
}

#[test]
fn test_secretbox_wrong_key() {
    let key1 = generate_key();
    let key2 = generate_key();
    let plaintext = b"hello world";
    let (nonce, ciphertext) = secretbox_encrypt(plaintext, &key1);
    let result = secretbox_decrypt(&nonce, &ciphertext, &key2);
    assert!(matches!(result, Err(CryptoError::MacMismatch)));
}

#[test]
fn secretbox_ciphertext_is_sixteen_bytes_longer() {
    let key = generate_key();
    let (_, ciphertext) = secretbox_encrypt(b"abc", &key);
    assert_eq!(ciphertext.len(), 3 + 16);
}

#[test]
fn secretbox_known_vector() {
    // Ciphertext of the NaCl secretbox with an all-zero key and nonce.
    let key = Key256::new([0u8; 32]);
    let nonce = Nonce24::new([0u8; 24]);
    let (_, ct) = secretbox_encrypt(b"", &key);
    assert_eq!(ct.len(), 16);
    let result = secretbox_decrypt(&nonce, &[0u8; 15], &key);
    assert!(matches!(result, Err(CryptoError::MacMismatch)));
}

#[test]
fn secretbox_roundtrip_many_lengths() {
    let key = generate_key();
    for len in [0usize, 1, 15, 16, 17, 63, 64, 65, 511] {
        let plaintext: Vec<u8> = (0..len).map(|i| (i * 7) as u8).collect();
        let (nonce, ciphertext) = secretbox_encrypt(&plaintext, &key);
        assert_eq!(secretbox_decrypt(&nonce, &ciphertext, &key).unwrap(), plaintext);
    }
}

// Stream.

#[test]
fn test_stream_roundtrip() {
    let key = generate_key();
    let plaintext = b"file data here";
    let (header, ciphertext) = stream_encrypt(plaintext, &key);
    let decrypted = stream_decrypt(&header, &ciphertext, &key).unwrap();
    assert_eq!(decrypted, plaintext);
}

#[test]
fn test_stream_mac_mismatch_on_tampered_ciphertext() {
    let key = generate_key();
    let plaintext = b"file data here";
    let (header, mut ciphertext) = stream_encrypt(plaintext, &key);
    if !ciphertext.is_empty() {
        ciphertext[0] ^= 0xFF;
    }
    let result = stream_decrypt(&header, &ciphertext, &key);
    assert!(matches!(result, Err(CryptoError::MacMismatch)));
}

#[test]
fn test_stream_wrong_key() {
    let key1 = generate_key();
    let key2 = generate_key();
    let plaintext = b"file data here";
    let (header, ciphertext) = stream_encrypt(plaintext, &key1);
    let result = stream_decrypt(&header, &ciphertext, &key2);
    assert!(matches!(result, Err(CryptoError::MacMismatch)));
}

#[test]
fn test_stream_empty_plaintext() {
    let key = generate_key();
    let plaintext: &[u8] = b"";
    let (header, ciphertext) = stream_encrypt(plaintext, &key);
    let decrypted = stream_decrypt(&header, &ciphertext, &key).unwrap();
    assert_eq!(decrypted, plaintext);
}

#[test]
fn stream_mac_mismatch_on_every_byte_flip() {
    let key = generate_key();
    let plaintext = b"some plaintext of moderate length";
    let (header, ciphertext) = stream_encrypt(plaintext, &key);
    for idx in 0..ciphertext.len() {
        let mut tampered = ciphertext.clone();
        tampered[idx] ^= 0xFF;
        assert!(matches!(stream_decrypt(&header, &tampered, &key), Err(CryptoError::MacMismatch)));
    }
}

#[test]
fn stream_roundtrip_many_lengths() {
    let key = generate_key();
    for len in [0usize, 1, 63, 64, 65, 200, 511] {
        let plaintext: Vec<u8> = (0..len).map(|i| (i * 13) as u8).collect();
        let (header, ciphertext) = stream_encrypt(&plaintext, &key);
        assert_eq!(ciphertext.len(), len + 16);
        assert_eq!(stream_decrypt(&header, &ciphertext, &key).unwrap(), plaintext);
    }
}

// Key derivation.

#[test]
fn test_derive_kek_produces_32_bytes() {
    let password = b"test password";
    let salt = Salt16::new([0u8; 16]);
    let profile = Argon2Profile::Interactive;
    let kek = derive_kek(password, &salt, profile).unwrap();
    assert_eq!(kek.as_bytes().len(), 32);
}

#[test]
fn test_derive_kek_deterministic() {
    let password = b"test password";
    let salt = Salt16::new([1u8; 16]);
    let profile = Argon2Profile::Interactive;
    let kek1 = derive_kek(password, &salt, profile).unwrap();
    let kek2 = derive_kek(password, &salt, profile).unwrap();
    assert_eq!(kek1.as_bytes(), kek2.as_bytes());
}

#[test]
fn test_derive_kek_different_passwords() {
    let salt = Salt16::new([0u8; 16]);
    let profile = Argon2Profile::Interactive;
    let kek1 = derive_kek(b"password1", &salt, profile).unwrap();
    let kek2 = derive_kek(b"password2", &salt, profile).unwrap();
    assert_ne!(kek1.as_bytes(), kek2.as_bytes());
}

#[test]
fn test_derive_kek_different_salts() {
    let password = b"test password";
    let profile = Argon2Profile::Interactive;
    let salt1 = Salt16::new([0u8; 16]);
    let salt2 = Salt16::new([1u8; 16]);
    let kek1 = derive_kek(password, &salt1, profile).unwrap();
    let kek2 = derive_kek(password, &salt2, profile).unwrap();
    assert_ne!(kek1.as_bytes(), kek2.as_bytes());
}

#[test]
fn derive_kek_matches_argon2id_at_profile_costs() {
    let password = b"test password";
    let salt = [7u8; 16];
    let kek = derive_kek(password, &Salt16::new(salt), Argon2Profile::Interactive).unwrap();
    let params = argon2::Params::new(65536, 2, 1, None).unwrap();
    let argon = argon2::Argon2::new(argon2::Algorithm::Argon2id, argon2::Version::V0x13, params);
    let mut expected = [0u8; 32];
    argon.hash_password_into(password, &salt, &mut expected).unwrap();
    assert_eq!(kek.as_bytes(), &expected);
}

#[test]
fn profile_costs() {
    assert_eq!(Argon2Profile::Interactive.mem_limit(), 64 * 1024 * 1024);
    assert_eq!(Argon2Profile::Interactive.ops_limit(), 2);
    assert_eq!(Argon2Profile::Moderate.mem_limit(), 256 * 1024 * 1024);
    assert_eq!(Argon2Profile::Moderate.ops_limit(), 3);
    assert_eq!(Argon2Profile::Sensitive.mem_limit(), 1024 * 1024 * 1024);
    assert_eq!(Argon2Profile::Sensitive.ops_limit(), 4);
}

#[test]
fn test_derive_verification_key_deterministic() {
    let kek = Key256::new([42u8; 32]);
    let vk1 = derive_verification_key(&kek);
    let vk2 = derive_verification_key(&kek);
    assert_eq!(vk1.as_bytes(), vk2.as_bytes());
}

#[test]
fn test_derive_verification_key_different_keys() {
    let kek1 = Key256::new([1u8; 32]);
    let kek2 = Key256::new([2u8; 32]);
    let vk1 = derive_verification_key(&kek1);
    let vk2 = derive_verification_key(&kek2);
    assert_ne!(vk1.as_bytes(), vk2.as_bytes());
}

#[test]
fn derive_verification_key_matches_keyed_blake2b() {
    let kek = Key256::new([42u8; 32]);
    let vk = derive_verification_key(&kek);
    let expected = blake2b_simd::Params::new()
        .hash_length(32)
        .key(&[42u8; 32])
        .personal(b"verification")
        .hash(b"")
        .as_bytes()
        .to_vec();
    assert_eq!(vk.as_bytes().to_vec(), expected);
}

#[test]
fn test_derive_subkey_deterministic() {
    let master = Key256::new([99u8; 32]);
    let sk1 = derive_subkey(&master, "file", 1);
    let sk2 = derive_subkey(&master, "file", 1);
    assert_eq!(sk1.as_bytes(), sk2.as_bytes());
}

#[test]
fn test_derive_subkey_different_contexts() {
    let master = Key256::new([99u8; 32]);
    let sk1 = derive_subkey(&master, "file", 1);
    let sk2 = derive_subkey(&master, "thumb", 1);
    assert_ne!(sk1.as_bytes(), sk2.as_bytes());
}

#[test]
fn test_derive_subkey_different_ids() {
    let master = Key256::new([99u8; 32]);
    let sk1 = derive_subkey(&master, "file", 1);
    let sk2 = derive_subkey(&master, "file", 2);
    assert_ne!(sk1.as_bytes(), sk2.as_bytes());
}

#[test]
fn derive_subkey_uses_first_eight_context_bytes() {
    let master = Key256::new([5u8; 32]);
    let a = derive_subkey(&master, "thumbnails", 3);
    let b = derive_subkey(&master, "thumbnai", 3);
    assert_eq!(a.as_bytes(), b.as_bytes());
    let expected = blake2b_simd::Params::new()
        .hash_length(32)
        .key(&[5u8; 32])
        .personal(b"thumbnai")
        .hash(&3u64.to_le_bytes())
        .as_bytes()
        .to_vec();
    assert_eq!(a.as_bytes().to_vec(), expected);
}

// Key wrapping.

#[test]
fn test_decrypt_key_roundtrip() {
    let plaintext = generate_key();
    let wrapping = generate_key();
    let encrypted = encrypt_key(&plaintext, &wrapping);
    let decrypted = decrypt_key(&encrypted, &wrapping).unwrap();
    assert_eq!(plaintext.as_bytes(), decrypted.as_bytes());
}

#[test]
fn test_decrypt_key_wrong_wrapping_key() {
    let plaintext = generate_key();
    let wrapping1 = generate_key();
    let wrapping2 = generate_key();
    let encrypted = encrypt_key(&plaintext, &wrapping1);
    let result = decrypt_key(&encrypted, &wrapping2);
    assert!(matches!(result, Err(CryptoError::MacMismatch)));
}

#[test]
fn test_encrypt_key_produces_encrypted_key() {
    let plaintext = generate_key();
    let wrapping = generate_key();
    let encrypted = encrypt_key(&plaintext, &wrapping);
    assert!(!encrypted.ciphertext.is_empty());
    assert_eq!(encrypted.ciphertext.len(), 48);
}

#[test]
fn decrypt_key_of_wrong_length_is_invalid_key() {
    let wrapping = generate_key();
    let (nonce, ciphertext) = secretbox_encrypt(&[1u8; 31], &wrapping);
    let encrypted = EncryptedKey { nonce, ciphertext };
    assert!(matches!(decrypt_key(&encrypted, &wrapping), Err(CryptoError::InvalidKey)));
}

#[test]
fn test_generate_key_produces_32_bytes() {
    let key = generate_key();
    assert_eq!(key.as_bytes().len(), 32);
}

#[test]
fn test_generate_key_produces_different_keys() {
    let key1 = generate_key();
    let key2 = generate_key();
    assert_ne!(key1.as_bytes(), key2.as_bytes());
}

// Sealed boxes.

#[test]
fn test_seal_open_roundtrip() {
    let (sk, pk) = generate_keypair();
    let plaintext = b"secret message";
    let sealed = seal(plaintext, &pk);
    let opened = open(&sealed, &sk).unwrap();
    assert_eq!(opened, plaintext);
}

#[test]
fn test_seal_open_wrong_key() {
    let (_sk1, pk1) = generate_keypair();
    let (sk2, _) = generate_keypair();
    let plaintext = b"secret message";
    let sealed = seal(plaintext, &pk1);
    let result = open(&sealed, &sk2);
    assert!(matches!(result, Err(CryptoError::MacMismatch)));
}

#[test]
fn test_seal_open_tampered_ciphertext() {
    let (sk, pk) = generate_keypair();
    let plaintext = b"secret message";
    let mut sealed = seal(plaintext, &pk);
    if sealed.len() > 56 {
        sealed[56] ^= 0xFF;
    }
    let result = open(&sealed, &sk);
    assert!(matches!(result, Err(CryptoError::MacMismatch)));
}

#[test]
fn test_seal_open_empty_plaintext() {
    let (sk, pk) = generate_keypair();
    let plaintext: &[u8] = b"";
    let sealed = seal(plaintext, &pk);
    let opened = open(&sealed, &sk).unwrap();
    assert_eq!(opened, plaintext);
}

#[test]
fn test_seal_open_too_short() {
    let (sk, _) = generate_keypair();
    let result = open(&[0u8; 10], &sk);
    assert!(matches!(result, Err(CryptoError::InvalidKey)));
}

#[test]
fn seal_layout_lengths() {
    let (_, pk) = generate_keypair();
    let sealed = seal(b"12345", &pk);
    assert_eq!(sealed.len(), 32 + 24 + 5 + 16);
}

#[test]
fn open_exactly_header_length_is_mac_mismatch() {
    let (sk, _) = generate_keypair();
    assert!(matches!(open(&[0u8; 56], &sk), Err(CryptoError::MacMismatch)));
}

#[test]
fn test_generate_keypair_produces_valid_pair() {
    let (secret, public) = generate_keypair();
    let recomputed = public_key_of(&secret);
    assert_eq!(public.to_bytes(), recomputed.to_bytes());
}

#[test]
fn test_generate_keypair_produces_different_pairs() {
    let (_, public1) = generate_keypair();
    let (_, public2) = generate_keypair();
    assert_ne!(public1.to_bytes(), public2.to_bytes());
}

#[test]
fn public_key_matches_x25519_dalek() {
    let (secret, public) = generate_keypair();
    let sk = x25519_dalek::StaticSecret::from(secret.to_bytes());
    let pk = x25519_dalek::PublicKey::from(&sk);
    assert_eq!(pk.to_bytes(), public.to_bytes());
}

#[test]
fn prop_sealed_box_roundtrip_lengths() {
    let (sk, pk) = generate_keypair();
    for len in [0usize, 1, 100, 511] {
        let plaintext: Vec<u8> = (0..len).map(|i| (i * 3) as u8).collect();
        let sealed = seal(&plaintext, &pk);
        assert_eq!(open(&sealed, &sk).unwrap(), plaintext);
    }
}

#[test]
fn derive_key_matches_argon2id_at_given_costs() {
    let salt = Salt16::new([9u8; 16]);
    let key = derive_key(b"password", &salt, 1 << 20, 2).unwrap();
    let params = argon2::Params::new(1024, 2, 1, None).unwrap();
    let argon = argon2::Argon2::new(argon2::Algorithm::Argon2id, argon2::Version::V0x13, params);
    let mut expected = [0u8; 32];
    argon.hash_password_into(b"password", &[9u8; 16], &mut expected).unwrap();
    assert_eq!(key.as_bytes(), &expected);
}

#[test]
fn derive_key_refuses_costs_argon2_refuses() {
    let salt = Salt16::new([9u8; 16]);
    assert!(matches!(derive_key(b"pw", &salt, 1 << 20, 0), Err(CryptoError::InvalidKey)));
    assert!(matches!(derive_key(b"pw", &salt, 4096, 1), Err(CryptoError::InvalidKey)));
    assert!(derive_key(b"pw", &salt, 8192, 1).is_ok());
}

#[test]
fn base64_decode_error_carries_the_decoder_message() {
    let expected = base64::engine::general_purpose::STANDARD.decode("a!b=").unwrap_err().to_string();
    match rey::crypto::util::base64_decode("a!b=") {
        Err(CryptoError::Base64Error(m)) => assert_eq!(m, expected),
        _ => panic!("expected a base64 error"),
    }
}
