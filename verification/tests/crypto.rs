use dodatok::config::{
    ClientConfigInput, Config, ConfigInput, CookieConfigInput, CsrfConfigInput, DbConfigInput,
    RedisConfigInput, RememberTokenConfigInput, SecurityConfigInput, SessionConfigInput,
    TotpConfigInput, UserConfigInput, WebSocketConfigInput,
};
use dodatok::util::{
    base64_urlsafe, decrypt, encrypt, encrypt_with_nonce, generate_token, generate_totp,
    generate_totp_key, hash, hash_encrypt_password, hash_encrypt_password_with, make_argon2,
    redis_join, utc_now, verify_password, verify_totp, verify_totp_at, TotpAlgorithm,
    VerifyTotpError,
};

fn config_input() -> ConfigInput {
    ConfigInput {
        client: ClientConfigInput { origin: "https://example.org".to_string() },
        cookie: CookieConfigInput {
            path: "/".to_string(),
            same_site: "Strict".to_string(),
            secure: true,
        },
        csrf: CsrfConfigInput {
            cookie: "csrf".to_string(),
            cookie_lifetime: 3600,
            header: "X-Csrf-Token".to_string(),
            response_field: "csrf_token".to_string(),
            token_bits: 192,
        },
        db: DbConfigInput {
            user: "dodatok".to_string(),
            password: "secret".to_string(),
            dbname: "dodatok".to_string(),
            application_name: None,
            host: Some("localhost".to_string()),
            port: Some(5432),
        },
        dev: None,
        redis: RedisConfigInput {
            url: "redis://localhost".to_string(),
            key_separator: ":".to_string(),
        },
        remember_token: RememberTokenConfigInput {
            cookie: "remember".to_string(),
            cookie_lifetime: 86400,
            id_bits: 128,
            secret_bits: 256,
            separator: ":".to_string(),
        },
        security: SecurityConfigInput {
            aes_key: "000102030405060708090a0b0c0d0e0f101112131415161718191A1B1C1D1E1F".to_string(),
            argon2_time_cost: 1,
            argon2_memory_cost: 8,
            argon2_parallelism: 1,
            password_salt_bits: 128,
        },
        session: SessionConfigInput {
            cookie: "session".to_string(),
            id_bits: 256,
            lifetime: 1800,
            sudo_lifetime: 300,
        },
        totp: TotpConfigInput {
            algorithm: TotpAlgorithm::Sha1,
            digits: 6,
            key_length: 40,
            time_step: 30,
            time_window: 1,
        },
        user: UserConfigInput {
            id_bits: 128,
            icon_id_bits: 64,
            username_min_length: 1,
            username_max_length: 32,
            password_min_length: 8,
            password_max_length: 1024,
        },
        websocket: WebSocketConfigInput {
            channel_capacity: 16,
            connection_id_bits: 128,
            token_bits: 128,
            token_lifetime: 60,
        },
    }
}

fn settings() -> Config {
    let input = config_input();
    assert!(input.is_valid());
    Config::new(&input)
}


fn debug_config() -> Config {
    let mut config = settings();
    config.dev.debug = true;
    config
}

#[test]
fn generated_token_has_requested_length() {
    for length in [0u16, 1, 22, 43, 300] {
        let token = generate_token(length);
        assert_eq!(token.chars().count(), length as usize);
        assert!(token.chars().all(|c| c.is_ascii_alphanumeric()));
    }
}

#[test]
fn generated_tokens_differ() {
    assert_ne!(generate_token(43), generate_token(43));
}

#[test]
fn hash_is_blake3_of_the_text() {
    let digest = hash("");
    assert_eq!(digest.len(), 32);
    assert_eq!(
        digest,
        vec![
            0xaf, 0x13, 0x49, 0xb9, 0xf5, 0xf9, 0xa1, 0xa6, 0xa0, 0x40, 0x4d, 0xea, 0x36, 0xdc,
            0xc9, 0x49, 0x9b, 0xcb, 0x25, 0xc9, 0xad, 0xc1, 0x12, 0xb7, 0xcc, 0x9a, 0x93, 0xca,
            0xe4, 0x1f, 0x32, 0x62
        ]
    );
    assert_ne!(hash("a"), hash("b"));
    assert_eq!(hash("session"), hash("session"));
}

#[test]
fn base64_is_url_safe_without_padding() {
    assert_eq!(base64_urlsafe(&[]), "");
    assert_eq!(base64_urlsafe(b"f"), "Zg");
    assert_eq!(base64_urlsafe(b"fo"), "Zm8");
    assert_eq!(base64_urlsafe(b"foo"), "Zm9v");
    assert_eq!(base64_urlsafe(&[0xfb, 0xff]), "-_8");
}

#[test]
fn decrypt_recovers_what_encrypt_sealed() {
    let config = settings();
    for plaintext in [&b""[..], &b"a"[..], &b"the quick brown fox"[..], &[0u8; 1000][..]] {
        let blob = encrypt(plaintext, &config).unwrap();
        assert_eq!(blob.len(), plaintext.len() + 16 + 12);
        assert_eq!(decrypt(&blob, &config).unwrap(), plaintext.to_vec());
    }
}

#[test]
fn encrypt_draws_a_fresh_nonce() {
    let config = settings();
    let first = encrypt(b"same", &config).unwrap();
    let second = encrypt(b"same", &config).unwrap();
    assert_ne!(first, second);
    assert_ne!(first[first.len() - 12..], second[second.len() - 12..]);
}

#[test]
fn encrypt_with_nonce_appends_the_nonce() {
    let config = settings();
    let nonce = [7u8; 12];
    let blob = encrypt_with_nonce(b"payload", &nonce, &config).unwrap();
    assert_eq!(&blob[blob.len() - 12..], &nonce[..]);
    assert_ne!(&blob[..7], b"payload");
    assert_eq!(blob, encrypt_with_nonce(b"payload", &nonce, &config).unwrap());
    assert_eq!(decrypt(&blob, &config).unwrap(), b"payload".to_vec());
}

#[test]
fn tampered_blob_does_not_decrypt() {
    let config = settings();
    let blob = encrypt(b"attack at dawn", &config).unwrap();
    for position in 0..blob.len() {
        let mut tampered = blob.clone();
        tampered[position] ^= 1;
        assert!(decrypt(&tampered, &config).is_err());
    }
}

#[test]
fn short_blob_does_not_decrypt() {
    let config = settings();
    assert!(decrypt(&[], &config).is_err());
    assert!(decrypt(&[0u8; 11], &config).is_err());
    assert!(decrypt(&[0u8; 12], &config).is_err());
    assert!(decrypt(&[0u8; 27], &config).is_err());
}

#[test]
fn blob_of_another_key_does_not_decrypt() {
    let config = settings();
    let mut other = config_input();
    other.security.aes_key =
        "ff0102030405060708090a0b0c0d0e0f101112131415161718191a1b1c1d1e1f".to_string();
    let other = Config::new(&other);
    let blob = encrypt(b"secret", &config).unwrap();
    assert!(decrypt(&blob, &other).is_err());
}

#[test]
fn debug_mode_leaves_data_in_the_clear() {
    let config = debug_config();
    assert_eq!(encrypt(b"plain", &config).unwrap(), b"plain".to_vec());
    assert_eq!(decrypt(b"plain", &config).unwrap(), b"plain".to_vec());
    assert_eq!(decrypt(b"", &config).unwrap(), Vec::<u8>::new());
}

#[test]
fn argon2_costs_are_checked() {
    assert!(make_argon2(8, 1, 1).is_ok());
    assert!(make_argon2(4096, 3, 1).is_ok());
    assert!(make_argon2(7, 1, 1).is_err());
    assert!(make_argon2(8, 0, 1).is_err());
    assert!(make_argon2(8, 1, 0).is_err());
    assert!(make_argon2(15, 1, 2).is_err());
    assert!(make_argon2(16, 1, 2).is_ok());
    assert!(make_argon2(0x1000_0000, 1, 1).is_err());
    let params = make_argon2(64, 2, 3).unwrap();
    assert_eq!(params.memory_cost, 64);
    assert_eq!(params.time_cost, 2);
    assert_eq!(params.parallelism, 3);
}

#[test]
fn hashed_password_verifies() {
    let config = settings();
    let envelope = hash_encrypt_password("AAAA", &config).unwrap();
    assert_eq!(verify_password("AAAA", &envelope, &config), Ok(true));
    assert_eq!(verify_password("AAAa", &envelope, &config), Ok(false));
    assert_eq!(verify_password("", &envelope, &config), Ok(false));
}

#[test]
fn hashed_password_is_salted() {
    let config = debug_config();
    let first = hash_encrypt_password("password", &config).unwrap();
    let second = hash_encrypt_password("password", &config).unwrap();
    assert_ne!(first, second);
    let text = String::from_utf8(first).unwrap();
    assert!(text.starts_with("$argon2id$v=19$m=8,t=1,p=1$"));
}

#[test]
fn hashed_password_with_given_salt_and_nonce() {
    let config = settings();
    let salt = [1u8; 16];
    let nonce = [2u8; 12];
    let first = hash_encrypt_password_with("password", &salt, &nonce, &config).unwrap();
    let second = hash_encrypt_password_with("password", &salt, &nonce, &config).unwrap();
    assert_eq!(first, second);
    assert_eq!(verify_password("password", &first, &config), Ok(true));
    assert!(hash_encrypt_password_with("password", &[1u8; 2], &nonce, &config).is_err());
}

#[test]
fn unreadable_password_envelope_is_an_error() {
    let config = settings();
    assert!(verify_password("a", &[0u8; 40], &config).is_err());
    let debug = debug_config();
    assert!(verify_password("a", &[0xff, 0xfe], &debug).is_err());
    assert!(verify_password("a", b"not a hash", &debug).is_err());
}

#[test]
fn totp_matches_reference_values() {
    let mut config = settings();
    config.totp.digits = 8;
    let key = b"12345678901234567890";
    assert_eq!(generate_totp(key, 59, &config), "94287082");
    assert_eq!(generate_totp(key, 1111111109, &config), "07081804");
    assert_eq!(generate_totp(key, 1234567890, &config), "89005924");
    config.totp.algorithm = TotpAlgorithm::Sha256;
    assert_eq!(generate_totp(b"12345678901234567890123456789012", 59, &config), "46119246");
    config.totp.algorithm = TotpAlgorithm::Sha512;
    assert_eq!(
        generate_totp(
            b"1234567890123456789012345678901234567890123456789012345678901234",
            59,
            &config
        ),
        "90693936"
    );
}

#[test]
fn totp_is_the_same_within_a_time_step() {
    let config = settings();
    let key = b"aaaa";
    assert_eq!(generate_totp(key, 60, &config), generate_totp(key, 89, &config));
    assert_ne!(generate_totp(key, 60, &config), generate_totp(key, 90, &config));
}

#[test]
fn totp_key_has_configured_length() {
    let config = settings();
    let key = generate_totp_key(&config);
    assert_eq!(key.len(), 40);
    assert!(key.iter().all(|b| b.is_ascii_alphanumeric()));
}

#[test]
fn current_totp_verifies() {
    let config = settings();
    let key = b"12345678901234567890";
    let now: i64 = 1_700_000_015;
    let code = generate_totp(key, now as u64, &config);
    assert!(matches!(verify_totp_at(key, &code, now, &config), Ok(step) if step == now / 30));
    let earlier = generate_totp(key, (now - 5) as u64, &config);
    assert!(matches!(verify_totp_at(key, &earlier, now, &config), Ok(step) if step == now / 30));
}

#[test]
fn totp_of_adjacent_steps_verifies_within_the_window() {
    let config = settings();
    let key = b"12345678901234567890";
    let now: i64 = 1_700_000_015;
    let before = generate_totp(key, (now - 30) as u64, &config);
    let after = generate_totp(key, (now + 30) as u64, &config);
    assert!(
        matches!(verify_totp_at(key, &before, now, &config), Ok(step) if step == now / 30 - 1)
    );
    assert!(matches!(verify_totp_at(key, &after, now, &config), Ok(step) if step == now / 30 + 1));
}

#[test]
fn totp_outside_the_window_is_invalid() {
    let config = settings();
    let key = b"12345678901234567890";
    let now: i64 = 1_700_000_015;
    let inside = [
        generate_totp(key, (now - 30) as u64, &config),
        generate_totp(key, now as u64, &config),
        generate_totp(key, (now + 30) as u64, &config),
    ];
    for offset in [-90i64, -60, 60, 90] {
        let code = generate_totp(key, (now + offset) as u64, &config);
        if inside.contains(&code) {
            continue;
        }
        assert!(matches!(
            verify_totp_at(key, &code, now, &config),
            Err(VerifyTotpError::InvalidTotp)
        ));
    }
    assert!(matches!(
        verify_totp_at(key, "not a code", now, &config),
        Err(VerifyTotpError::InvalidTotp)
    ));
}

#[test]
fn zero_window_accepts_the_current_step_only() {
    let mut config = settings();
    config.totp.time_window = 0;
    let key = b"12345678901234567890";
    let now: i64 = 1_700_000_015;
    let current = generate_totp(key, now as u64, &config);
    let before = generate_totp(key, (now - 30) as u64, &config);
    assert!(verify_totp_at(key, &current, now, &config).is_ok());
    if before != current {
        assert!(matches!(
            verify_totp_at(key, &before, now, &config),
            Err(VerifyTotpError::InvalidTotp)
        ));
    }
}

#[test]
fn totp_before_the_epoch_is_an_internal_error() {
    let config = settings();
    let key = b"12345678901234567890";
    assert!(matches!(
        verify_totp_at(key, "000000", -1, &config),
        Err(VerifyTotpError::InternalError(_))
    ));
    let code = generate_totp(key, 10, &config);
    assert!(matches!(verify_totp_at(key, &code, 10, &config), Ok(0)));
    let other = generate_totp(key, 40, &config);
    if other != code {
        assert!(matches!(
            verify_totp_at(key, "xxxxxx", 10, &config),
            Err(VerifyTotpError::InternalError(_))
        ));
    }
}

#[test]
fn totp_verifies_at_the_current_time() {
    let config = settings();
    let key = b"12345678901234567890";
    let now = utc_now();
    assert!(now > 1_600_000_000);
    let code = generate_totp(key, now as u64, &config);
    assert!(verify_totp(key, &code, &config).is_ok());
}

#[test]
fn redis_keys_are_joined_by_the_separator() {
    let mut config = settings();
    assert_eq!(redis_join(&["websocket-token", "account", "abc"], &config), "websocket-token:account:abc");
    assert_eq!(redis_join(&["one"], &config), "one");
    assert_eq!(redis_join(&[], &config), "");
    config.redis.key_separator = "--".to_string();
    assert_eq!(redis_join(&["a", "b"], &config), "a--b");
}
