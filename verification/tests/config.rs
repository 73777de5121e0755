use dodatok::config::{
    alphanum_token_length, bits_to_bytes, parse_same_site, ClientConfigInput, Config,
    ConfigInput, CookieConfigInput, CsrfConfigInput, DbConfigInput, DevConfig, DevConfigInput,
    RedisConfigInput, RememberTokenConfigInput, SameSite, SecurityConfigInput,
    SessionConfigInput, TotpConfigInput, UserConfigInput, WebSocketConfigInput,
};
use dodatok::db::{enum_variants, sanitize_db_identifier, Language, PasswordChangeReason, Permission};
use dodatok::util::TotpAlgorithm;

fn config_input() -> ConfigInput {
    ConfigInput {
        client: ClientConfigInput { origin: "https://example.org".to_string() },
        cookie: CookieConfigInput {
            path: "/".to_string(),
            same_site: "Strict".to_string(),
            secure: true,
        },
        csrf: CsrfConfigInput {
            cookie: "csrf".to_string(),
            cookie_lifetime: 3600,
            header: "X-Csrf-Token".to_string(),
            response_field: "csrf_token".to_string(),
            token_bits: 192,
        },
        db: DbConfigInput {
            user: "dodatok".to_string(),
            password: "secret".to_string(),
            dbname: "dodatok".to_string(),
            application_name: None,
            host: Some("localhost".to_string()),
            port: Some(5432),
        },
        dev: None,
        redis: RedisConfigInput {
            url: "redis://localhost".to_string(),
            key_separator: ":".to_string(),
        },
        remember_token: RememberTokenConfigInput {
            cookie: "remember".to_string(),
            cookie_lifetime: 86400,
            id_bits: 128,
            secret_bits: 256,
            separator: ":".to_string(),
        },
        security: SecurityConfigInput {
            aes_key: "000102030405060708090a0b0c0d0e0f101112131415161718191A1B1C1D1E1F".to_string(),
            argon2_time_cost: 1,
            argon2_memory_cost: 8,
            argon2_parallelism: 1,
            password_salt_bits: 128,
        },
        session: SessionConfigInput {
            cookie: "session".to_string(),
            id_bits: 256,
            lifetime: 1800,
            sudo_lifetime: 300,
        },
        totp: TotpConfigInput {
            algorithm: TotpAlgorithm::Sha1,
            digits: 6,
            key_length: 40,
            time_step: 30,
            time_window: 1,
        },
        user: UserConfigInput {
            id_bits: 128,
            icon_id_bits: 64,
            username_min_length: 1,
            username_max_length: 32,
            password_min_length: 8,
            password_max_length: 1024,
        },
        websocket: WebSocketConfigInput {
            channel_capacity: 16,
            connection_id_bits: 128,
            token_bits: 128,
            token_lifetime: 60,
        },
    }
}

fn settings() -> Config {
    let input = config_input();
    assert!(input.is_valid());
    Config::new(&input)
}


#[test]
fn token_length_covers_the_bits() {
    assert_eq!(alphanum_token_length(0), 0);
    assert_eq!(alphanum_token_length(1), 1);
    assert_eq!(alphanum_token_length(5), 1);
    assert_eq!(alphanum_token_length(6), 2);
    assert_eq!(alphanum_token_length(11), 2);
    assert_eq!(alphanum_token_length(12), 3);
    assert_eq!(alphanum_token_length(64), 11);
    assert_eq!(alphanum_token_length(128), 22);
    assert_eq!(alphanum_token_length(192), 33);
    assert_eq!(alphanum_token_length(256), 43);
    assert_eq!(alphanum_token_length(512), 86);
}

#[test]
fn token_length_is_the_logarithm_rounded_up() {
    for bits in [0u16, 1, 7, 8, 100, 127, 128, 129, 255, 1000, 4096] {
        let expected = (f64::from(bits) / 62f64.log2()).ceil() as u16;
        assert_eq!(alphanum_token_length(bits), expected);
    }
}

#[test]
fn bytes_of_bits() {
    assert_eq!(bits_to_bytes(0), 0);
    assert_eq!(bits_to_bytes(8), 1);
    assert_eq!(bits_to_bytes(128), 16);
    assert_eq!(bits_to_bytes(65528), 8191);
}

#[test]
fn same_site_words() {
    assert_eq!(parse_same_site("None"), Some(SameSite::Unrestricted));
    assert_eq!(parse_same_site("Lax"), Some(SameSite::Lax));
    assert_eq!(parse_same_site("Strict"), Some(SameSite::Strict));
    assert_eq!(parse_same_site("strict"), None);
    assert_eq!(parse_same_site(""), None);
}

#[test]
fn settings_are_derived_from_the_input() {
    let config = settings();
    assert_eq!(config.aes, (0u8..32).collect::<Vec<u8>>());
    assert_eq!(config.argon2.memory_cost, 8);
    assert_eq!(config.argon2.time_cost, 1);
    assert_eq!(config.argon2.parallelism, 1);
    assert_eq!(config.client.origin, "https://example.org");
    assert_eq!(config.cookie.path, "/");
    assert_eq!(config.cookie.same_site, SameSite::Strict);
    assert!(config.cookie.secure);
    assert_eq!(config.csrf.cookie, "csrf");
    assert_eq!(config.csrf.cookie_lifetime, 3600);
    assert_eq!(config.csrf.header, "X-Csrf-Token");
    assert_eq!(config.csrf.response_field, "csrf_token");
    assert_eq!(config.csrf.token_length, 33);
    assert_eq!(config.db.user, Some("dodatok".to_string()));
    assert_eq!(config.db.password, Some("secret".to_string()));
    assert_eq!(config.db.dbname, Some("dodatok".to_string()));
    assert_eq!(config.db.application_name, None);
    assert_eq!(config.db.host, Some("localhost".to_string()));
    assert_eq!(config.db.port, Some(5432));
    assert!(!config.dev.debug);
    assert!(!config.dev.testing);
    assert!(config.dev.init_db.is_none());
    assert_eq!(config.redis.url, "redis://localhost");
    assert_eq!(config.redis.key_separator, ":");
    assert_eq!(config.remember_token.cookie, "remember");
    assert_eq!(config.remember_token.cookie_lifetime, 86400);
    assert_eq!(config.remember_token.id_length, 22);
    assert_eq!(config.remember_token.secret_length, 43);
    assert_eq!(config.remember_token.separator, ":");
    assert_eq!(config.security.password_salt_bytes, 16);
    assert_eq!(config.session.cookie, "session");
    assert_eq!(config.session.id_length, 43);
    assert_eq!(config.session.lifetime, 1800);
    assert_eq!(config.session.sudo_lifetime, 300);
    assert_eq!(config.totp.algorithm, TotpAlgorithm::Sha1);
    assert_eq!(config.totp.digits, 6);
    assert_eq!(config.totp.key_length, 40);
    assert_eq!(config.totp.time_step, 30);
    assert_eq!(config.totp.time_window, 1);
    assert_eq!(config.user.id_length, 22);
    assert_eq!(config.user.icon_id_length, 11);
    assert_eq!(config.user.username_min_length, 1);
    assert_eq!(config.user.username_max_length, 32);
    assert_eq!(config.user.password_min_length, 8);
    assert_eq!(config.user.password_max_length, 1024);
    assert_eq!(config.websocket.channel_capacity, 16);
    assert_eq!(config.websocket.connection_id_length, 22);
    assert_eq!(config.websocket.token_length, 22);
    assert_eq!(config.websocket.token_lifetime, 60);
}

#[test]
fn development_settings_are_taken_over() {
    let mut input = config_input();
    input.dev = Some(DevConfigInput {
        debug: true,
        init_db: Some(DbConfigInput {
            user: "postgres".to_string(),
            password: "admin".to_string(),
            dbname: "postgres".to_string(),
            application_name: Some("setup".to_string()),
            host: None,
            port: None,
        }),
        testing: true,
    });
    let config = Config::new(&input);
    assert!(config.dev.debug);
    assert!(config.dev.testing);
    let init = config.dev.init_db.unwrap();
    assert_eq!(init.user, Some("postgres".to_string()));
    assert_eq!(init.application_name, Some("setup".to_string()));
    assert_eq!(init.host, None);
    let default = DevConfig::default();
    assert!(!default.debug && !default.testing && default.init_db.is_none());
    let default = DevConfigInput::default();
    assert!(!default.debug && !default.testing && default.init_db.is_none());
}

#[test]
fn unusable_settings_are_told_apart() {
    assert!(config_input().is_valid());
    let broken = |change: fn(&mut ConfigInput)| {
        let mut input = config_input();
        change(&mut input);
        input.is_valid()
    };
    assert!(!broken(|i| i.security.aes_key = "00".to_string()));
    assert!(!broken(|i| i.security.aes_key = "zz".repeat(32)));
    assert!(!broken(|i| i.security.aes_key.push('0')));
    assert!(!broken(|i| i.security.aes_key = "é".repeat(32)));
    assert!(broken(|i| i.security.aes_key = "AbCdEf09".repeat(8)));
    assert!(!broken(|i| i.security.argon2_memory_cost = 7));
    assert!(!broken(|i| i.security.argon2_time_cost = 0));
    assert!(!broken(|i| i.security.argon2_parallelism = 2));
    assert!(!broken(|i| i.client.origin = "https://example.org\n".to_string()));
    assert!(!broken(|i| i.client.origin = "a\u{7f}".to_string()));
    assert!(broken(|i| i.client.origin = "tab\tand caf\u{e9}".to_string()));
    assert!(!broken(|i| i.cookie.same_site = "lax".to_string()));
    assert!(broken(|i| i.cookie.same_site = "None".to_string()));
    assert!(!broken(|i| i.security.password_salt_bits = 12));
    assert!(!broken(|i| i.totp.time_step = 0));
    assert!(!broken(|i| i.totp.digits = 20));
    assert!(broken(|i| i.totp.digits = 19));
}

#[test]
fn enumerated_types_of_the_store() {
    assert_eq!(Language::variants(), vec!["en-US".to_string(), "fi".to_string()]);
    assert_eq!(
        PasswordChangeReason::variants(),
        vec!["remember_token_compromise".to_string()]
    );
    assert_eq!(
        Permission::variants(),
        vec![
            "view_user".to_string(),
            "edit_user".to_string(),
            "delete_user".to_string(),
            "ignore_rate_limits".to_string()
        ]
    );
    assert_eq!(Language::fi.name(), "fi");
    assert_eq!(Permission::IgnoreRateLimits.name(), "ignore_rate_limits");
    assert_eq!(enum_variants(Language::variants()), "'en-US', 'fi'");
    assert_eq!(
        enum_variants(PasswordChangeReason::variants()),
        "'remember_token_compromise'"
    );
    assert_eq!(enum_variants(vec![]), "");
    assert_eq!(
        enum_variants(Permission::variants()),
        "'view_user', 'edit_user', 'delete_user', 'ignore_rate_limits'"
    );
}

#[test]
fn identifiers_are_made_safe() {
    assert_eq!(sanitize_db_identifier("users"), "users");
    assert_eq!(sanitize_db_identifier("we\"ird"), "we\"\"ird");
    assert_eq!(sanitize_db_identifier("\"\""), "\"\"\"\"");
    assert_eq!(sanitize_db_identifier(""), "");
}
