use dodatok::config::{
    ClientConfigInput, Config, ConfigInput, CookieConfigInput, CsrfConfigInput, DbConfigInput,
    RedisConfigInput, RememberTokenConfigInput, SameSite, SecurityConfigInput,
    SessionConfigInput, TotpConfigInput, UserConfigInput, WebSocketConfigInput,
};
use dodatok::db::{DbOp, Language, PasswordChangeReason, Permission, RowCount, UserRow};
use dodatok::error::{
    error_handler, AppError, AuthErrorKind, AuthWarningKind, CsrfError, CsrfErrorKind,
};
use dodatok::memory_store::MemoryStore;
use dodatok::middleware::{
    csrf_error, csrf_error_with, AuthRequired, AuthRequiredOptions, Csrf, CsrfHeader,
    ALLOW_PASSWORD_CHANGE_REASON, WITH_ICON, WITH_LOCALE, WITH_PASSWORD_CHANGE_REASON,
    WITH_PERMISSIONS, WITH_SUDO_UNTIL, WITH_TOTP_STATUS, WITH_USERNAME,
};
use dodatok::routes::auth::{
    get_csrf_token, get_csrf_token_with, login, login_session_check, login_with, logout,
    logout_all_sessions, restore_session, restore_session_with_tokens, LoginData,
};
use dodatok::util::{
    encrypt, generate_totp, get_session, hash, hash_encrypt_password, remember_token_key,
    restore_session as restore, restore_session_with, split_remember_cookie, Cookie, FreshTokens,
    RestoreSessionError, Session, SessionError, SessionRow, TotpAlgorithm,
};

fn config_input() -> ConfigInput {
    ConfigInput {
        client: ClientConfigInput { origin: "https://example.org".to_string() },
        cookie: CookieConfigInput {
            path: "/".to_string(),
            same_site: "Strict".to_string(),
            secure: true,
        },
        csrf: CsrfConfigInput {
            cookie: "csrf".to_string(),
            cookie_lifetime: 3600,
            header: "X-Csrf-Token".to_string(),
            response_field: "csrf_token".to_string(),
            token_bits: 192,
        },
        db: DbConfigInput {
            user: "dodatok".to_string(),
            password: "secret".to_string(),
            dbname: "dodatok".to_string(),
            application_name: None,
            host: Some("localhost".to_string()),
            port: Some(5432),
        },
        dev: None,
        redis: RedisConfigInput {
            url: "redis://localhost".to_string(),
            key_separator: ":".to_string(),
        },
        remember_token: RememberTokenConfigInput {
            cookie: "remember".to_string(),
            cookie_lifetime: 86400,
            id_bits: 128,
            secret_bits: 256,
            separator: ":".to_string(),
        },
        security: SecurityConfigInput {
            aes_key: "000102030405060708090a0b0c0d0e0f101112131415161718191A1B1C1D1E1F".to_string(),
            argon2_time_cost: 1,
            argon2_memory_cost: 8,
            argon2_parallelism: 1,
            password_salt_bits: 128,
        },
        session: SessionConfigInput {
            cookie: "session".to_string(),
            id_bits: 256,
            lifetime: 1800,
            sudo_lifetime: 300,
        },
        totp: TotpConfigInput {
            algorithm: TotpAlgorithm::Sha1,
            digits: 6,
            key_length: 40,
            time_step: 30,
            time_window: 1,
        },
        user: UserConfigInput {
            id_bits: 128,
            icon_id_bits: 64,
            username_min_length: 1,
            username_max_length: 32,
            password_min_length: 8,
            password_max_length: 1024,
        },
        websocket: WebSocketConfigInput {
            channel_capacity: 16,
            connection_id_bits: 128,
            token_bits: 128,
            token_lifetime: 60,
        },
    }
}

fn settings() -> Config {
    let input = config_input();
    assert!(input.is_valid());
    Config::new(&input)
}


const NOW: i64 = 1_700_000_015;

const TOTP_KEY: &[u8] = b"12345678901234567890";

fn user(name: &str, password: &str, totp: bool, config: &Config) -> UserRow {
    UserRow {
        id: format!("id-of-{}", name),
        active: true,
        username: name.to_string(),
        password: hash_encrypt_password(password, config).unwrap(),
        totp_key: if totp { Some(encrypt(TOTP_KEY, config).unwrap()) } else { None },
        last_totp_time_step: None,
        password_change_reason: None,
        icon: None,
        language: Language::en_US,
    }
}

fn store(config: &Config) -> MemoryStore {
    let mut store = MemoryStore::new();
    store.users.push(user("alice", "correct horse", false, config));
    store.users.push(user("bob", "battery staple", true, config));
    store
}

fn login_data(username: &str, password: &str, totp: Option<&str>, remember: bool) -> LoginData {
    LoginData {
        username: username.to_string(),
        password: password.to_string(),
        totp: totp.map(|t| t.to_string()),
        remember,
    }
}

fn cookie<'a>(cookies: &'a [Cookie], name: &str) -> Option<&'a Cookie> {
    cookies.iter().find(|c| c.name == name)
}

fn auth_kind(error: &AppError) -> AuthErrorKind {
    match error {
        AppError::Auth(e) => e.kind(),
        _ => panic!("not an authentication error"),
    }
}

fn no_session() -> Result<Session, SessionError> {
    Err(SessionError::NoCookie)
}

#[test]
fn session_states() {
    assert!(matches!(get_session(None, None, NOW), Err(SessionError::NoCookie)));
    assert!(matches!(get_session(Some("id"), None, NOW), Err(SessionError::InvalidSession)));
    let row = |expires| Some(SessionRow { csrf_token: "token".to_string(), expires });
    assert!(matches!(
        get_session(Some("id"), row(NOW - 1), NOW),
        Err(SessionError::ExpiredSession)
    ));
    assert!(matches!(get_session(Some("id"), row(NOW), NOW), Ok(s) if s.csrf_token == "token"));
    assert!(matches!(get_session(Some("id"), row(NOW + 1), NOW), Ok(_)));
    assert!(matches!(get_session(None, row(NOW + 1), NOW), Err(SessionError::NoCookie)));
}

#[test]
fn csrf_check_accepts_matching_tokens() {
    let check = Csrf::new(settings());
    let header = CsrfHeader::Value("token".to_string());
    assert!(check.check(Some("token"), &header).is_ok());
}

#[test]
fn csrf_check_refuses_everything_else() {
    let check = Csrf::new(settings());
    let kind = |cookie: Option<&str>, header: CsrfHeader| match check.check(cookie, &header) {
        Ok(()) => panic!("accepted"),
        Err(e) => {
            assert!(e.data().is_none());
            e.kind()
        }
    };
    let value = |v: &str| CsrfHeader::Value(v.to_string());
    assert_eq!(kind(None, value("token")), CsrfErrorKind::MissingCookie);
    assert_eq!(kind(None, CsrfHeader::Missing), CsrfErrorKind::MissingCookie);
    assert_eq!(kind(Some("token"), CsrfHeader::Missing), CsrfErrorKind::MissingHeader);
    assert_eq!(kind(Some("token"), CsrfHeader::Unreadable), CsrfErrorKind::InvalidHeader);
    assert_eq!(kind(Some("token"), value("Token")), CsrfErrorKind::Mismatch);
    assert_eq!(kind(Some("token"), value("token ")), CsrfErrorKind::Mismatch);
    assert_eq!(kind(Some("token"), value("")), CsrfErrorKind::Mismatch);
}

#[test]
fn failed_csrf_check_hands_out_a_token() {
    let config = settings();
    for kind in [
        CsrfErrorKind::MissingCookie,
        CsrfErrorKind::MissingHeader,
        CsrfErrorKind::InvalidHeader,
        CsrfErrorKind::Mismatch,
    ] {
        let error = csrf_error(CsrfError::of(kind, None), no_session(), &config).unwrap();
        assert_eq!(error.kind(), kind);
        let res = error.as_response();
        assert_eq!(res.status, 400);
        let (field, token) = res.body.csrf_token.clone().unwrap();
        assert_eq!(field, "csrf_token");
        assert_eq!(token.len(), 33);
        assert!(token.chars().all(|c| c.is_ascii_alphanumeric()));
        assert_eq!(res.cookies.len(), 1);
        assert_eq!(res.cookies[0].name, "csrf");
        assert_eq!(res.cookies[0].value, token);
        assert_eq!(res.cookies[0].max_age, Some(3600));
    }
}

#[test]
fn failed_csrf_check_keeps_the_token_of_a_live_session() {
    let config = settings();
    let session = Ok(Session { csrf_token: "the-session-token".to_string() });
    let error =
        csrf_error_with(CsrfError::Mismatch(None), session, "fresh".to_string(), &config).unwrap();
    let data = error.data().unwrap();
    assert_eq!(data.csrf_token, Some(("csrf_token".to_string(), "the-session-token".to_string())));
    assert_eq!(data.cookies.len(), 1);
    assert_eq!(data.cookies[0].value, "the-session-token");
}

#[test]
fn failed_csrf_check_clears_a_dead_session_cookie() {
    let config = settings();
    for session in [SessionError::ExpiredSession, SessionError::InvalidSession] {
        let error = csrf_error_with(
            CsrfError::MissingHeader(None),
            Err(session),
            "fresh".to_string(),
            &config,
        )
        .unwrap();
        let data = error.data().unwrap();
        assert_eq!(data.csrf_token, Some(("csrf_token".to_string(), "fresh".to_string())));
        assert_eq!(data.cookies.len(), 2);
        assert_eq!(data.cookies[0].name, "session");
        assert_eq!(data.cookies[0].value, "");
        assert_eq!(data.cookies[0].max_age, Some(0));
        assert_eq!(data.cookies[1].name, "csrf");
        assert_eq!(data.cookies[1].value, "fresh");
    }
    let failed = csrf_error_with(
        CsrfError::MissingHeader(None),
        Err(SessionError::InternalError(dodatok::error::InternalError)),
        "fresh".to_string(),
        &config,
    );
    assert!(failed.is_err());
}

#[test]
fn login_without_csrf_cookie_is_refused_with_a_token() {
    let config = settings();
    let check = Csrf::new(settings());
    let refused = check.check(None, &CsrfHeader::Missing).unwrap_err();
    let error = csrf_error(refused, no_session(), &config).unwrap();
    let res = error_handler(AppError::Csrf(error));
    assert_eq!(res.status, 400);
    assert_eq!(res.body.errors.len(), 1);
    assert_eq!(res.body.errors[0].source, "csrf");
    assert_eq!(res.body.errors[0].id, "missing-cookie");
    assert_eq!(res.body.errors[0].details, None);
    let (field, token) = res.body.csrf_token.unwrap();
    assert_eq!(field, "csrf_token");
    assert_eq!(token.len(), 33);
    assert_eq!(res.cookies.len(), 1);
    assert_eq!(res.cookies[0].name, "csrf");
    assert!(res.cookies[0].http_only);
    assert_eq!(res.cookies[0].path, "/");
    assert_eq!(res.cookies[0].same_site, SameSite::Strict);
    assert!(res.cookies[0].secure);
}

#[test]
fn csrf_token_endpoint() {
    let config = settings();
    let res = get_csrf_token(no_session(), &config).unwrap();
    assert_eq!(res.status, 200);
    assert_eq!(res.body.field, "csrf_token");
    assert_eq!(res.body.token.len(), 33);
    assert_eq!(res.cookies.len(), 1);
    assert_eq!(res.cookies[0].value, res.body.token);

    let live = Ok(Session { csrf_token: "live".to_string() });
    let res = get_csrf_token_with(live, "fresh".to_string(), &config).unwrap();
    assert_eq!(res.body.token, "live");
    assert_eq!(res.cookies.len(), 1);

    let res =
        get_csrf_token_with(Err(SessionError::ExpiredSession), "fresh".to_string(), &config)
            .unwrap();
    assert_eq!(res.body.token, "fresh");
    assert_eq!(res.cookies.len(), 2);
    assert_eq!(res.cookies[0].name, "csrf");
    assert_eq!(res.cookies[1].name, "session");
    assert_eq!(res.cookies[1].max_age, Some(0));
}

#[test]
fn login_is_refused_when_logged_in() {
    let live = Ok(Session { csrf_token: "live".to_string() });
    let error = login_session_check(live).unwrap_err();
    assert_eq!(auth_kind(&error), AuthErrorKind::AlreadyLoggedIn);
    assert!(matches!(login_session_check(no_session()), Ok(false)));
    assert!(matches!(login_session_check(Err(SessionError::ExpiredSession)), Ok(true)));
    assert!(matches!(login_session_check(Err(SessionError::InvalidSession)), Ok(true)));
}

#[test]
fn login_without_totp_key() {
    let config = settings();
    let mut store = store(&config);
    let row = store.user_by_name("Alice");
    assert!(row.is_some());
    let plan = login(login_data("Alice", "correct horse", None, false), row, false, NOW, &config);
    let res = plan.outcome.ok().unwrap();
    assert_eq!(res.status, 200);
    assert_eq!(res.cookies.len(), 2);
    let session = cookie(&res.cookies, "session").unwrap();
    assert_eq!(session.value.len(), 43);
    assert_eq!(session.max_age, None);
    let csrf = cookie(&res.cookies, "csrf").unwrap();
    assert_eq!(csrf.value, res.body.csrf_token);
    assert_eq!(csrf.max_age, Some(3600));
    assert!(!res.body.data.totp_enabled);
    assert_eq!(res.body.data.username, "alice");
    assert_eq!(res.body.data.id, "id-of-alice");
    assert_eq!(res.body.sudo_until, NOW + 300);
    assert!(res.body.warnings.is_empty());
    assert_eq!(plan.writes.len(), 1);
    assert!(store.transact(&plan.writes).is_ok());

    let found = store.session(&hash(&session.value));
    let live = get_session(Some(&session.value), found, NOW + 1799).ok().unwrap();
    assert_eq!(live.csrf_token, res.body.csrf_token);
    let found = store.session(&hash(&session.value));
    assert!(matches!(
        get_session(Some(&session.value), found, NOW + 1801),
        Err(SessionError::ExpiredSession)
    ));
    assert!(store.session(session.value.as_bytes()).is_none());
}

#[test]
fn login_with_wrong_credentials() {
    let config = settings();
    let store = store(&config);
    let plan = login(
        login_data("alice", "wrong", None, false),
        store.user_by_name("alice"),
        true,
        NOW,
        &config,
    );
    assert!(plan.writes.is_empty());
    let error = plan.outcome.err().unwrap();
    assert_eq!(auth_kind(&error), AuthErrorKind::InvalidCredentials);
    let res = error_handler(error);
    assert_eq!(res.status, 400);
    assert_eq!(res.body.errors[0].source, "auth");
    assert_eq!(res.body.errors[0].id, "invalid-credentials");
    assert_eq!(res.cookies.len(), 1);
    assert_eq!(res.cookies[0].name, "session");
    assert_eq!(res.cookies[0].max_age, Some(0));

    let unknown = store.user_by_name("carol");
    assert!(unknown.is_none());
    let plan = login(login_data("carol", "wrong", None, false), unknown, false, NOW, &config);
    let error = plan.outcome.err().unwrap();
    assert_eq!(auth_kind(&error), AuthErrorKind::InvalidCredentials);
    let res = error_handler(error);
    assert_eq!(res.status, 400);
    assert_eq!(res.body.errors[0].id, "invalid-credentials");
    assert!(res.cookies.is_empty());
}

#[test]
fn login_with_unused_totp_warns() {
    let config = settings();
    let store = store(&config);
    let plan = login(
        login_data("alice", "correct horse", Some("123456"), false),
        store.user_by_name("alice"),
        false,
        NOW,
        &config,
    );
    let res = plan.outcome.ok().unwrap();
    assert!(!res.body.data.totp_enabled);
    assert_eq!(res.body.warnings.len(), 1);
    assert_eq!(res.body.warnings[0].kind(), AuthWarningKind::UnusedTotp);
    let alert = res.body.warnings[0].to_alert();
    assert_eq!(alert.source, "auth");
    assert_eq!(alert.id, "unused-totp");
}

#[test]
fn login_of_disabled_account() {
    let config = settings();
    let mut store = store(&config);
    store.users[0].active = false;
    let plan = login(
        login_data("alice", "correct horse", None, true),
        store.user_by_name("alice"),
        false,
        NOW,
        &config,
    );
    assert!(plan.writes.is_empty());
    let error = plan.outcome.err().unwrap();
    assert_eq!(auth_kind(&error), AuthErrorKind::AccountDisabled);
    assert_eq!(error_handler(error).status, 403);
}

#[test]
fn login_with_totp() {
    let config = settings();
    let mut store = store(&config);
    let missing = login(
        login_data("bob", "battery staple", None, false),
        store.user_by_name("bob"),
        false,
        NOW,
        &config,
    );
    assert_eq!(auth_kind(&missing.outcome.err().unwrap()), AuthErrorKind::MissingTotp);

    let current = generate_totp(TOTP_KEY, NOW as u64, &config);
    let wrong = if current == "000000" { "000001" } else { "000000" };
    let neighbours = [
        generate_totp(TOTP_KEY, (NOW - 30) as u64, &config),
        generate_totp(TOTP_KEY, (NOW + 30) as u64, &config),
    ];
    if !neighbours.iter().any(|n| n == wrong) {
        let invalid = login(
            login_data("bob", "battery staple", Some(wrong), false),
            store.user_by_name("bob"),
            false,
            NOW,
            &config,
        );
        assert_eq!(auth_kind(&invalid.outcome.err().unwrap()), AuthErrorKind::InvalidTotp);
    }

    let plan = login(
        login_data("bob", "battery staple", Some(&current), false),
        store.user_by_name("bob"),
        false,
        NOW,
        &config,
    );
    let res = plan.outcome.ok().unwrap();
    assert_eq!(res.status, 200);
    assert!(res.body.data.totp_enabled);
    assert_eq!(plan.writes.len(), 2);
    assert!(matches!(
        &plan.writes[0].op,
        DbOp::SetLastTotpTimeStep { user_id, time_step }
            if user_id == "id-of-bob" && *time_step == NOW / 30
    ));
    assert_eq!(plan.writes[0].expect, RowCount::ExactlyOne);
    assert!(store.transact(&plan.writes).is_ok());
    assert_eq!(store.users[1].last_totp_time_step, Some(NOW / 30));

    let replay = login(
        login_data("bob", "battery staple", Some(&current), false),
        store.user_by_name("bob"),
        false,
        NOW + 1,
        &config,
    );
    assert!(replay.writes.is_empty());
    let error = replay.outcome.err().unwrap();
    assert_eq!(auth_kind(&error), AuthErrorKind::TotpReuse);
    let res = error_handler(error);
    assert_eq!(res.status, 400);
    assert_eq!(res.body.errors[0].source, "auth");
    assert_eq!(res.body.errors[0].id, "totp-reuse");

    let next = generate_totp(TOTP_KEY, (NOW + 30) as u64, &config);
    if next != current {
        let later = login(
            login_data("bob", "battery staple", Some(&next), false),
            store.user_by_name("bob"),
            false,
            NOW + 30,
            &config,
        );
        assert!(later.outcome.is_ok());
    }
}

#[test]
fn login_with_given_tokens() {
    let config = settings();
    let store = store(&config);
    let tokens = FreshTokens {
        session_id: "S".repeat(43),
        csrf_token: "C".repeat(33),
        remember_token_id: "I".repeat(22),
        remember_token_secret: "R".repeat(43),
    };
    let plan = login_with(
        login_data("alice", "correct horse", None, true),
        store.user_by_name("alice"),
        false,
        NOW,
        tokens,
        &config,
    );
    assert_eq!(plan.writes.len(), 2);
    assert!(matches!(
        &plan.writes[0].op,
        DbOp::InsertSession { id, user_id, csrf_token, expires, sudo_until }
            if *id == hash(&"S".repeat(43)) && user_id == "id-of-alice"
                && *csrf_token == "C".repeat(33) && *expires == NOW + 1800
                && *sudo_until == Some(NOW + 300)
    ));
    assert!(matches!(
        &plan.writes[1].op,
        DbOp::InsertRememberToken { id, user_id, secret }
            if *id == hash(&"I".repeat(22)) && user_id == "id-of-alice"
                && *secret == hash(&"R".repeat(43))
    ));
    let res = plan.outcome.ok().unwrap();
    assert_eq!(res.cookies.len(), 3);
    assert_eq!(res.cookies[0].name, "session");
    assert_eq!(res.cookies[0].value, "S".repeat(43));
    assert_eq!(res.cookies[1].name, "csrf");
    assert_eq!(res.cookies[2].name, "remember");
    assert_eq!(res.cookies[2].value, format!("{}:{}", "I".repeat(22), "R".repeat(43)));
    assert_eq!(res.cookies[2].max_age, Some(86400));
}

fn remembered_login(store: &mut MemoryStore, config: &Config) -> (String, String) {
    let plan = login(
        login_data("alice", "correct horse", None, true),
        store.user_by_name("alice"),
        false,
        NOW,
        config,
    );
    assert_eq!(plan.writes.len(), 2);
    assert!(store.transact(&plan.writes).is_ok());
    let res = plan.outcome.ok().unwrap();
    assert_eq!(res.cookies.len(), 3);
    (
        cookie(&res.cookies, "session").unwrap().value.clone(),
        cookie(&res.cookies, "remember").unwrap().value.clone(),
    )
}

#[test]
fn remember_cookie_is_split_at_the_separator() {
    let config = settings();
    assert_eq!(split_remember_cookie("id:secret", &config), Some(("id", "secret")));
    assert_eq!(split_remember_cookie("id:se:cret", &config), Some(("id", "se:cret")));
    assert_eq!(split_remember_cookie(":", &config), Some(("", "")));
    assert_eq!(split_remember_cookie("idsecret", &config), None);
    assert_eq!(remember_token_key("id:secret", &config), Some(hash("id")));
    assert_eq!(remember_token_key("id", &config), None);
}

#[test]
fn restore_rotates_the_secret() {
    let config = settings();
    let mut store = store(&config);
    let (_, remember) = remembered_login(&mut store, &config);
    let key = remember_token_key(&remember, &config).unwrap();
    let stored = store.remember_token_user(&key).unwrap().secret;

    let plan = restore_session(
        false,
        Some(&remember),
        store.remember_token_user(&key),
        NOW + 10,
        &config,
    );
    let res = plan.outcome.ok().unwrap();
    assert_eq!(res.status, 200);
    assert_eq!(res.cookies.len(), 3);
    assert_eq!(res.cookies[0].name, "csrf");
    assert_eq!(res.cookies[0].value, res.body.csrf_token);
    assert_eq!(res.cookies[1].name, "remember");
    assert_eq!(res.cookies[2].name, "session");
    let renewed = res.cookies[1].value.clone();
    assert_ne!(renewed, remember);
    assert_eq!(renewed.split(':').next(), remember.split(':').next());
    assert!(store.transact(&plan.writes).is_ok());
    assert_eq!(store.sessions.len(), 2);
    assert_eq!(store.remember_tokens.len(), 1);
    assert_ne!(store.remember_token_user(&key).unwrap().secret, stored);
    let new_session = store.session(&hash(&res.cookies[2].value)).unwrap();
    assert_eq!(new_session.expires, NOW + 10 + 1800);

    let again = restore_session(
        false,
        Some(&remember),
        store.remember_token_user(&key),
        NOW + 20,
        &config,
    );
    let error = again.outcome.err().unwrap();
    assert_eq!(auth_kind(&error), AuthErrorKind::RememberTokenSecretMismatch);
}

#[test]
fn restore_with_renewed_cookie_works_again() {
    let config = settings();
    let mut store = store(&config);
    let (_, remember) = remembered_login(&mut store, &config);
    let key = remember_token_key(&remember, &config).unwrap();
    let plan =
        restore_session(false, Some(&remember), store.remember_token_user(&key), NOW, &config);
    assert!(store.transact(&plan.writes).is_ok());
    let renewed = plan.outcome.ok().unwrap().cookies[1].value.clone();
    let plan =
        restore_session(false, Some(&renewed), store.remember_token_user(&key), NOW, &config);
    assert!(plan.outcome.is_ok());
}

#[test]
fn restore_with_wrong_secret_revokes_everything() {
    let config = settings();
    let mut store = store(&config);
    let (session, remember) = remembered_login(&mut store, &config);
    let (_, second) = remembered_login(&mut store, &config);
    let bob = login(
        login_data("bob", "battery staple", Some(&generate_totp(TOTP_KEY, NOW as u64, &config)), true),
        store.user_by_name("bob"),
        false,
        NOW,
        &config,
    );
    assert!(store.transact(&bob.writes).is_ok());
    assert_eq!(store.sessions.len(), 3);
    assert_eq!(store.remember_tokens.len(), 3);
    let check = AuthRequired::defaults(settings());
    let session_key = check.session_key(Some(&session)).ok().unwrap();
    assert!(check
        .check(session_key.clone(), store.auth_row(&session_key), NOW)
        .is_ok());

    let id = remember.split(':').next().unwrap();
    let forged = format!("{}:{}", id, "x".repeat(43));
    let key = remember_token_key(&forged, &config).unwrap();
    let plan =
        restore_session(false, Some(&forged), store.remember_token_user(&key), NOW, &config);
    assert_eq!(plan.writes.len(), 3);
    let error = plan.outcome.err().unwrap();
    assert_eq!(auth_kind(&error), AuthErrorKind::RememberTokenSecretMismatch);
    let res = error_handler(error);
    assert_eq!(res.status, 400);
    assert_eq!(res.body.errors[0].source, "auth");
    assert_eq!(res.body.errors[0].id, "remember-token-secret-mismatch");
    assert_eq!(res.cookies.len(), 1);
    assert_eq!(res.cookies[0].name, "remember");
    assert_eq!(res.cookies[0].max_age, Some(0));
    assert!(store.transact(&plan.writes).is_ok());

    assert_eq!(store.sessions.len(), 1);
    assert_eq!(store.sessions[0].user_id, "id-of-bob");
    assert_eq!(store.remember_tokens.len(), 1);
    assert_eq!(store.remember_tokens[0].user_id, "id-of-bob");
    assert_eq!(
        store.users[0].password_change_reason,
        Some(PasswordChangeReason::RememberTokenCompromise)
    );
    assert_eq!(store.users[1].password_change_reason, None);

    let refused = check
        .check(session_key.clone(), store.auth_row(&session_key), NOW)
        .err()
        .unwrap();
    assert_eq!(refused.kind(), AuthErrorKind::NotLoggedIn);
    assert!(matches!(
        get_session(Some(&session), store.session(&session_key), NOW),
        Err(SessionError::InvalidSession)
    ));
    let key = remember_token_key(&second, &config).unwrap();
    let gone = restore_session(false, Some(&second), store.remember_token_user(&key), NOW, &config);
    assert_eq!(auth_kind(&gone.outcome.err().unwrap()), AuthErrorKind::InvalidRememberToken);
}

#[test]
fn restore_refusals() {
    let config = settings();
    let mut store = store(&config);
    let (_, remember) = remembered_login(&mut store, &config);
    let key = remember_token_key(&remember, &config).unwrap();

    let logged_in =
        restore_session(true, Some(&remember), store.remember_token_user(&key), NOW, &config);
    assert!(logged_in.writes.is_empty());
    let error = logged_in.outcome.err().unwrap();
    assert_eq!(auth_kind(&error), AuthErrorKind::AlreadyLoggedIn);
    assert!(error_handler(error).cookies.is_empty());

    let missing = restore_session(false, None, None, NOW, &config);
    assert_eq!(auth_kind(&missing.outcome.err().unwrap()), AuthErrorKind::MissingRememberToken);

    let shapeless = restore_session(false, Some("no separator"), None, NOW, &config);
    let error = shapeless.outcome.err().unwrap();
    assert_eq!(auth_kind(&error), AuthErrorKind::InvalidRememberToken);
    let res = error_handler(error);
    assert_eq!(res.cookies.len(), 1);
    assert_eq!(res.cookies[0].name, "remember");

    let unknown = restore_session(false, Some("unknown:secret"), None, NOW, &config);
    assert_eq!(auth_kind(&unknown.outcome.err().unwrap()), AuthErrorKind::InvalidRememberToken);

    store.users[0].active = false;
    let disabled =
        restore_session(false, Some(&remember), store.remember_token_user(&key), NOW, &config);
    assert!(disabled.writes.is_empty());
    assert_eq!(auth_kind(&disabled.outcome.err().unwrap()), AuthErrorKind::AccountDisabled);
}

#[test]
fn restore_with_given_tokens() {
    let config = settings();
    let mut store = store(&config);
    let (_, remember) = remembered_login(&mut store, &config);
    let key = remember_token_key(&remember, &config).unwrap();
    let tokens = FreshTokens {
        session_id: "S".repeat(43),
        csrf_token: "C".repeat(33),
        remember_token_id: "unused".to_string(),
        remember_token_secret: "N".repeat(43),
    };
    let plan = restore_session_with_tokens(
        false,
        Some(&remember),
        store.remember_token_user(&key),
        NOW,
        tokens,
        &config,
    );
    assert_eq!(plan.writes.len(), 2);
    assert!(matches!(
        &plan.writes[1].op,
        DbOp::SetRememberTokenSecret { id, secret } if *id == key && *secret == hash(&"N".repeat(43))
    ));
    let res = plan.outcome.ok().unwrap();
    assert_eq!(res.body.csrf_token, "C".repeat(33));
    let id = remember.split(':').next().unwrap();
    assert_eq!(res.cookies[1].value, format!("{}:{}", id, "N".repeat(43)));
    assert_eq!(res.cookies[2].value, "S".repeat(43));
}

#[test]
fn logout_ends_the_session() {
    let config = settings();
    let mut store = store(&config);
    let (session, remember) = remembered_login(&mut store, &config);
    let check = AuthRequired::new(
        AuthRequiredOptions::from_bits(ALLOW_PASSWORD_CHANGE_REASON),
        settings(),
    );
    let key = check.session_key(Some(&session)).ok().unwrap();
    let current_user = check.check(key.clone(), store.auth_row(&key), NOW).ok().unwrap();
    let plan = logout(&current_user, Some(&remember), &config);
    assert_eq!(plan.writes.len(), 2);
    assert_eq!(plan.writes[0].expect, RowCount::ExactlyOne);
    assert_eq!(plan.writes[1].expect, RowCount::AtMostOne);
    let res = plan.outcome.ok().unwrap();
    assert_eq!(res.status, 200);
    assert_eq!(res.body.token.len(), 33);
    assert_eq!(res.cookies.len(), 3);
    assert_eq!(res.cookies[0].name, "csrf");
    assert_eq!(res.cookies[0].value, res.body.token);
    assert_eq!(res.cookies[1].name, "session");
    assert_eq!(res.cookies[1].max_age, Some(0));
    assert_eq!(res.cookies[2].name, "remember");
    assert_eq!(res.cookies[2].max_age, Some(0));
    assert!(store.transact(&plan.writes).is_ok());
    assert!(store.sessions.is_empty());
    assert!(store.remember_tokens.is_empty());

    let again = logout(&current_user, None, &config);
    assert_eq!(again.writes.len(), 1);
    assert_eq!(again.outcome.ok().unwrap().cookies.len(), 2);
    assert!(store.transact(&again.writes).is_err());
}

#[test]
fn logout_from_all_sessions() {
    let config = settings();
    let mut store = store(&config);
    let (session, _) = remembered_login(&mut store, &config);
    remembered_login(&mut store, &config);
    let check = AuthRequired::defaults(settings());
    let key = check.session_key(Some(&session)).ok().unwrap();
    let current_user = check.check(key.clone(), store.auth_row(&key), NOW).ok().unwrap();
    let plan = logout_all_sessions(&current_user, true, &config);
    assert_eq!(plan.writes.len(), 2);
    assert_eq!(plan.writes[0].expect, RowCount::AtLeastOne);
    let res = plan.outcome.ok().unwrap();
    assert_eq!(res.cookies.len(), 3);
    assert_eq!(res.cookies[1].name, "remember");
    assert_eq!(res.cookies[2].name, "session");
    assert!(store.transact(&plan.writes).is_ok());
    assert!(store.sessions.is_empty());
    assert!(store.remember_tokens.is_empty());
    let plan = logout_all_sessions(&current_user, false, &config);
    assert_eq!(plan.outcome.ok().unwrap().cookies.len(), 2);
    assert!(store.transact(&plan.writes).is_err());
}

#[test]
fn failed_transaction_changes_nothing() {
    let config = settings();
    let mut store = store(&config);
    let (session, _) = remembered_login(&mut store, &config);
    let plan = login(
        login_data("alice", "correct horse", None, true),
        store.user_by_name("alice"),
        false,
        NOW,
        &config,
    );
    let mut writes = plan.writes;
    writes.push(dodatok::db::DbWrite {
        op: DbOp::DeleteSession { id: vec![1, 2, 3] },
        expect: RowCount::ExactlyOne,
    });
    assert!(store.transact(&writes).is_err());
    assert_eq!(store.sessions.len(), 1);
    assert_eq!(store.remember_tokens.len(), 1);
    assert!(store.session(&hash(&session)).is_some());
    let duplicate = vec![dodatok::db::DbWrite {
        op: DbOp::InsertSession {
            id: hash(&session),
            user_id: "id-of-alice".to_string(),
            csrf_token: "c".to_string(),
            expires: 0,
            sudo_until: None,
        },
        expect: RowCount::Any,
    }];
    assert!(store.transact(&duplicate).is_err());
    let orphan = vec![dodatok::db::DbWrite {
        op: DbOp::InsertSession {
            id: vec![9],
            user_id: "nobody".to_string(),
            csrf_token: "c".to_string(),
            expires: 0,
            sudo_until: None,
        },
        expect: RowCount::Any,
    }];
    assert!(store.transact(&orphan).is_err());
    assert_eq!(store.sessions.len(), 1);
}

#[test]
fn row_counts() {
    assert!(RowCount::Any.check(0).is_ok());
    assert!(RowCount::Any.check(7).is_ok());
    assert!(RowCount::ExactlyOne.check(1).is_ok());
    assert!(RowCount::ExactlyOne.check(0).is_err());
    assert!(RowCount::ExactlyOne.check(2).is_err());
    assert!(RowCount::AtMostOne.check(0).is_ok());
    assert!(RowCount::AtMostOne.check(1).is_ok());
    assert!(RowCount::AtMostOne.check(2).is_err());
    assert!(RowCount::AtLeastOne.check(0).is_err());
    assert!(RowCount::AtLeastOne.check(1).is_ok());
    assert!(RowCount::AtLeastOne.check(5).is_ok());
}

#[test]
fn protected_request_states() {
    let config = settings();
    let mut store = store(&config);
    let (session, _) = remembered_login(&mut store, &config);
    let check = AuthRequired::defaults(settings());
    let missing = check.session_key(None).err().unwrap();
    assert_eq!(missing.kind(), AuthErrorKind::NotLoggedIn);
    assert!(missing.data().is_none());
    assert_eq!(missing.status(), 401);

    let key = check.session_key(Some(&session)).ok().unwrap();
    assert_eq!(key, hash(&session));
    let user = check.check(key.clone(), store.auth_row(&key), NOW).ok().unwrap();
    assert_eq!(user.id, "id-of-alice");
    assert_eq!(user.session_id_hash, key);
    assert!(user.username.is_none());
    assert!(user.permissions.is_none());

    let unknown = check.check(vec![0; 32], store.auth_row(&[0; 32]), NOW).err().unwrap();
    assert_eq!(unknown.kind(), AuthErrorKind::NotLoggedIn);
    let cookies = unknown.data().unwrap().cookies;
    assert_eq!(cookies.len(), 1);
    assert_eq!(cookies[0].name, "session");
    assert_eq!(cookies[0].max_age, Some(0));

    let expired = check.check(key.clone(), store.auth_row(&key), NOW + 1801).err().unwrap();
    assert_eq!(expired.kind(), AuthErrorKind::SessionExpired);
    assert_eq!(expired.status(), 403);
    assert_eq!(expired.data().unwrap().cookies.len(), 1);

    store.users[0].password_change_reason = Some(PasswordChangeReason::RememberTokenCompromise);
    let blocked = check.check(key.clone(), store.auth_row(&key), NOW).err().unwrap();
    assert_eq!(blocked.kind(), AuthErrorKind::PasswordChangeRequired);
    assert!(blocked.data().is_none());
    let allowing = AuthRequired::new(
        AuthRequiredOptions::from_bits(ALLOW_PASSWORD_CHANGE_REASON | WITH_PASSWORD_CHANGE_REASON),
        settings(),
    );
    let user = allowing.check(key.clone(), store.auth_row(&key), NOW).ok().unwrap();
    assert_eq!(
        user.password_change_reason,
        Some(Some(PasswordChangeReason::RememberTokenCompromise))
    );

    store.users[0].active = false;
    let disabled = check.check(key.clone(), store.auth_row(&key), NOW).err().unwrap();
    assert_eq!(disabled.kind(), AuthErrorKind::AccountDisabled);
    assert_eq!(disabled.status(), 403);
    let cookies = disabled.data().unwrap().cookies;
    assert_eq!(cookies.len(), 2);
    assert_eq!(cookies[0].name, "remember");
    assert_eq!(cookies[1].name, "session");
}

#[test]
fn protected_request_loads_what_is_asked_for() {
    let config = settings();
    let mut store = store(&config);
    let (session, _) = remembered_login(&mut store, &config);
    let options = AuthRequiredOptions::from_bits(WITH_USERNAME)
        .union(AuthRequiredOptions::from_bits(WITH_TOTP_STATUS))
        .union(AuthRequiredOptions::from_bits(WITH_ICON | WITH_LOCALE | WITH_SUDO_UNTIL));
    assert_eq!(options.bits, 1 | 4 | 16 | 32 | 128);
    assert!(options.contains(WITH_USERNAME));
    assert!(options.contains(WITH_ICON | WITH_LOCALE));
    assert!(!options.contains(WITH_PERMISSIONS));
    assert!(!options.contains(WITH_USERNAME | WITH_PERMISSIONS));
    assert!(AuthRequiredOptions::empty().contains(0));
    let check = AuthRequired::new(options, config);
    assert!(!check.wants_permissions());
    let key = hash(&session);
    let user = check.check(key.clone(), store.auth_row(&key), NOW).ok().unwrap();
    assert_eq!(user.username, Some("alice".to_string()));
    assert_eq!(user.totp_enabled, Some(false));
    assert_eq!(user.icon, Some(None));
    assert_eq!(user.language, Some(Language::en_US));
    assert_eq!(user.sudo_until, Some(Some(NOW + 300)));
    assert_eq!(user.password_hash, None);
    assert_eq!(user.password_change_reason, None);
    let with_permissions =
        AuthRequired::new(AuthRequiredOptions::from_bits(WITH_PERMISSIONS), settings());
    assert!(with_permissions.wants_permissions());
    assert_eq!(Permission::variants().len(), 4);
}

#[test]
fn live_session_is_restored_as_it_is() {
    let config = settings();
    let mut store = store(&config);
    let (session, remember) = remembered_login(&mut store, &config);
    let key = hash(&session);
    let token_key = remember_token_key(&remember, &config).unwrap();
    let plan = restore(
        Some(&session),
        store.session_user(&key),
        Some(&remember),
        store.remember_token_user(&token_key),
        NOW + 5,
        &config,
    );
    assert!(plan.writes.is_empty());
    assert!(plan.renewed.is_none());
    let restored = plan.result.ok().unwrap();
    assert_eq!(restored.csrf_token, store.sessions[0].csrf_token);
    assert_eq!(restored.sudo_until, Some(NOW + 300));
    assert_eq!(restored.user.id, "id-of-alice");
    assert_eq!(restored.user.username, "alice");
    assert!(restored.user.active);
    assert!(!restored.user.totp_enabled);
}

#[test]
fn dead_session_without_remember_cookie_is_not_restored() {
    let config = settings();
    let mut store = store(&config);
    let (session, _) = remembered_login(&mut store, &config);
    let key = hash(&session);
    let refused = |plan: dodatok::util::RestorePlan| {
        assert!(plan.writes.is_empty());
        assert!(plan.renewed.is_none());
        plan.result.err().unwrap()
    };
    let expired = restore(Some(&session), store.session_user(&key), None, None, NOW + 1801, &config);
    assert_eq!(refused(expired), RestoreSessionError::ExpiredSession);
    let unknown = restore(Some("unknown"), store.session_user(&hash("unknown")), None, None, NOW, &config);
    assert_eq!(refused(unknown), RestoreSessionError::InvalidSession);
    let nothing = restore(None, None, None, None, NOW, &config);
    assert_eq!(refused(nothing), RestoreSessionError::NoCookies);
    store.users[0].active = false;
    let disabled = restore(Some(&session), store.session_user(&key), None, None, NOW, &config);
    assert_eq!(refused(disabled), RestoreSessionError::AccountDisabled);
}

#[test]
fn expired_session_is_renewed_from_the_remember_cookie() {
    let config = settings();
    let mut store = store(&config);
    let (session, remember) = remembered_login(&mut store, &config);
    let key = hash(&session);
    let token_key = remember_token_key(&remember, &config).unwrap();
    let tokens = FreshTokens {
        session_id: "S".repeat(43),
        csrf_token: "C".repeat(33),
        remember_token_id: "unused".to_string(),
        remember_token_secret: "N".repeat(43),
    };
    let plan = restore_session_with(
        Some(&session),
        store.session_user(&key),
        Some(&remember),
        store.remember_token_user(&token_key),
        NOW + 4000,
        tokens,
        &config,
    );
    assert_eq!(plan.writes.len(), 2);
    assert_eq!(plan.writes[0].expect, RowCount::Any);
    let renewed = plan.renewed.unwrap();
    assert_eq!(renewed.session_id, "S".repeat(43));
    let id = remember.split(':').next().unwrap();
    assert_eq!(renewed.remember_token, format!("{}:{}", id, "N".repeat(43)));
    let restored = plan.result.ok().unwrap();
    assert_eq!(restored.csrf_token, "C".repeat(33));
    assert_eq!(restored.sudo_until, None);
    assert_eq!(restored.user.id, "id-of-alice");
    assert!(store.transact(&plan.writes).is_ok());
    assert_eq!(store.session(&hash(&"S".repeat(43))).unwrap().expires, NOW + 4000 + 1800);

    let stolen = restore(None, None, Some(&remember), store.remember_token_user(&token_key), NOW, &config);
    assert_eq!(stolen.writes.len(), 3);
    assert_eq!(stolen.result.err().unwrap(), RestoreSessionError::RememberTokenMismatch);
}
