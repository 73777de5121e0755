use dodatok::error::{
    error_handler, AppError, AuthError, AuthErrorKind, AuthWarning, CsrfError, CsrfErrorKind,
    ErrorData, FrameworkError, FrameworkErrorKind, GeneralError, GeneralErrorKind, InternalError,
    WebSocketError, WebSocketErrorKind,
};
use dodatok::config::{
    ClientConfigInput, Config, ConfigInput, CookieConfigInput, CsrfConfigInput, DbConfigInput,
    RedisConfigInput, RememberTokenConfigInput, SameSite, SecurityConfigInput,
    SessionConfigInput, TotpConfigInput, UserConfigInput, WebSocketConfigInput,
};
use dodatok::middleware::CurrentUser;
use dodatok::db::Permission;
use dodatok::routes::account::{websocket, websocket_token, websocket_token_with};
use dodatok::routes::users::{get_me, get_user, UserAccess};
use dodatok::util::{
    clear_cookie, make_cookie, remove_cookie, set_cookie, ResponseBuilder, TotpAlgorithm,
};

fn config_input() -> ConfigInput {
    ConfigInput {
        client: ClientConfigInput { origin: "https://example.org".to_string() },
        cookie: CookieConfigInput {
            path: "/".to_string(),
            same_site: "Strict".to_string(),
            secure: true,
        },
        csrf: CsrfConfigInput {
            cookie: "csrf".to_string(),
            cookie_lifetime: 3600,
            header: "X-Csrf-Token".to_string(),
            response_field: "csrf_token".to_string(),
            token_bits: 192,
        },
        db: DbConfigInput {
            user: "dodatok".to_string(),
            password: "secret".to_string(),
            dbname: "dodatok".to_string(),
            application_name: None,
            host: Some("localhost".to_string()),
            port: Some(5432),
        },
        dev: None,
        redis: RedisConfigInput {
            url: "redis://localhost".to_string(),
            key_separator: ":".to_string(),
        },
        remember_token: RememberTokenConfigInput {
            cookie: "remember".to_string(),
            cookie_lifetime: 86400,
            id_bits: 128,
            secret_bits: 256,
            separator: ":".to_string(),
        },
        security: SecurityConfigInput {
            aes_key: "000102030405060708090a0b0c0d0e0f101112131415161718191A1B1C1D1E1F".to_string(),
            argon2_time_cost: 1,
            argon2_memory_cost: 8,
            argon2_parallelism: 1,
            password_salt_bits: 128,
        },
        session: SessionConfigInput {
            cookie: "session".to_string(),
            id_bits: 256,
            lifetime: 1800,
            sudo_lifetime: 300,
        },
        totp: TotpConfigInput {
            algorithm: TotpAlgorithm::Sha1,
            digits: 6,
            key_length: 40,
            time_step: 30,
            time_window: 1,
        },
        user: UserConfigInput {
            id_bits: 128,
            icon_id_bits: 64,
            username_min_length: 1,
            username_max_length: 32,
            password_min_length: 8,
            password_max_length: 1024,
        },
        websocket: WebSocketConfigInput {
            channel_capacity: 16,
            connection_id_bits: 128,
            token_bits: 128,
            token_lifetime: 60,
        },
    }
}

fn settings() -> Config {
    let input = config_input();
    assert!(input.is_valid());
    Config::new(&input)
}


#[test]
fn auth_errors_have_their_status_and_id() {
    let expected = [
        (AuthErrorKind::AccountDisabled, 403, "account-disabled"),
        (AuthErrorKind::AlreadyLoggedIn, 400, "already-logged-in"),
        (AuthErrorKind::Forbidden, 403, "forbidden"),
        (AuthErrorKind::InvalidCredentials, 400, "invalid-credentials"),
        (AuthErrorKind::InvalidRememberToken, 400, "invalid-remember-token"),
        (AuthErrorKind::InvalidTotp, 400, "invalid-totp"),
        (AuthErrorKind::MissingRememberToken, 400, "missing-remember-token"),
        (AuthErrorKind::MissingTotp, 400, "missing-totp"),
        (AuthErrorKind::NotLoggedIn, 401, "not-logged-in"),
        (AuthErrorKind::PasswordChangeRequired, 400, "password-change-required"),
        (AuthErrorKind::RememberTokenSecretMismatch, 400, "remember-token-secret-mismatch"),
        (AuthErrorKind::SessionExpired, 403, "session-expired"),
        (AuthErrorKind::TotpReuse, 400, "totp-reuse"),
    ];
    for (kind, status, id) in expected {
        let error = AuthError::of(kind, None);
        assert_eq!(error.kind(), kind);
        assert_eq!(error.status(), status);
        assert_eq!(error.id(), id);
        assert_eq!(error.to_tuple(), ("auth".to_string(), id.to_string(), None));
        let res = error.as_response();
        assert_eq!(res.status, status);
        assert!(res.cookies.is_empty());
        assert_eq!(res.body.errors.len(), 1);
        assert_eq!(res.body.errors[0].source, "auth");
        assert_eq!(res.body.errors[0].id, id);
        assert_eq!(res.body.errors[0].details, None);
        assert_eq!(res.body.csrf_token, None);
    }
}

#[test]
fn other_errors_have_their_status_and_id() {
    for (kind, id) in [
        (CsrfErrorKind::InvalidHeader, "invalid-header"),
        (CsrfErrorKind::MissingCookie, "missing-cookie"),
        (CsrfErrorKind::MissingHeader, "missing-header"),
        (CsrfErrorKind::Mismatch, "mismatch"),
    ] {
        let error = CsrfError::of(kind, None);
        assert_eq!(error.status(), 400);
        assert_eq!(error.to_tuple(), ("csrf".to_string(), id.to_string(), None));
    }
    let invalid = GeneralError::of(GeneralErrorKind::InvalidData, None);
    assert_eq!(invalid.status(), 400);
    assert_eq!(invalid.id(), "invalid-data");
    let not_found = GeneralError::NotFound(None);
    assert_eq!(not_found.status(), 404);
    assert_eq!(not_found.to_tuple(), ("general".to_string(), "not-found".to_string(), None));
    for (kind, id) in [
        (WebSocketErrorKind::AlreadyInRoom, "already-in-room"),
        (WebSocketErrorKind::InvalidMessageType, "invalid-message-type"),
        (WebSocketErrorKind::NotInRoom, "not-in-room"),
    ] {
        let alert = WebSocketError::of(kind, None).to_alert();
        assert_eq!(alert.source, "websocket");
        assert_eq!(alert.id, id);
    }
    let warning = AuthWarning::UnusedTotp(None);
    assert_eq!(warning.to_tuple(), ("auth".to_string(), "unused-totp".to_string(), None));
}

#[test]
fn error_data_goes_into_the_response() {
    let config = settings();
    let data = ErrorData {
        cookies: vec![clear_cookie("session", &config), clear_cookie("remember", &config)],
        csrf_token: Some(("csrf_token".to_string(), "abc".to_string())),
        details: Some("the deets".to_string()),
    };
    let error = GeneralError::InvalidData(Some(data));
    assert_eq!(error.to_tuple().2, Some("the deets".to_string()));
    let res = error.as_response();
    assert_eq!(res.status, 400);
    assert_eq!(res.cookies.len(), 2);
    assert_eq!(res.cookies[0].name, "session");
    assert_eq!(res.cookies[1].name, "remember");
    assert_eq!(res.body.errors[0].details, Some("the deets".to_string()));
    assert_eq!(res.body.csrf_token, Some(("csrf_token".to_string(), "abc".to_string())));
    let copy = error.data().unwrap();
    assert_eq!(copy.cookies.len(), 2);
    assert_eq!(copy.details, Some("the deets".to_string()));
    let default = ErrorData::default();
    assert!(default.cookies.is_empty() && default.csrf_token.is_none() && default.details.is_none());
}

#[test]
fn internal_error_says_nothing() {
    let error = InternalError::new("the database fell over");
    assert_eq!(
        error.to_tuple(),
        ("general".to_string(), "internal-server-error".to_string(), None)
    );
    assert_eq!(error.status(), 500);
    let res = error.as_response();
    assert_eq!(res.status, 500);
    assert!(res.cookies.is_empty());
    assert_eq!(res.body.errors.len(), 1);
    assert_eq!(res.body.errors[0].source, "general");
    assert_eq!(res.body.errors[0].id, "internal-server-error");
    assert_eq!(res.body.errors[0].details, None);
    let res = error_handler(AppError::Internal(InternalError));
    assert_eq!(res.status, 500);
}

fn framework(kind: FrameworkErrorKind, status: u16, reason: Option<&str>, body: Option<&str>) -> AppError {
    AppError::Framework(FrameworkError {
        kind,
        message: "what went wrong".to_string(),
        status,
        reason: reason.map(|r| r.to_string()),
        body: body.map(|b| b.to_string()),
    })
}

#[test]
fn framework_errors_are_reported() {
    for kind in [
        FrameworkErrorKind::GetData,
        FrameworkErrorKind::ParseJsonSyntax,
        FrameworkErrorKind::ParseQuery,
    ] {
        let res = error_handler(framework(kind, 500, None, None));
        assert_eq!(res.status, 400);
        assert_eq!(res.body.errors[0].source, "general");
        assert_eq!(res.body.errors[0].id, "invalid-data");
        assert_eq!(res.body.errors[0].details, Some("what went wrong".to_string()));
    }
    let res = error_handler(framework(FrameworkErrorKind::ParsePath, 400, None, None));
    assert_eq!(res.status, 404);
    assert_eq!(res.body.errors[0].id, "not-found");
    assert_eq!(res.body.errors[0].details, None);
    for kind in [
        FrameworkErrorKind::BodyTaken,
        FrameworkErrorKind::NoUpgrade,
        FrameworkErrorKind::Other,
    ] {
        let res =
            error_handler(framework(kind, 400, Some("Bad Request"), Some("bad request")));
        assert_eq!(res.status, 500);
        assert_eq!(res.body.errors[0].id, "internal-server-error");
    }
}

#[test]
fn framework_errors_are_named_by_their_status() {
    let res = error_handler(framework(
        FrameworkErrorKind::MethodNotAllowed,
        405,
        Some("Method Not Allowed"),
        Some("method not allowed"),
    ));
    assert_eq!(res.status, 405);
    assert!(res.cookies.is_empty());
    assert_eq!(res.body.errors[0].source, "general");
    assert_eq!(res.body.errors[0].id, "method-not-allowed");
    assert_eq!(res.body.errors[0].details, None);

    let res = error_handler(framework(
        FrameworkErrorKind::NotFound,
        404,
        Some("Not Found"),
        Some("not found"),
    ));
    assert_eq!(res.status, 404);
    assert_eq!(res.body.errors[0].id, "not-found");

    let res = error_handler(framework(
        FrameworkErrorKind::ReadBodyOther,
        413,
        Some("Payload Too Large"),
        Some("the body is too large"),
    ));
    assert_eq!(res.status, 413);
    assert_eq!(res.body.errors[0].id, "payload-too-large");
    assert_eq!(res.body.errors[0].details, Some("the body is too large".to_string()));

    let res = error_handler(framework(FrameworkErrorKind::ParseJsonOther, 415, None, Some("x")));
    assert_eq!(res.status, 500);
    let res = error_handler(framework(
        FrameworkErrorKind::UpgradeOther,
        400,
        Some("Bad Request"),
        None,
    ));
    assert_eq!(res.status, 500);
    let res = error_handler(framework(
        FrameworkErrorKind::ParseMultipart,
        400,
        Some("Bad Request"),
        Some("Bad Request"),
    ));
    assert_eq!(res.status, 400);
    assert_eq!(res.body.errors[0].id, "bad-request");
    assert_eq!(res.body.errors[0].details, None);
}

#[test]
fn cookies_carry_the_configured_attributes() {
    let config = settings();
    let cleared = clear_cookie("session", &config);
    assert_eq!(cleared.name, "session");
    assert_eq!(cleared.value, "");
    assert_eq!(cleared.max_age, Some(0));
    assert!(cleared.http_only);
    assert_eq!(cleared.path, "/");
    assert_eq!(cleared.same_site, SameSite::Strict);
    assert!(cleared.secure);
    let made = make_cookie("csrf", "token", Some(60), &config);
    assert_eq!(made.name, "csrf");
    assert_eq!(made.value, "token");
    assert_eq!(made.max_age, Some(60));
    assert!(made.http_only);
    let session = make_cookie("session", "id", None, &config);
    assert_eq!(session.max_age, None);
    let copy = made.clone();
    assert_eq!(copy.name, "csrf");
    assert_eq!(copy.value, "token");

    let res = ResponseBuilder::new(200);
    let res = set_cookie(res, "a", "1", Some(5), &config);
    let res = remove_cookie(res, "b", &config);
    let res = set_cookie(res, "c", "3", None, &config).body(());
    assert_eq!(res.status, 200);
    let names: Vec<&str> = res.cookies.iter().map(|c| c.name.as_str()).collect();
    assert_eq!(names, vec!["a", "b", "c"]);
    assert_eq!(res.cookies[1].max_age, Some(0));
}

fn current_user() -> CurrentUser {
    CurrentUser {
        id: "me".to_string(),
        session_id_hash: vec![0xfb, 0xff],
        username: Some("alice".to_string()),
        icon: Some(None),
        language: Some(dodatok::db::Language::fi),
        sudo_until: Some(Some(17)),
        ..CurrentUser::default()
    }
}

#[test]
fn socket_is_opened_for_the_configured_origin_only() {
    let config = settings();
    assert!(websocket(Some(b"https://example.org"), &config).is_ok());
    for origin in [Some(&b"https://example.com"[..]), Some(&b""[..]), None] {
        let refused = websocket(origin, &config).unwrap_err();
        assert_eq!(refused.kind(), AuthErrorKind::Forbidden);
        assert_eq!(refused.status(), 403);
    }
}

#[test]
fn socket_token_is_bound_to_user_and_session() {
    let config = settings();
    let bound = websocket_token_with(&current_user(), "tok".to_string(), &config);
    assert_eq!(bound.token, "tok");
    assert_eq!(bound.redis_key, "websocket-token:account:tok");
    assert_eq!(bound.redis_value, "me:-_8");
    assert_eq!(bound.lifetime, 60);
    let drawn = websocket_token(&current_user(), &config);
    assert_eq!(drawn.token.len(), 22);
    assert_eq!(drawn.redis_key, format!("websocket-token:account:{}", drawn.token));
    assert_eq!(drawn.redis_value, "me:-_8");
}

#[test]
fn users_see_themselves_and_others_with_permission() {
    let mut user = current_user();
    assert!(matches!(get_user("me", &user), Ok(UserAccess::Own)));
    user.permissions = Some(vec![Permission::EditUser]);
    let refused = get_user("other", &user).unwrap_err();
    assert_eq!(refused.kind(), AuthErrorKind::Forbidden);
    user.permissions = Some(vec![Permission::EditUser, Permission::ViewUser]);
    assert!(matches!(get_user("other", &user), Ok(UserAccess::Other)));
    assert!(matches!(get_user("me", &user), Ok(UserAccess::Own)));
    user.permissions = Some(vec![]);
    assert!(get_user("other", &user).is_err());

    let res = get_me(current_user());
    assert_eq!(res.status, 200);
    assert_eq!(res.body.data.id, "me");
    assert_eq!(res.body.data.username, "alice");
    assert_eq!(res.body.data.icon, None);
    assert_eq!(res.body.sudo_until, Some(17));
}
