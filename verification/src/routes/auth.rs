use vstd::prelude::*;
use vstd::string::{StringExecFns, StringSliceAdditionalSpecFns};
use vstd::utf8::encode_utf8;
use crate::config::Config;
use crate::db::{
    write_views, DbOp, DbOpView, DbWrite, Language, PasswordChangeReason, RowCount, UserRow,
};
use crate::error::{
    AppError, AuthError, AuthErrorKind, AuthWarning, AuthWarningKind, ErrorData, ErrorDataView,
    InternalError,
};
use crate::middleware::{cookies_only, CurrentUser};
use crate::trusted::{split_first, TIME_BOUND};
use crate::util::{
    clear_cookie, cleared_cookie, configured_cookie, cookie_views, decrypt, expiry,
    generate_token, hash, hashed, is_token, opened_envelope, password_verdict, remember_cookie_value,
    remember_token_id, remove_cookie, renewal_writes, restore_session_with, restore_verdict,
    revocation_writes, set_cookie, split_remember_cookie, totp_outcome, verify_password,
    verify_totp_at, Cookie, CookieView, FreshTokens, RememberTokenUserRow, Response,
    ResponseBuilder, RestoreSessionError, RestoreVerdict, Session, SessionError, VerifyTotpError,
    STATUS_OK,
};

verus! {

/// What a handler asks of its caller: statements to run in one transaction,
/// and the outcome to report once they have run and been committed. If a
/// statement fails or changes a number of rows that it does not admit, the
/// transaction is abandoned and an internal error is reported instead.
pub struct Plan<B> {
    pub writes: Vec<DbWrite>,
    pub outcome: Result<Response<B>, AppError>,
}

impl<B> Plan<B> {
    /// The plan that changes nothing and reports `error`.
    pub fn fail(error: AppError) -> (plan: Plan<B>)
        ensures
            plan.writes@.len() == 0,
            plan.outcome == Err::<Response<B>, AppError>(error),
    {
        Plan { writes: Vec::new(), outcome: Err(error) }
    }
}

/// A body that reports success and carries nothing but a CSRF token, under
/// the configured field name.
pub struct TokenBody {
    pub field: String,
    pub token: String,
}

/// The cookies that a response with a fresh CSRF token sets: the CSRF cookie
/// and, where the request came with a session cookie that names no live
/// session, the cookie that clears it.
pub open spec fn csrf_token_cookies(
    session: Result<Session, SessionError>,
    token: Seq<char>,
    config: Config,
) -> Seq<CookieView> {
    let csrf_cookie = configured_cookie(
        config.csrf.cookie@,
        token,
        Some(config.csrf.cookie_lifetime),
        config,
    );
    match session {
        Err(SessionError::ExpiredSession) | Err(SessionError::InvalidSession) => seq![
            csrf_cookie,
            cleared_cookie(config.session.cookie@, config),
        ],
        _ => seq![csrf_cookie],
    }
}

/// Hands out the CSRF token of the request's session or, where it has no live
/// session, the given fresh one. Fails only where the session could not be
/// looked up.
pub fn get_csrf_token_with(
    session: Result<Session, SessionError>,
    fresh_token: String,
    config: &Config,
) -> (res: Result<Response<TokenBody>, InternalError>)
    ensures
        res is Err <==> session matches Err(SessionError::InternalError(_)),
        res matches Ok(r) ==> {
            let token = match session {
                Ok(s) => s.csrf_token@,
                Err(_) => fresh_token@,
            };
            &&& r.status == STATUS_OK
            &&& r.body.field@ == config.csrf.response_field@
            &&& r.body.token@ == token
            &&& cookie_views(r.cookies@) == csrf_token_cookies(session, token, *config)
        },
{
    let (csrf_token, remove_session_cookie) = match session {
        Ok(Session { csrf_token }) => (csrf_token, false),
        Err(SessionError::ExpiredSession) | Err(SessionError::InvalidSession) => (
            fresh_token,
            true,
        ),
        Err(SessionError::InternalError(err)) => {
            return Err(err);
        },
        Err(SessionError::NoCookie) => (fresh_token, false),
    };
    let res = ResponseBuilder::new(STATUS_OK);
    assert(cookie_views(res.cookies@) =~= Seq::empty());
    let res = set_cookie(
        res,
        config.csrf.cookie.as_str(),
        csrf_token.as_str(),
        Some(config.csrf.cookie_lifetime),
        config,
    );
    let res = if remove_session_cookie {
        remove_cookie(res, config.session.cookie.as_str(), config)
    } else {
        res
    };
    assert(cookie_views(res.cookies@) =~= csrf_token_cookies(session, csrf_token@, *config));
    Ok(res.body(TokenBody { field: config.csrf.response_field.clone(), token: csrf_token }))
}

/// Hands out a CSRF token: that of the request's session, or one drawn
/// afresh. See [`get_csrf_token_with`].
pub fn get_csrf_token(session: Result<Session, SessionError>, config: &Config) -> (res: Result<
    Response<TokenBody>,
    InternalError,
>)
    ensures
        res is Err <==> session matches Err(SessionError::InternalError(_)),
        res matches Ok(r) ==> {
            &&& r.status == STATUS_OK
            &&& r.body.field@ == config.csrf.response_field@
            &&& cookie_views(r.cookies@) == csrf_token_cookies(session, r.body.token@, *config)
            &&& match session {
                Ok(s) => r.body.token@ == s.csrf_token@,
                Err(_) => is_token(r.body.token@, config.csrf.token_length),
            }
        },
{
    let fresh_token = generate_token(config.csrf.token_length);
    get_csrf_token_with(session, fresh_token, config)
}

/// What a client sends to log in.
pub struct LoginData {
    pub username: String,
    pub password: String,
    pub totp: Option<String>,
    pub remember: bool,
}

/// What a login tells the client about the user.
pub struct LoginUser {
    pub id: String,
    pub username: String,
    pub totp_enabled: bool,
    pub password_change_reason: Option<PasswordChangeReason>,
    pub icon: Option<String>,
    pub language: Language,
}

/// The body of the response to a login that went through.
pub struct LoginBody {
    /// Name of the field that carries the CSRF token.
    pub csrf_field: String,
    pub csrf_token: String,
    pub data: LoginUser,
    /// Until when the new session counts as freshly authenticated.
    pub sudo_until: i64,
    pub warnings: Vec<AuthWarning>,
}

/// What a login comes to.
pub ghost enum LoginVerdict {
    Refused(AuthErrorKind),
    /// Something that should not happen did: a stored secret could not be
    /// read, or a time could not be used.
    Failed,
    /// The user is let in. `totp_step` is the time step of the passcode that
    /// was used up, if the user has a key; `unused_totp` says that a passcode
    /// was sent for a user without one.
    Accepted { totp_step: Option<i64>, unused_totp: bool },
}

/// Decides a login. An unknown user and a wrong password are refused alike.
/// A user with a key for one-time passcodes must send one; it must verify at
/// `now`, and its time step must lie after the last one accepted for that
/// user. Only then is a user who is not active turned away.
pub open spec fn login_verdict(
    data: LoginData,
    user: Option<UserRow>,
    now: i64,
    config: Config,
) -> LoginVerdict {
    match user {
        None => LoginVerdict::Refused(AuthErrorKind::InvalidCredentials),
        Some(user) => match password_verdict(encode_utf8(data.password@), user.password@, config) {
            None => LoginVerdict::Failed,
            Some(false) => LoginVerdict::Refused(AuthErrorKind::InvalidCredentials),
            Some(true) => match user.totp_key {
                Some(sealed_key) => match data.totp {
                    None => LoginVerdict::Refused(AuthErrorKind::MissingTotp),
                    Some(code) => match opened_envelope(sealed_key@, config) {
                        None => LoginVerdict::Failed,
                        Some(key) => match totp_outcome(key, code@, now as int, config) {
                            Err(VerifyTotpError::InvalidTotp) => LoginVerdict::Refused(
                                AuthErrorKind::InvalidTotp,
                            ),
                            Err(VerifyTotpError::InternalError(_)) => LoginVerdict::Failed,
                            Ok(step) => if user.last_totp_time_step is Some && step
                                <= user.last_totp_time_step->0 {
                                LoginVerdict::Refused(AuthErrorKind::TotpReuse)
                            } else if !user.active {
                                LoginVerdict::Refused(AuthErrorKind::AccountDisabled)
                            } else {
                                LoginVerdict::Accepted { totp_step: Some(step), unused_totp: false }
                            },
                        },
                    },
                },
                None => if !user.active {
                    LoginVerdict::Refused(AuthErrorKind::AccountDisabled)
                } else {
                    LoginVerdict::Accepted { totp_step: None, unused_totp: data.totp is Some }
                },
            },
        },
    }
}

/// The statements of a login: the time step of the passcode is recorded if
/// one was used up; a session is added, stored under the hash of its id; and
/// a remember token is added if the client asked for one, stored under the
/// hash of its id and with the hash of its secret. Each must change one row.
pub open spec fn login_writes(
    user_id: Seq<char>,
    totp_step: Option<i64>,
    remember: bool,
    tokens: FreshTokens,
    now: i64,
    config: Config,
) -> Seq<(DbOpView, RowCount)> {
    let record_step = match totp_step {
        Some(time_step) => seq![
            (DbOpView::SetLastTotpTimeStep { user_id, time_step }, RowCount::ExactlyOne),
        ],
        None => seq![],
    };
    let add_session = seq![
        (
            DbOpView::InsertSession {
                id: hashed(tokens.session_id@),
                user_id,
                csrf_token: tokens.csrf_token@,
                expires: (now + config.session.lifetime) as i64,
                sudo_until: Some((now + config.session.sudo_lifetime) as i64),
            },
            RowCount::ExactlyOne,
        ),
    ];
    let add_token = if remember {
        seq![
            (
                DbOpView::InsertRememberToken {
                    id: hashed(tokens.remember_token_id@),
                    user_id,
                    secret: hashed(tokens.remember_token_secret@),
                },
                RowCount::ExactlyOne,
            ),
        ]
    } else {
        seq![]
    };
    record_step + add_session + add_token
}

/// The cookies of a login: the session cookie, which lasts for the browser
/// session; the CSRF cookie; and the remember cookie, if the client asked for
/// one.
pub open spec fn login_cookies(remember: bool, tokens: FreshTokens, config: Config) -> Seq<
    CookieView,
> {
    let cookies = seq![
        configured_cookie(config.session.cookie@, tokens.session_id@, None, config),
        configured_cookie(
            config.csrf.cookie@,
            tokens.csrf_token@,
            Some(config.csrf.cookie_lifetime),
            config,
        ),
    ];
    if remember {
        cookies.push(
            configured_cookie(
                config.remember_token.cookie@,
                remember_cookie_value(
                    tokens.remember_token_id@,
                    tokens.remember_token_secret@,
                    config,
                ),
                Some(config.remember_token.cookie_lifetime),
                config,
            ),
        )
    } else {
        cookies
    }
}

/// The data of an error that a login or a restore reports: it clears the
/// session cookie if the request came with one that names no live session.
pub open spec fn clearing_session(clear_session_cookie: bool, config: Config) -> ErrorDataView {
    cookies_only(
        if clear_session_cookie {
            seq![cleared_cookie(config.session.cookie@, config)]
        } else {
            seq![]
        },
    )
}

fn refuse(kind: AuthErrorKind, clear_session_cookie: bool, config: &Config) -> (error: AppError)
    ensures
        error matches AppError::Auth(e) && e@ == (
            kind,
            Some(clearing_session(clear_session_cookie, *config)),
        ),
{
    let mut cookies: Vec<Cookie> = Vec::new();
    if clear_session_cookie {
        cookies.push(clear_cookie(config.session.cookie.as_str(), config));
    }
    let data = ErrorData { cookies, csrf_token: None, details: None };
    assert(data@.cookies =~= clearing_session(clear_session_cookie, *config).cookies);
    AppError::Auth(AuthError::of(kind, Some(data)))
}

/// The first step of a login, before the user is looked up: a request with a
/// live session is refused, as logged in already. Else the answer says
/// whether the request came with a session cookie that names no live session,
/// which the response is to clear.
pub fn login_session_check(session: Result<Session, SessionError>) -> (clear: Result<
    bool,
    AppError,
>)
    ensures
        match session {
            Ok(_) => clear matches Err(AppError::Auth(e)) && e@ == (
                AuthErrorKind::AlreadyLoggedIn,
                None::<ErrorDataView>,
            ),
            Err(SessionError::ExpiredSession) | Err(SessionError::InvalidSession) => clear == Ok::<
                bool,
                AppError,
            >(true),
            Err(SessionError::NoCookie) => clear == Ok::<bool, AppError>(false),
            Err(SessionError::InternalError(_)) => clear matches Err(AppError::Internal(_)),
        },
{
    match session {
        Ok(_) => Err(AppError::Auth(AuthError::AlreadyLoggedIn(None))),
        Err(SessionError::ExpiredSession) | Err(SessionError::InvalidSession) => Ok(true),
        Err(SessionError::NoCookie) => Ok(false),
        Err(SessionError::InternalError(err)) => Err(AppError::Internal(err)),
    }
}

/// Logs a user in with the given fresh tokens. `user` is the row of the user
/// whose name, case aside, is `data.username`, if there is one;
/// `clear_session_cookie` is what [`login_session_check`] returned.
pub fn login_with(
    data: LoginData,
    user: Option<UserRow>,
    clear_session_cookie: bool,
    now: i64,
    tokens: FreshTokens,
    config: &Config,
) -> (plan: Plan<LoginBody>)
    requires
        config.wf(),
        -TIME_BOUND < now < TIME_BOUND,
    ensures
        match login_verdict(data, user, now, *config) {
            LoginVerdict::Refused(kind) => {
                &&& plan.writes@.len() == 0
                &&& plan.outcome matches Err(AppError::Auth(e))
                &&& e@ == (kind, Some(clearing_session(clear_session_cookie, *config)))
            },
            LoginVerdict::Failed => {
                &&& plan.writes@.len() == 0
                &&& plan.outcome matches Err(AppError::Internal(_))
            },
            LoginVerdict::Accepted { totp_step, unused_totp } => {
                &&& write_views(plan.writes@) == login_writes(
                    user->0.id@,
                    totp_step,
                    data.remember,
                    tokens,
                    now,
                    *config,
                )
                &&& plan.outcome matches Ok(res)
                &&& res.status == STATUS_OK
                &&& cookie_views(res.cookies@) == login_cookies(data.remember, tokens, *config)
                &&& res.body.csrf_field@ == config.csrf.response_field@
                &&& res.body.csrf_token == tokens.csrf_token
                &&& res.body.data == (LoginUser {
                    id: user->0.id,
                    username: user->0.username,
                    totp_enabled: totp_step is Some,
                    password_change_reason: user->0.password_change_reason,
                    icon: user->0.icon,
                    language: user->0.language,
                })
                &&& res.body.sudo_until == now + config.session.sudo_lifetime
                &&& res.body.warnings@.len() == if unused_totp {
                    1nat
                } else {
                    0nat
                }
                &&& unused_totp ==> res.body.warnings@[0]@ == (
                    AuthWarningKind::UnusedTotp,
                    None::<ErrorDataView>,
                )
            },
        },
{
    let user = match user {
        Some(user) => user,
        None => {
            return Plan::fail(
                refuse(AuthErrorKind::InvalidCredentials, clear_session_cookie, config),
            );
        },
    };
    match verify_password(data.password.as_str(), user.password.as_slice(), config) {
        Ok(true) => {},
        Ok(false) => {
            return Plan::fail(
                refuse(AuthErrorKind::InvalidCredentials, clear_session_cookie, config),
            );
        },
        Err(err) => {
            return Plan::fail(AppError::Internal(err));
        },
    }
    let mut writes: Vec<DbWrite> = Vec::new();
    let mut warnings: Vec<AuthWarning> = Vec::new();
    let ghost mut totp_step: Option<i64> = None;
    let totp_enabled = match &user.totp_key {
        Some(encrypted_totp_key) => {
            let totp = match &data.totp {
                Some(totp) => totp,
                None => {
                    return Plan::fail(
                        refuse(AuthErrorKind::MissingTotp, clear_session_cookie, config),
                    );
                },
            };
            let totp_key = match decrypt(encrypted_totp_key.as_slice(), config) {
                Ok(key) => key,
                Err(err) => {
                    return Plan::fail(AppError::Internal(err));
                },
            };
            let totp_time_step = match verify_totp_at(
                totp_key.as_slice(),
                totp.as_str(),
                now,
                config,
            ) {
                Ok(totp_time_step) => totp_time_step,
                Err(VerifyTotpError::InvalidTotp) => {
                    return Plan::fail(
                        refuse(AuthErrorKind::InvalidTotp, clear_session_cookie, config),
                    );
                },
                Err(VerifyTotpError::InternalError(err)) => {
                    return Plan::fail(AppError::Internal(err));
                },
            };
            if let Some(last_totp_time_step) = user.last_totp_time_step {
                if totp_time_step <= last_totp_time_step {
                    return Plan::fail(
                        refuse(AuthErrorKind::TotpReuse, clear_session_cookie, config),
                    );
                }
            }
            writes.push(
                DbWrite {
                    op: DbOp::SetLastTotpTimeStep {
                        user_id: user.id.clone(),
                        time_step: totp_time_step,
                    },
                    expect: RowCount::ExactlyOne,
                },
            );
            proof {
                totp_step = Some(totp_time_step);
            }
            true
        },
        None => {
            if data.totp.is_some() {
                warnings.push(AuthWarning::UnusedTotp(None));
            }
            false
        },
    };
    if !user.active {
        return Plan::fail(refuse(AuthErrorKind::AccountDisabled, clear_session_cookie, config));
    }
    let session_expires = expiry(now, config.session.lifetime);
    let sudo_until = expiry(now, config.session.sudo_lifetime);
    writes.push(
        DbWrite {
            op: DbOp::InsertSession {
                id: hash(tokens.session_id.as_str()),
                user_id: user.id.clone(),
                csrf_token: tokens.csrf_token.clone(),
                expires: session_expires,
                sudo_until: Some(sudo_until),
            },
            expect: RowCount::ExactlyOne,
        },
    );
    let res = ResponseBuilder::new(STATUS_OK);
    assert(cookie_views(res.cookies@) =~= Seq::empty());
    let res = set_cookie(
        res,
        config.session.cookie.as_str(),
        tokens.session_id.as_str(),
        None,
        config,
    );
    let res = set_cookie(
        res,
        config.csrf.cookie.as_str(),
        tokens.csrf_token.as_str(),
        Some(config.csrf.cookie_lifetime),
        config,
    );
    let res = if data.remember {
        writes.push(
            DbWrite {
                op: DbOp::InsertRememberToken {
                    id: hash(tokens.remember_token_id.as_str()),
                    user_id: user.id.clone(),
                    secret: hash(tokens.remember_token_secret.as_str()),
                },
                expect: RowCount::ExactlyOne,
            },
        );
        let mut remember_token = tokens.remember_token_id.clone();
        remember_token.append(config.remember_token.separator.as_str());
        remember_token.append(tokens.remember_token_secret.as_str());
        set_cookie(
            res,
            config.remember_token.cookie.as_str(),
            remember_token.as_str(),
            Some(config.remember_token.cookie_lifetime),
            config,
        )
    } else {
        res
    };
    assert(write_views(writes@) =~= login_writes(
        user.id@,
        totp_step,
        data.remember,
        tokens,
        now,
        *config,
    ));
    assert(cookie_views(res.cookies@) =~= login_cookies(data.remember, tokens, *config));
    let body = LoginBody {
        csrf_field: config.csrf.response_field.clone(),
        csrf_token: tokens.csrf_token,
        data: LoginUser {
            id: user.id,
            username: user.username,
            totp_enabled,
            password_change_reason: user.password_change_reason,
            icon: user.icon,
            language: user.language,
        },
        sudo_until,
        warnings,
    };
    Plan { writes, outcome: Ok(res.body(body)) }
}

/// Logs a user in, with tokens drawn afresh. See [`login_with`].
pub fn login(
    data: LoginData,
    user: Option<UserRow>,
    clear_session_cookie: bool,
    now: i64,
    config: &Config,
) -> (plan: Plan<LoginBody>)
    requires
        config.wf(),
        -TIME_BOUND < now < TIME_BOUND,
    ensures
        match login_verdict(data, user, now, *config) {
            LoginVerdict::Refused(kind) => {
                &&& plan.writes@.len() == 0
                &&& plan.outcome matches Err(AppError::Auth(e))
                &&& e@ == (kind, Some(clearing_session(clear_session_cookie, *config)))
            },
            LoginVerdict::Failed => {
                &&& plan.writes@.len() == 0
                &&& plan.outcome matches Err(AppError::Internal(_))
            },
            LoginVerdict::Accepted { totp_step, unused_totp } => exists|tokens: FreshTokens|
                {
                    &&& tokens.wf(*config)
                    &&& write_views(plan.writes@) == #[trigger] login_writes(
                        user->0.id@,
                        totp_step,
                        data.remember,
                        tokens,
                        now,
                        *config,
                    )
                    &&& plan.outcome matches Ok(res)
                    &&& res.status == STATUS_OK
                    &&& cookie_views(res.cookies@) == login_cookies(
                        data.remember,
                        tokens,
                        *config,
                    )
                    &&& res.body.csrf_field@ == config.csrf.response_field@
                    &&& res.body.csrf_token == tokens.csrf_token
                    &&& res.body.data == (LoginUser {
                        id: user->0.id,
                        username: user->0.username,
                        totp_enabled: totp_step is Some,
                        password_change_reason: user->0.password_change_reason,
                        icon: user->0.icon,
                        language: user->0.language,
                    })
                    &&& res.body.sudo_until == now + config.session.sudo_lifetime
                    &&& res.body.warnings@.len() == if unused_totp {
                        1nat
                    } else {
                        0nat
                    }
                    &&& unused_totp ==> res.body.warnings@[0]@ == (
                        AuthWarningKind::UnusedTotp,
                        None::<ErrorDataView>,
                    )
                },
        },
{
    let tokens = FreshTokens::generate(config);
    login_with(data, user, clear_session_cookie, now, tokens, config)
}

/// A passcode that was accepted once is refused when it is sent again: if a
/// login was accepted with the passcode of time step `step`, and that step
/// was recorded for the user, the same login at the same time is refused as
/// a reuse of the passcode.
pub proof fn lemma_accepted_totp_is_refused_again(
    data: LoginData,
    user: UserRow,
    now: i64,
    config: Config,
    step: i64,
)
    requires
        login_verdict(data, Some(user), now, config) matches LoginVerdict::Accepted {
            totp_step: Some(s),
            ..
        } && s == step,
    ensures
        login_verdict(
            data,
            Some(UserRow { last_totp_time_step: Some(step), ..user }),
            now,
            config,
        ) == LoginVerdict::Refused(AuthErrorKind::TotpReuse),
{
}

/// The statements of a logout: the session of the request is deleted, which
/// must change one row, and the remember token that the remember cookie
/// names, if the cookie is there and has the shape of one, which must change
/// at most one.
pub open spec fn logout_writes(
    session_id_hash: Seq<u8>,
    remember_cookie: Option<Seq<char>>,
    config: Config,
) -> Seq<(DbOpView, RowCount)> {
    let delete_session = seq![
        (DbOpView::DeleteSession { id: session_id_hash }, RowCount::ExactlyOne),
    ];
    match remember_cookie {
        Some(cookie) => match split_first(cookie, config.remember_token.separator@) {
            Some((id, _)) => delete_session.push(
                (DbOpView::DeleteRememberToken { id: hashed(id) }, RowCount::AtMostOne),
            ),
            None => delete_session,
        },
        None => delete_session,
    }
}

/// The cookies of a logout: a CSRF cookie with a fresh token, the cookie
/// that clears the session cookie and, where the request came with a remember
/// cookie, the cookie that clears it.
pub open spec fn logout_cookies(remember_cookie: bool, token: Seq<char>, config: Config) -> Seq<
    CookieView,
> {
    let cookies = seq![
        configured_cookie(
            config.csrf.cookie@,
            token,
            Some(config.csrf.cookie_lifetime),
            config,
        ),
        cleared_cookie(config.session.cookie@, config),
    ];
    if remember_cookie {
        cookies.push(cleared_cookie(config.remember_token.cookie@, config))
    } else {
        cookies
    }
}

/// Ends the session of a request, with the given fresh CSRF token for the
/// response.
pub fn logout_with(
    user: &CurrentUser,
    remember_cookie: Option<&str>,
    csrf_token: String,
    config: &Config,
) -> (plan: Plan<TokenBody>)
    ensures
        write_views(plan.writes@) == logout_writes(
            user.session_id_hash@,
            remember_cookie.deep_view(),
            *config,
        ),
        plan.outcome matches Ok(res) && {
            &&& res.status == STATUS_OK
            &&& res.body.field@ == config.csrf.response_field@
            &&& res.body.token == csrf_token
            &&& cookie_views(res.cookies@) == logout_cookies(
                remember_cookie is Some,
                csrf_token@,
                *config,
            )
        },
{
    let mut writes: Vec<DbWrite> = Vec::new();
    writes.push(
        DbWrite {
            op: DbOp::DeleteSession { id: user.session_id_hash.clone() },
            expect: RowCount::ExactlyOne,
        },
    );
    if let Some(remember_token) = remember_cookie {
        if let Some((remember_token_id, _)) = split_remember_cookie(remember_token, config) {
            writes.push(
                DbWrite {
                    op: DbOp::DeleteRememberToken { id: hash(remember_token_id) },
                    expect: RowCount::AtMostOne,
                },
            );
        }
    }
    assert(write_views(writes@) =~= logout_writes(
        user.session_id_hash@,
        remember_cookie.deep_view(),
        *config,
    ));
    let res = ResponseBuilder::new(STATUS_OK);
    assert(cookie_views(res.cookies@) =~= Seq::empty());
    let res = set_cookie(
        res,
        config.csrf.cookie.as_str(),
        csrf_token.as_str(),
        Some(config.csrf.cookie_lifetime),
        config,
    );
    let res = remove_cookie(res, config.session.cookie.as_str(), config);
    let res = if remember_cookie.is_some() {
        remove_cookie(res, config.remember_token.cookie.as_str(), config)
    } else {
        res
    };
    assert(cookie_views(res.cookies@) =~= logout_cookies(
        remember_cookie is Some,
        csrf_token@,
        *config,
    ));
    Plan {
        writes,
        outcome: Ok(
            res.body(TokenBody { field: config.csrf.response_field.clone(), token: csrf_token }),
        ),
    }
}

/// Ends the session of a request, with a CSRF token drawn afresh. See
/// [`logout_with`].
pub fn logout(user: &CurrentUser, remember_cookie: Option<&str>, config: &Config) -> (plan: Plan<
    TokenBody,
>)
    ensures
        write_views(plan.writes@) == logout_writes(
            user.session_id_hash@,
            remember_cookie.deep_view(),
            *config,
        ),
        plan.outcome matches Ok(res) && {
            &&& res.status == STATUS_OK
            &&& res.body.field@ == config.csrf.response_field@
            &&& is_token(res.body.token@, config.csrf.token_length)
            &&& cookie_views(res.cookies@) == logout_cookies(
                remember_cookie is Some,
                res.body.token@,
                *config,
            )
        },
{
    let csrf_token = generate_token(config.csrf.token_length);
    logout_with(user, remember_cookie, csrf_token, config)
}

/// The statements that end all sessions of a user: every session of the user
/// is deleted, which must change at least one row, that of the request, and
/// every remember token of the user.
pub open spec fn logout_all_sessions_writes(user_id: Seq<char>) -> Seq<(DbOpView, RowCount)> {
    seq![
        (DbOpView::DeleteUserSessions { user_id }, RowCount::AtLeastOne),
        (DbOpView::DeleteUserRememberTokens { user_id }, RowCount::Any),
    ]
}

/// The cookies of a logout from all sessions: those of a logout, the session
/// cookie being cleared last.
pub open spec fn logout_all_sessions_cookies(
    remember_cookie: bool,
    token: Seq<char>,
    config: Config,
) -> Seq<CookieView> {
    let csrf_cookie = configured_cookie(
        config.csrf.cookie@,
        token,
        Some(config.csrf.cookie_lifetime),
        config,
    );
    let clear_session = cleared_cookie(config.session.cookie@, config);
    if remember_cookie {
        seq![csrf_cookie, cleared_cookie(config.remember_token.cookie@, config), clear_session]
    } else {
        seq![csrf_cookie, clear_session]
    }
}

/// Ends every session of the user and forgets every remember token, with the
/// given fresh CSRF token for the response.
pub fn logout_all_sessions_with(
    user: &CurrentUser,
    remember_cookie: bool,
    csrf_token: String,
    config: &Config,
) -> (plan: Plan<TokenBody>)
    ensures
        write_views(plan.writes@) == logout_all_sessions_writes(user.id@),
        plan.outcome matches Ok(res) && {
            &&& res.status == STATUS_OK
            &&& res.body.field@ == config.csrf.response_field@
            &&& res.body.token == csrf_token
            &&& cookie_views(res.cookies@) == logout_all_sessions_cookies(
                remember_cookie,
                csrf_token@,
                *config,
            )
        },
{
    let mut writes: Vec<DbWrite> = Vec::new();
    writes.push(
        DbWrite {
            op: DbOp::DeleteUserSessions { user_id: user.id.clone() },
            expect: RowCount::AtLeastOne,
        },
    );
    writes.push(
        DbWrite {
            op: DbOp::DeleteUserRememberTokens { user_id: user.id.clone() },
            expect: RowCount::Any,
        },
    );
    assert(write_views(writes@) =~= logout_all_sessions_writes(user.id@));
    let res = ResponseBuilder::new(STATUS_OK);
    assert(cookie_views(res.cookies@) =~= Seq::empty());
    let mut res = set_cookie(
        res,
        config.csrf.cookie.as_str(),
        csrf_token.as_str(),
        Some(config.csrf.cookie_lifetime),
        config,
    );
    if remember_cookie {
        res = remove_cookie(res, config.remember_token.cookie.as_str(), config);
    }
    let res = remove_cookie(res, config.session.cookie.as_str(), config);
    assert(cookie_views(res.cookies@) =~= logout_all_sessions_cookies(
        remember_cookie,
        csrf_token@,
        *config,
    ));
    Plan {
        writes,
        outcome: Ok(
            res.body(TokenBody { field: config.csrf.response_field.clone(), token: csrf_token }),
        ),
    }
}

/// Ends every session of the user, with a CSRF token drawn afresh. See
/// [`logout_all_sessions_with`].
pub fn logout_all_sessions(user: &CurrentUser, remember_cookie: bool, config: &Config) -> (plan:
    Plan<TokenBody>)
    ensures
        write_views(plan.writes@) == logout_all_sessions_writes(user.id@),
        plan.outcome matches Ok(res) && {
            &&& res.status == STATUS_OK
            &&& res.body.field@ == config.csrf.response_field@
            &&& is_token(res.body.token@, config.csrf.token_length)
            &&& cookie_views(res.cookies@) == logout_all_sessions_cookies(
                remember_cookie,
                res.body.token@,
                *config,
            )
        },
{
    let csrf_token = generate_token(config.csrf.token_length);
    logout_all_sessions_with(user, remember_cookie, csrf_token, config)
}

/// The body of the response to a restore that went through.
pub struct RestoreBody {
    pub csrf_token: String,
}

/// The cookies of a restore that went through: the CSRF cookie, the remember
/// cookie with the token's new secret, and the session cookie.
pub open spec fn restore_cookies(token_id: Seq<char>, tokens: FreshTokens, config: Config) -> Seq<
    CookieView,
> {
    seq![
        configured_cookie(
            config.csrf.cookie@,
            tokens.csrf_token@,
            Some(config.csrf.cookie_lifetime),
            config,
        ),
        configured_cookie(
            config.remember_token.cookie@,
            remember_cookie_value(token_id, tokens.remember_token_secret@, config),
            Some(config.remember_token.cookie_lifetime),
            config,
        ),
        configured_cookie(config.session.cookie@, tokens.session_id@, None, config),
    ]
}

/// Error data that clears the remember cookie.
pub open spec fn clearing_remember_token(config: Config) -> ErrorDataView {
    cookies_only(seq![cleared_cookie(config.remember_token.cookie@, config)])
}

fn refuse_remember_token(kind: AuthErrorKind, config: &Config) -> (error: AppError)
    ensures
        error matches AppError::Auth(e) && e@ == (kind, Some(clearing_remember_token(*config))),
{
    let mut cookies: Vec<Cookie> = Vec::new();
    cookies.push(clear_cookie(config.remember_token.cookie.as_str(), config));
    let data = ErrorData { cookies, csrf_token: None, details: None };
    assert(data@.cookies =~= clearing_remember_token(*config).cookies);
    AppError::Auth(AuthError::of(kind, Some(data)))
}

/// Answers a request to log in again from a remember cookie, with the given
/// fresh tokens. `token_row` is the remember token stored under the hash of
/// the id that the cookie names, if the cookie has the shape of one and such
/// a token is stored.
///
/// A request with a session cookie is refused as logged in already, and one
/// without a remember cookie as lacking it; neither touches the store. A
/// cookie that does not split or names no stored token is invalid. A wrong
/// secret revokes what lets the user in and is reported as a mismatch. A
/// good token of a user who is not active is refused. Each of these three
/// clears the remember cookie. Else the session is made and the secret
/// replaced.
pub fn restore_session_with_tokens(
    session_cookie: bool,
    remember_cookie: Option<&str>,
    token_row: Option<RememberTokenUserRow>,
    now: i64,
    tokens: FreshTokens,
    config: &Config,
) -> (plan: Plan<RestoreBody>)
    requires
        -TIME_BOUND < now < TIME_BOUND,
    ensures
        session_cookie ==> {
            &&& plan.writes@.len() == 0
            &&& plan.outcome matches Err(AppError::Auth(e))
            &&& e@ == (AuthErrorKind::AlreadyLoggedIn, None::<ErrorDataView>)
        },
        !session_cookie ==> match restore_verdict(
            false,
            None,
            remember_cookie.deep_view(),
            token_row,
            now,
            *config,
        ) {
            RestoreVerdict::Refused(RestoreSessionError::InvalidRememberToken) => {
                &&& plan.writes@.len() == 0
                &&& plan.outcome matches Err(AppError::Auth(e))
                &&& e@ == (
                    AuthErrorKind::InvalidRememberToken,
                    Some(clearing_remember_token(*config)),
                )
            },
            RestoreVerdict::Refused(RestoreSessionError::AccountDisabled) => {
                &&& plan.writes@.len() == 0
                &&& plan.outcome matches Err(AppError::Auth(e))
                &&& e@ == (AuthErrorKind::AccountDisabled, Some(clearing_remember_token(*config)))
            },
            RestoreVerdict::Refused(_) => {
                &&& plan.writes@.len() == 0
                &&& plan.outcome matches Err(AppError::Auth(e))
                &&& e@ == (AuthErrorKind::MissingRememberToken, None::<ErrorDataView>)
            },
            RestoreVerdict::Revoked => {
                &&& write_views(plan.writes@) == revocation_writes(token_row->0.user.id@)
                &&& plan.outcome matches Err(AppError::Auth(e))
                &&& e@ == (
                    AuthErrorKind::RememberTokenSecretMismatch,
                    Some(clearing_remember_token(*config)),
                )
            },
            RestoreVerdict::Renewed => {
                let token_id = remember_token_id(remember_cookie->0@, *config);
                &&& write_views(plan.writes@) == renewal_writes(
                    token_row->0.user.id@,
                    token_id,
                    tokens,
                    now,
                    *config,
                )
                &&& plan.outcome matches Ok(res)
                &&& res.status == STATUS_OK
                &&& res.body.csrf_token == tokens.csrf_token
                &&& cookie_views(res.cookies@) == restore_cookies(token_id, tokens, *config)
            },
            RestoreVerdict::Existing => false,
        },
{
    if session_cookie {
        return Plan::fail(AppError::Auth(AuthError::AlreadyLoggedIn(None)));
    }
    let ghost token_id = remember_token_id(remember_cookie->0@, *config);
    let ghost csrf_token = tokens.csrf_token@;
    let ghost session_id = tokens.session_id@;
    let restored = restore_session_with(None, None, remember_cookie, token_row, now, tokens, config);
    match restored.result {
        Ok(session) => {
            let renewed = match restored.renewed {
                Some(renewed) => renewed,
                None => {
                    return Plan::fail(AppError::Internal(InternalError));
                },
            };
            let res = ResponseBuilder::new(STATUS_OK);
            assert(cookie_views(res.cookies@) =~= Seq::empty());
            let res = set_cookie(
                res,
                config.csrf.cookie.as_str(),
                session.csrf_token.as_str(),
                Some(config.csrf.cookie_lifetime),
                config,
            );
            let res = set_cookie(
                res,
                config.remember_token.cookie.as_str(),
                renewed.remember_token.as_str(),
                Some(config.remember_token.cookie_lifetime),
                config,
            );
            let res = set_cookie(
                res,
                config.session.cookie.as_str(),
                renewed.session_id.as_str(),
                None,
                config,
            );
            assert(cookie_views(res.cookies@) =~= restore_cookies(token_id, tokens, *config));
            Plan {
                writes: restored.writes,
                outcome: Ok(res.body(RestoreBody { csrf_token: session.csrf_token })),
            }
        },
        Err(RestoreSessionError::RememberTokenMismatch) => Plan {
            writes: restored.writes,
            outcome: Err(
                refuse_remember_token(AuthErrorKind::RememberTokenSecretMismatch, config),
            ),
        },
        Err(RestoreSessionError::InvalidRememberToken) => Plan::fail(
            refuse_remember_token(AuthErrorKind::InvalidRememberToken, config),
        ),
        Err(RestoreSessionError::AccountDisabled) => Plan::fail(
            refuse_remember_token(AuthErrorKind::AccountDisabled, config),
        ),
        Err(RestoreSessionError::InternalError(err)) => Plan::fail(AppError::Internal(err)),
        Err(_) => Plan::fail(AppError::Auth(AuthError::MissingRememberToken(None))),
    }
}

/// Answers a request to log in again from a remember cookie, with tokens
/// drawn afresh. See [`restore_session_with_tokens`].
pub fn restore_session(
    session_cookie: bool,
    remember_cookie: Option<&str>,
    token_row: Option<RememberTokenUserRow>,
    now: i64,
    config: &Config,
) -> (plan: Plan<RestoreBody>)
    requires
        -TIME_BOUND < now < TIME_BOUND,
    ensures
        session_cookie ==> {
            &&& plan.writes@.len() == 0
            &&& plan.outcome matches Err(AppError::Auth(e))
            &&& e@ == (AuthErrorKind::AlreadyLoggedIn, None::<ErrorDataView>)
        },
        !session_cookie ==> match restore_verdict(
            false,
            None,
            remember_cookie.deep_view(),
            token_row,
            now,
            *config,
        ) {
            RestoreVerdict::Refused(RestoreSessionError::InvalidRememberToken) => {
                &&& plan.writes@.len() == 0
                &&& plan.outcome matches Err(AppError::Auth(e))
                &&& e@ == (
                    AuthErrorKind::InvalidRememberToken,
                    Some(clearing_remember_token(*config)),
                )
            },
            RestoreVerdict::Refused(RestoreSessionError::AccountDisabled) => {
                &&& plan.writes@.len() == 0
                &&& plan.outcome matches Err(AppError::Auth(e))
                &&& e@ == (AuthErrorKind::AccountDisabled, Some(clearing_remember_token(*config)))
            },
            RestoreVerdict::Refused(_) => {
                &&& plan.writes@.len() == 0
                &&& plan.outcome matches Err(AppError::Auth(e))
                &&& e@ == (AuthErrorKind::MissingRememberToken, None::<ErrorDataView>)
            },
            RestoreVerdict::Revoked => {
                &&& write_views(plan.writes@) == revocation_writes(token_row->0.user.id@)
                &&& plan.outcome matches Err(AppError::Auth(e))
                &&& e@ == (
                    AuthErrorKind::RememberTokenSecretMismatch,
                    Some(clearing_remember_token(*config)),
                )
            },
            RestoreVerdict::Renewed => exists|tokens: FreshTokens|
                {
                    &&& tokens.wf(*config)
                    &&& write_views(plan.writes@) == #[trigger] renewal_writes(
                        token_row->0.user.id@,
                        remember_token_id(remember_cookie->0@, *config),
                        tokens,
                        now,
                        *config,
                    )
                    &&& plan.outcome matches Ok(res)
                    &&& res.status == STATUS_OK
                    &&& res.body.csrf_token == tokens.csrf_token
                    &&& cookie_views(res.cookies@) == restore_cookies(
                        remember_token_id(remember_cookie->0@, *config),
                        tokens,
                        *config,
                    )
                },
            RestoreVerdict::Existing => false,
        },
{
    let tokens = FreshTokens::generate(config);
    restore_session_with_tokens(session_cookie, remember_cookie, token_row, now, tokens, config)
}

} // verus!
