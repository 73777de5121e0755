use vstd::prelude::*;
use vstd::string::StringSliceAdditionalSpecFns;
use crate::config::Config;
use crate::db::{Language, PasswordChangeReason, Permission};
use crate::error::{
    AuthError, AuthErrorKind, CsrfError, CsrfErrorKind, ErrorData, ErrorDataView, InternalError,
};
use crate::trusted::secret_eq;
use crate::util::{
    clear_cookie, cleared_cookie, configured_cookie, cookie_views, generate_token, hash, hashed,
    is_token, make_cookie, Cookie, CookieView, Session, SessionError,
};

verus! {

/// Loads the name of the user.
pub const WITH_USERNAME: u16 = 1;

/// Loads the password hash of the user.
pub const WITH_PASSWORD_HASH: u16 = 2;

/// Loads whether the user has a key for one-time passcodes.
pub const WITH_TOTP_STATUS: u16 = 4;

/// Loads why the user has to change the password, if so.
pub const WITH_PASSWORD_CHANGE_REASON: u16 = 8;

/// Loads the icon of the user.
pub const WITH_ICON: u16 = 16;

/// Loads the language of the user.
pub const WITH_LOCALE: u16 = 32;

/// Loads the permissions of the user.
pub const WITH_PERMISSIONS: u16 = 64;

/// Loads until when the session counts as freshly authenticated.
pub const WITH_SUDO_UNTIL: u16 = 128;

/// Lets in a user who has to change the password.
pub const ALLOW_PASSWORD_CHANGE_REASON: u16 = 256;

/// What a handler behind [`AuthRequired`] wants to know of the current user,
/// and whether it lets in a user who has to change the password. A set of
/// flags, one bit each.
#[derive(Clone, Copy, Debug, PartialEq, Eq, Structural)]
pub struct AuthRequiredOptions {
    pub bits: u16,
}

impl AuthRequiredOptions {
    /// Every bit of `flags` is set.
    pub open spec fn has(&self, flags: u16) -> bool {
        self.bits & flags == flags
    }

    /// No flag.
    pub fn empty() -> (options: AuthRequiredOptions)
        ensures
            options.bits == 0,
    {
        AuthRequiredOptions { bits: 0 }
    }

    /// The given flags.
    pub fn from_bits(bits: u16) -> (options: AuthRequiredOptions)
        ensures
            options.bits == bits,
    {
        AuthRequiredOptions { bits }
    }

    /// The flags of both.
    pub fn union(self, other: AuthRequiredOptions) -> (options: AuthRequiredOptions)
        ensures
            options.bits == self.bits | other.bits,
            options.has(self.bits),
            options.has(other.bits),
    {
        let a = self.bits;
        let b = other.bits;
        assert((a | b) & a == a && (a | b) & b == b) by (bit_vector);
        AuthRequiredOptions { bits: a | b }
    }

    /// Whether every bit of `flags` is set.
    pub fn contains(&self, flags: u16) -> (contained: bool)
        ensures
            contained == self.has(flags),
    {
        self.bits & flags == flags
    }
}

impl Default for AuthRequiredOptions {
    fn default() -> (options: AuthRequiredOptions)
        ensures
            options.bits == 0,
    {
        AuthRequiredOptions { bits: 0 }
    }
}

/// The user who makes a request, as far as the handler asked to know.
pub struct CurrentUser {
    pub id: String,
    pub session_id_hash: Vec<u8>,
    pub username: Option<String>,
    pub password_hash: Option<String>,
    pub totp_enabled: Option<bool>,
    pub password_change_reason: Option<Option<PasswordChangeReason>>,
    pub icon: Option<Option<String>>,
    pub language: Option<Language>,
    pub permissions: Option<Vec<Permission>>,
    pub sudo_until: Option<Option<i64>>,
}

impl Default for CurrentUser {
    fn default() -> (user: CurrentUser)
        ensures
            user.id@.len() == 0,
            user.session_id_hash@.len() == 0,
            user.username is None,
            user.password_hash is None,
            user.totp_enabled is None,
            user.password_change_reason is None,
            user.icon is None,
            user.language is None,
            user.permissions is None,
            user.sudo_until is None,
    {
        CurrentUser {
            id: String::new(),
            session_id_hash: Vec::new(),
            username: None,
            password_hash: None,
            totp_enabled: None,
            password_change_reason: None,
            icon: None,
            language: None,
            permissions: None,
            sudo_until: None,
        }
    }
}

/// A user joined with the session under which a request was made. The columns
/// that the options of the check do not ask for are not read, and may hold
/// anything.
pub struct AuthRow {
    pub id: String,
    pub active: bool,
    pub expires: i64,
    pub username: String,
    pub password: String,
    pub totp_enabled: bool,
    pub password_change_reason: Option<PasswordChangeReason>,
    pub icon: Option<String>,
    pub language: Language,
    pub sudo_until: Option<i64>,
}

/// The check that lets a request through only if it comes with a live
/// session of an active user.
pub struct AuthRequired {
    pub config: Config,
    pub options: AuthRequiredOptions,
}

/// Error data that only sets cookies.
pub open spec fn cookies_only(cookies: Seq<CookieView>) -> ErrorDataView {
    ErrorDataView { cookies, csrf_token: None, details: None }
}

/// Why a request is refused, if it is. Without a stored session it is not
/// logged in, and with one that has run out its session has expired; either
/// way the session cookie is cleared. For a user who is not active the
/// account is disabled, and both the remember cookie and the session cookie
/// are cleared. A user who has to change the password is let in only where
/// the options allow it.
pub open spec fn auth_refusal(
    row: Option<AuthRow>,
    options: AuthRequiredOptions,
    now: i64,
    config: Config,
) -> Option<(AuthErrorKind, Option<ErrorDataView>)> {
    let clear_session = cleared_cookie(config.session.cookie@, config);
    let clear_remember = cleared_cookie(config.remember_token.cookie@, config);
    match row {
        None => Some((AuthErrorKind::NotLoggedIn, Some(cookies_only(seq![clear_session])))),
        Some(row) => if row.expires < now {
            Some((AuthErrorKind::SessionExpired, Some(cookies_only(seq![clear_session]))))
        } else if !row.active {
            Some(
                (
                    AuthErrorKind::AccountDisabled,
                    Some(cookies_only(seq![clear_remember, clear_session])),
                ),
            )
        } else if !options.has(ALLOW_PASSWORD_CHANGE_REASON)
            && row.password_change_reason is Some {
            Some((AuthErrorKind::PasswordChangeRequired, None))
        } else {
            None
        },
    }
}

/// The current user that a row gives a handler: id and session always, each
/// other column only where the options ask for it. Permissions are loaded
/// afterwards.
pub open spec fn current_user_of(
    session_id_hash: Vec<u8>,
    row: AuthRow,
    options: AuthRequiredOptions,
) -> CurrentUser {
    CurrentUser {
        id: row.id,
        session_id_hash,
        username: if options.has(WITH_USERNAME) {
            Some(row.username)
        } else {
            None
        },
        password_hash: if options.has(WITH_PASSWORD_HASH) {
            Some(row.password)
        } else {
            None
        },
        totp_enabled: if options.has(WITH_TOTP_STATUS) {
            Some(row.totp_enabled)
        } else {
            None
        },
        password_change_reason: if options.has(WITH_PASSWORD_CHANGE_REASON) {
            Some(row.password_change_reason)
        } else {
            None
        },
        icon: if options.has(WITH_ICON) {
            Some(row.icon)
        } else {
            None
        },
        language: if options.has(WITH_LOCALE) {
            Some(row.language)
        } else {
            None
        },
        permissions: None,
        sudo_until: if options.has(WITH_SUDO_UNTIL) {
            Some(row.sudo_until)
        } else {
            None
        },
    }
}

/// A column, if it is wanted.
pub open spec fn column_if(wanted: bool, column: Seq<char>) -> Seq<Seq<char>> {
    if wanted {
        seq![column]
    } else {
        seq![]
    }
}

/// The columns that the check reads: id, activity and expiry always, each
/// other one if the options ask for it, and the reason for a change of
/// password also where the check itself needs it.
pub open spec fn auth_columns(options: AuthRequiredOptions) -> Seq<Seq<char>> {
    seq!["\"users\".\"id\""@, "\"users\".\"active\""@, "\"sessions\".\"expires\""@] + column_if(
        options.has(WITH_USERNAME),
        "\"users\".\"username\""@,
    ) + column_if(options.has(WITH_PASSWORD_HASH), "\"users\".\"password\""@) + column_if(
        options.has(WITH_TOTP_STATUS),
        "\"users\".\"totp_key\" IS NOT NULL AS \"totp_enabled\""@,
    ) + column_if(
        AuthRequired::reads_password_change_reason(options),
        "\"users\".\"password_change_reason\""@,
    ) + column_if(options.has(WITH_ICON), "\"users\".\"icon\""@) + column_if(
        options.has(WITH_LOCALE),
        "\"users\".\"language\""@,
    ) + column_if(options.has(WITH_SUDO_UNTIL), "\"sessions\".\"sudo_until\""@)
}

fn push_column(columns: &mut Vec<String>, wanted: bool, column: &str)
    ensures
        final(columns).deep_view() == old(columns).deep_view() + column_if(wanted, column@),
{
    let ghost before = columns.deep_view();
    if wanted {
        columns.push(column.to_owned());
    }
    assert(columns.deep_view() =~= before + column_if(wanted, column@));
}

/// Error data that clears the given cookies, in the given order.
fn clearing(first: Option<&str>, second: &str, config: &Config) -> (data: Option<ErrorData>)
    ensures
        data matches Some(d) && d@ == cookies_only(
            match first {
                Some(name) => seq![
                    cleared_cookie(name@, *config),
                    cleared_cookie(second@, *config),
                ],
                None => seq![cleared_cookie(second@, *config)],
            },
        ),
{
    let mut cookies: Vec<Cookie> = Vec::new();
    if let Some(name) = first {
        cookies.push(clear_cookie(name, config));
    }
    cookies.push(clear_cookie(second, config));
    let data = ErrorData { cookies, csrf_token: None, details: None };
    assert(data@.cookies =~= match first {
        Some(name) => seq![cleared_cookie(name@, *config), cleared_cookie(second@, *config)],
        None => seq![cleared_cookie(second@, *config)],
    });
    Some(data)
}

impl AuthRequired {
    /// The check with the given options.
    pub fn new(options: AuthRequiredOptions, config: Config) -> (check: AuthRequired)
        ensures
            check.options == options,
            check.config == config,
    {
        AuthRequired { config, options }
    }

    /// The check with no option set.
    pub fn defaults(config: Config) -> (check: AuthRequired)
        ensures
            check.options.bits == 0,
            check.config == config,
    {
        AuthRequired { config, options: AuthRequiredOptions::default() }
    }

    /// Whether the check reads why the user has to change the password:
    /// either the handler asked for it, or the check itself needs it to turn
    /// such a user away.
    pub open spec fn reads_password_change_reason(options: AuthRequiredOptions) -> bool {
        options.has(WITH_PASSWORD_CHANGE_REASON) || !options.has(
            ALLOW_PASSWORD_CHANGE_REASON,
        )
    }

    /// The columns that the check reads of the user and the session, as
    /// the statement that looks them up lists them.
    pub fn columns(&self) -> (columns: Vec<String>)
        ensures
            columns.deep_view() == auth_columns(self.options),
    {
        let options = &self.options;
        let mut columns: Vec<String> = Vec::new();
        assert(columns.deep_view() =~= Seq::empty());
        push_column(&mut columns, true, "\"users\".\"id\"");
        push_column(&mut columns, true, "\"users\".\"active\"");
        push_column(&mut columns, true, "\"sessions\".\"expires\"");
        push_column(&mut columns, options.contains(WITH_USERNAME), "\"users\".\"username\"");
        push_column(
            &mut columns,
            options.contains(WITH_PASSWORD_HASH),
            "\"users\".\"password\"",
        );
        push_column(
            &mut columns,
            options.contains(WITH_TOTP_STATUS),
            "\"users\".\"totp_key\" IS NOT NULL AS \"totp_enabled\"",
        );
        push_column(
            &mut columns,
            options.contains(WITH_PASSWORD_CHANGE_REASON) || !options.contains(
                ALLOW_PASSWORD_CHANGE_REASON,
            ),
            "\"users\".\"password_change_reason\"",
        );
        push_column(&mut columns, options.contains(WITH_ICON), "\"users\".\"icon\"");
        push_column(&mut columns, options.contains(WITH_LOCALE), "\"users\".\"language\"");
        push_column(
            &mut columns,
            options.contains(WITH_SUDO_UNTIL),
            "\"sessions\".\"sudo_until\"",
        );
        assert(columns.deep_view() =~= auth_columns(self.options));
        columns
    }

    /// The hash under which the session of a request is stored. A request
    /// without a session cookie is not logged in.
    pub fn session_key(&self, session_cookie: Option<&str>) -> (key: Result<Vec<u8>, AuthError>)
        ensures
            match key {
                Ok(k) => session_cookie matches Some(id) && k@ == hashed(id@),
                Err(e) => session_cookie is None && e@ == (AuthErrorKind::NotLoggedIn, None::<
                    ErrorDataView,
                >),
            },
    {
        match session_cookie {
            Some(id) => Ok(hash(id)),
            None => Err(AuthError::NotLoggedIn(None)),
        }
    }

    /// Whether the permissions of the user are to be loaded once the check
    /// has passed.
    pub fn wants_permissions(&self) -> (wanted: bool)
        ensures
            wanted == self.options.has(WITH_PERMISSIONS),
    {
        self.options.contains(WITH_PERMISSIONS)
    }

    /// Decides whether the request goes through. `row` is the user joined
    /// with the session stored under `session_id_hash`, if there is one.
    pub fn check(&self, session_id_hash: Vec<u8>, row: Option<AuthRow>, now: i64) -> (user: Result<
        CurrentUser,
        AuthError,
    >)
        ensures
            match user {
                Ok(u) => auth_refusal(row, self.options, now, self.config) is None && u
                    == current_user_of(session_id_hash, row->0, self.options),
                Err(e) => auth_refusal(row, self.options, now, self.config) == Some(e@),
            },
    {
        let row = match row {
            Some(row) => row,
            None => {
                return Err(
                    AuthError::NotLoggedIn(
                        clearing(None, self.config.session.cookie.as_str(), &self.config),
                    ),
                );
            },
        };
        if row.expires < now {
            return Err(
                AuthError::SessionExpired(
                    clearing(None, self.config.session.cookie.as_str(), &self.config),
                ),
            );
        }
        if !row.active {
            return Err(
                AuthError::AccountDisabled(
                    clearing(
                        Some(self.config.remember_token.cookie.as_str()),
                        self.config.session.cookie.as_str(),
                        &self.config,
                    ),
                ),
            );
        }
        if !self.options.contains(ALLOW_PASSWORD_CHANGE_REASON) {
            if row.password_change_reason.is_some() {
                return Err(AuthError::PasswordChangeRequired(None));
            }
        }
        let mut user = CurrentUser {
            id: row.id,
            session_id_hash,
            username: None,
            password_hash: None,
            totp_enabled: None,
            password_change_reason: None,
            icon: None,
            language: None,
            permissions: None,
            sudo_until: None,
        };
        if self.options.contains(WITH_USERNAME) {
            user.username = Some(row.username);
        }
        if self.options.contains(WITH_PASSWORD_HASH) {
            user.password_hash = Some(row.password);
        }
        if self.options.contains(WITH_TOTP_STATUS) {
            user.totp_enabled = Some(row.totp_enabled);
        }
        if self.options.contains(WITH_PASSWORD_CHANGE_REASON) {
            user.password_change_reason = Some(row.password_change_reason);
        }
        if self.options.contains(WITH_ICON) {
            user.icon = Some(row.icon);
        }
        if self.options.contains(WITH_LOCALE) {
            user.language = Some(row.language);
        }
        if self.options.contains(WITH_SUDO_UNTIL) {
            user.sudo_until = Some(row.sudo_until);
        }
        Ok(user)
    }
}

/// The header that carries the copy of the CSRF token, as a request has it.
pub enum CsrfHeader {
    Missing,
    /// The header is there, but its value is not text.
    Unreadable,
    Value(String),
}

/// Why the double-submit check fails, if it does: the cookie is missing; the
/// header is missing or cannot be read; or the two differ.
pub open spec fn csrf_failure(cookie: Option<Seq<char>>, header: CsrfHeader) -> Option<
    CsrfErrorKind,
> {
    match cookie {
        None => Some(CsrfErrorKind::MissingCookie),
        Some(token) => match header {
            CsrfHeader::Missing => Some(CsrfErrorKind::MissingHeader),
            CsrfHeader::Unreadable => Some(CsrfErrorKind::InvalidHeader),
            CsrfHeader::Value(copy) => if token == copy@ {
                None
            } else {
                Some(CsrfErrorKind::Mismatch)
            },
        },
    }
}

/// The token that a failed check hands out: that of the request's session,
/// where it has a live one, else the fresh one.
pub open spec fn csrf_error_token(session: Result<Session, SessionError>, fresh: Seq<char>) -> Seq<
    char,
> {
    match session {
        Ok(s) => s.csrf_token@,
        Err(_) => fresh,
    }
}

/// What a failed check gives the client to try again with: the token, in the
/// body under the configured field name and in the CSRF cookie. Before that
/// cookie, a session cookie that names no live session is cleared.
pub open spec fn csrf_error_data(
    session: Result<Session, SessionError>,
    fresh: Seq<char>,
    config: Config,
) -> ErrorDataView {
    let token = csrf_error_token(session, fresh);
    let csrf_cookie = configured_cookie(
        config.csrf.cookie@,
        token,
        Some(config.csrf.cookie_lifetime),
        config,
    );
    ErrorDataView {
        cookies: match session {
            Err(SessionError::ExpiredSession) | Err(SessionError::InvalidSession) => seq![
                cleared_cookie(config.session.cookie@, config),
                csrf_cookie,
            ],
            _ => seq![csrf_cookie],
        },
        csrf_token: Some((config.csrf.response_field@, token)),
        details: None,
    }
}

/// Gives a failed check what the client needs to try again, with the given
/// fresh token for a request without a live session. Fails only where the
/// session could not be looked up.
pub fn csrf_error_with(
    error: CsrfError,
    session: Result<Session, SessionError>,
    fresh_token: String,
    config: &Config,
) -> (out: Result<CsrfError, InternalError>)
    ensures
        out is Err <==> session matches Err(SessionError::InternalError(_)),
        out matches Ok(e) ==> e@ == (
            error.spec_kind(),
            Some(csrf_error_data(session, fresh_token@, *config)),
        ),
        out matches Ok(e) ==> {
            let (status, cookies, body) = e.spec_response();
            let token = csrf_error_token(session, fresh_token@);
            &&& body.csrf_token == Some((config.csrf.response_field@, token))
            &&& cookies.len() > 0
            &&& cookies.last() == configured_cookie(
                config.csrf.cookie@,
                token,
                Some(config.csrf.cookie_lifetime),
                *config,
            )
        },
{
    let mut cookies: Vec<Cookie> = Vec::new();
    let csrf_token = match session {
        Ok(Session { csrf_token }) => csrf_token,
        Err(SessionError::NoCookie) => fresh_token,
        Err(SessionError::ExpiredSession) | Err(SessionError::InvalidSession) => {
            cookies.push(clear_cookie(config.session.cookie.as_str(), config));
            fresh_token
        },
        Err(SessionError::InternalError(err)) => {
            return Err(err);
        },
    };
    cookies.push(
        make_cookie(
            config.csrf.cookie.as_str(),
            csrf_token.as_str(),
            Some(config.csrf.cookie_lifetime),
            config,
        ),
    );
    let data = ErrorData {
        cookies,
        csrf_token: Some((config.csrf.response_field.clone(), csrf_token)),
        details: None,
    };
    assert(data@.cookies =~= csrf_error_data(session, fresh_token@, *config).cookies);
    Ok(CsrfError::of(error.kind(), Some(data)))
}

/// Gives a failed check what the client needs to try again: the token of the
/// request's session, or one drawn afresh. See [`csrf_error_with`].
pub fn csrf_error(error: CsrfError, session: Result<Session, SessionError>, config: &Config) -> (out:
    Result<CsrfError, InternalError>)
    ensures
        out is Err <==> session matches Err(SessionError::InternalError(_)),
        out matches Ok(e) ==> exists|fresh: Seq<char>| #[trigger]
            is_token(fresh, config.csrf.token_length) && e@ == (
                error.spec_kind(),
                Some(csrf_error_data(session, fresh, *config)),
            ),
{
    let fresh_token = generate_token(config.csrf.token_length);
    csrf_error_with(error, session, fresh_token, config)
}

/// The check that guards requests that change state: the CSRF token must
/// come twice, in a cookie and in a header, and both must agree.
pub struct Csrf {
    pub config: Config,
}

impl Csrf {
    /// The check under the given settings.
    pub fn new(config: Config) -> (check: Csrf)
        ensures
            check.config == config,
    {
        Csrf { config }
    }

    /// Compares the token of the cookie with that of the header, in constant
    /// time.
    pub fn check(&self, csrf_cookie: Option<&str>, csrf_header: &CsrfHeader) -> (checked: Result<
        (),
        CsrfError,
    >)
        ensures
            match checked {
                Ok(()) => csrf_failure(csrf_cookie.deep_view(), *csrf_header) is None,
                Err(e) => csrf_failure(csrf_cookie.deep_view(), *csrf_header) == Some(
                    e.spec_kind(),
                ) && e.spec_data() is None,
            },
    {
        let csrf_cookie = match csrf_cookie {
            Some(cookie) => cookie,
            None => {
                return Err(CsrfError::MissingCookie(None));
            },
        };
        let csrf_header = match csrf_header {
            CsrfHeader::Missing => {
                return Err(CsrfError::MissingHeader(None));
            },
            CsrfHeader::Unreadable => {
                return Err(CsrfError::InvalidHeader(None));
            },
            CsrfHeader::Value(header) => header,
        };
        proof {
            vstd::utf8::encode_utf8_decode_utf8(csrf_cookie@);
            vstd::utf8::encode_utf8_decode_utf8(csrf_header@);
        }
        if !secret_eq(csrf_cookie.as_bytes(), csrf_header.as_str().as_bytes()) {
            return Err(CsrfError::Mismatch(None));
        }
        Ok(())
    }
}

} // verus!
