use vstd::prelude::*;
use vstd::slice::slice_to_vec;
use vstd::string::{StringExecFns, StringSliceAdditionalSpecFns};
use vstd::utf8::{decode_utf8, encode_utf8, valid_utf8};
use crate::config::{Argon2Params, Config, SameSite};
use crate::error::InternalError;
use crate::trusted::{
    aes_open, aes_opened, aes_seal, aes_sealed, argon2_hash, argon2_params_accepted,
    argon2_params_valid, argon2_phc, argon2_verdict, argon2_verify, ascii_string,
    base64_url_encode, base64_url_text, blake3_digest, blake3_hash, hotp_sha1, hotp_sha256,
    hotp_sha512, is_alphanumeric, random_alphanumeric, random_bytes, random_fill, secret_eq,
    split_first, split_once, totp_sha1, totp_sha256, totp_sha512, unix_time_now, utf8_text,
    DIGEST_BYTES, MAX_PLAINTEXT_BYTES, NONCE_BYTES, TIME_BOUND,
};
use crate::db::{
    write_views, DbOp, DbOpView, DbWrite, Language, PasswordChangeReason, RowCount,
};

verus! {

// COOKIE UTILS

/// A cookie to be set on a response.
#[derive(Debug)]
pub struct Cookie {
    pub name: String,
    pub value: String,
    pub http_only: bool,
    pub path: String,
    pub same_site: SameSite,
    pub secure: bool,
    /// Seconds the client keeps the cookie; without it the cookie lasts for
    /// the browser session.
    pub max_age: Option<u32>,
}

/// What a [`Cookie`] says.
pub ghost struct CookieView {
    pub name: Seq<char>,
    pub value: Seq<char>,
    pub http_only: bool,
    pub path: Seq<char>,
    pub same_site: SameSite,
    pub secure: bool,
    pub max_age: Option<u32>,
}

impl View for Cookie {
    type V = CookieView;

    open spec fn view(&self) -> CookieView {
        CookieView {
            name: self.name@,
            value: self.value@,
            http_only: self.http_only,
            path: self.path@,
            same_site: self.same_site,
            secure: self.secure,
            max_age: self.max_age,
        }
    }
}

impl Clone for Cookie {
    fn clone(&self) -> (copy: Cookie)
        ensures
            copy@ == self@,
    {
        Cookie {
            name: self.name.clone(),
            value: self.value.clone(),
            http_only: self.http_only,
            path: self.path.clone(),
            same_site: self.same_site,
            secure: self.secure,
            max_age: self.max_age,
        }
    }
}

/// What each cookie of a list says.
pub open spec fn cookie_views(cookies: Seq<Cookie>) -> Seq<CookieView> {
    cookies.map_values(|c: Cookie| c@)
}

/// A copy of a list of cookies.
pub fn clone_cookies(cookies: &Vec<Cookie>) -> (copy: Vec<Cookie>)
    ensures
        cookie_views(copy@) == cookie_views(cookies@),
{
    let mut copy: Vec<Cookie> = Vec::new();
    let mut i: usize = 0;
    while i < cookies.len()
        invariant
            i <= cookies.len(),
            copy@.len() == i,
            forall|j: int| 0 <= j < i ==> (#[trigger] copy@[j])@ == cookies@[j]@,
        decreases cookies.len() - i,
    {
        copy.push(cookies[i].clone());
        i = i + 1;
    }
    assert(cookie_views(copy@) =~= cookie_views(cookies@));
    copy
}

/// A cookie with the attributes that the settings give every cookie: kept
/// from scripts, and with the configured path, same-site rule and secure flag.
pub open spec fn configured_cookie(
    name: Seq<char>,
    value: Seq<char>,
    max_age: Option<u32>,
    config: Config,
) -> CookieView {
    CookieView {
        name,
        value,
        http_only: true,
        path: config.cookie.path@,
        same_site: config.cookie.same_site,
        secure: config.cookie.secure,
        max_age,
    }
}

/// The cookie that makes a client forget the cookie `name`: empty, and
/// expiring at once.
pub open spec fn cleared_cookie(name: Seq<char>, config: Config) -> CookieView {
    configured_cookie(name, Seq::empty(), Some(0u32), config)
}

fn add_cookie_fields(cookie: &mut Cookie, config: &Config)
    ensures
        final(cookie)@ == configured_cookie(
            old(cookie).name@,
            old(cookie).value@,
            old(cookie).max_age,
            *config,
        ),
{
    cookie.http_only = true;
    cookie.path = config.cookie.path.clone();
    cookie.same_site = config.cookie.same_site;
    cookie.secure = config.cookie.secure;
}

/// A cookie without attributes.
fn bare_cookie(name: &str, value: &str) -> (cookie: Cookie)
    ensures
        cookie.name@ == name@,
        cookie.value@ == value@,
        cookie.max_age is None,
{
    Cookie {
        name: name.to_owned(),
        value: value.to_owned(),
        http_only: false,
        path: String::new(),
        same_site: SameSite::Lax,
        secure: false,
        max_age: None,
    }
}

/// The cookie that makes a client forget the cookie `name`.
pub fn clear_cookie(name: &str, config: &Config) -> (cookie: Cookie)
    ensures
        cookie@ == cleared_cookie(name@, *config),
{
    let mut cookie = Cookie {
        name: name.to_owned(),
        value: String::new(),
        http_only: false,
        path: String::new(),
        same_site: SameSite::Lax,
        secure: false,
        max_age: None,
    };
    add_cookie_fields(&mut cookie, config);
    cookie.max_age = Some(0);
    cookie
}

/// A cookie with the configured attributes and, if given, a lifetime in
/// seconds.
pub fn make_cookie(name: &str, value: &str, max_age: Option<u32>, config: &Config) -> (cookie:
    Cookie)
    ensures
        cookie@ == configured_cookie(name@, value@, max_age, *config),
{
    let mut cookie = bare_cookie(name, value);
    add_cookie_fields(&mut cookie, config);
    if let Some(max_age) = max_age {
        cookie.max_age = Some(max_age);
    }
    cookie
}

/// Status of a response that reports success.
pub const STATUS_OK: u16 = 200;

/// The head of a response while it is put together: its status and the
/// cookies it sets, in the order in which they were added.
#[derive(Debug)]
pub struct ResponseBuilder {
    pub status: u16,
    pub cookies: Vec<Cookie>,
}

/// A response: status, cookies to set, and a body that is sent as JSON.
#[derive(Debug)]
pub struct Response<B> {
    pub status: u16,
    pub cookies: Vec<Cookie>,
    pub body: B,
}

impl ResponseBuilder {
    /// The head of a response with the given status and no cookies.
    pub fn new(status: u16) -> (res: ResponseBuilder)
        ensures
            res.status == status,
            res.cookies@.len() == 0,
    {
        ResponseBuilder { status, cookies: Vec::new() }
    }

    /// Completes the response with its body.
    pub fn body<B>(self, body: B) -> (res: Response<B>)
        ensures
            res.status == self.status,
            res.cookies == self.cookies,
            res.body == body,
    {
        Response { status: self.status, cookies: self.cookies, body }
    }
}

/// Adds to the response the cookie that makes the client forget `name`.
pub fn remove_cookie(res: ResponseBuilder, name: &str, config: &Config) -> (out: ResponseBuilder)
    ensures
        out.status == res.status,
        cookie_views(out.cookies@) == cookie_views(res.cookies@).push(
            cleared_cookie(name@, *config),
        ),
{
    let mut out = res;
    let ghost before = out.cookies@;
    out.cookies.push(clear_cookie(name, config));
    assert(cookie_views(out.cookies@) =~= cookie_views(before).push(cleared_cookie(name@, *config)));
    out
}

/// Adds a cookie to the response.
pub fn set_cookie(
    res: ResponseBuilder,
    name: &str,
    value: &str,
    max_age: Option<u32>,
    config: &Config,
) -> (out: ResponseBuilder)
    ensures
        out.status == res.status,
        cookie_views(out.cookies@) == cookie_views(res.cookies@).push(
            configured_cookie(name@, value@, max_age, *config),
        ),
{
    let mut out = res;
    let ghost before = out.cookies@;
    out.cookies.push(make_cookie(name, value, max_age, config));
    assert(cookie_views(out.cookies@) =~= cookie_views(before).push(
        configured_cookie(name@, value@, max_age, *config),
    ));
    out
}

// CRYPTOGRAPHIC UTILS

/// URL-safe base64 of `data`, without padding.
pub fn base64_urlsafe(data: &[u8]) -> (text: String)
    requires
        data@.len() <= usize::MAX / 2,
    ensures
        text@ == base64_url_text(data@),
{
    base64_url_encode(data)
}

/// The digest of a text: that of its UTF-8 bytes.
pub open spec fn hashed(text: Seq<char>) -> Seq<u8> {
    blake3_digest(encode_utf8(text))
}

/// One-way hash of a text: the BLAKE3 digest of its UTF-8 bytes. Session ids
/// and remember-token ids and secrets are stored only under this hash.
pub fn hash(text: &str) -> (digest: Vec<u8>)
    ensures
        digest@ == hashed(text@),
        digest@.len() == DIGEST_BYTES,
{
    blake3_hash(text.as_bytes())
}

/// What [`encrypt`] returns for a plaintext once the nonce is drawn: in debug
/// mode the plaintext itself, else the sealed plaintext followed by the nonce.
pub open spec fn envelope(plaintext: Seq<u8>, nonce: Seq<u8>, config: Config) -> Option<Seq<u8>> {
    if config.dev.debug {
        Some(plaintext)
    } else {
        match aes_sealed(config.aes@, nonce, plaintext) {
            Some(sealed) => Some(sealed + nonce),
            None => None,
        }
    }
}

/// What [`decrypt`] returns for a blob: in debug mode the blob itself, else
/// what its last twelve bytes, taken as the nonce, open the rest to. A blob
/// too short to hold a nonce opens to nothing.
pub open spec fn opened_envelope(blob: Seq<u8>, config: Config) -> Option<Seq<u8>> {
    if config.dev.debug {
        Some(blob)
    } else if blob.len() < NONCE_BYTES {
        None
    } else {
        aes_opened(
            config.aes@,
            blob.subrange(blob.len() - NONCE_BYTES, blob.len() as int),
            blob.subrange(0, blob.len() - NONCE_BYTES),
        )
    }
}

/// Seals `plaintext` under the configured key and the given nonce, and
/// appends the nonce. The blob opens again to the plaintext.
pub fn encrypt_with_nonce(plaintext: &[u8], nonce: &[u8], config: &Config) -> (blob: Result<
    Vec<u8>,
    InternalError,
>)
    requires
        config.wf(),
        nonce@.len() == NONCE_BYTES,
    ensures
        blob is Ok <==> config.dev.debug || plaintext@.len() <= MAX_PLAINTEXT_BYTES,
        blob is Ok <==> envelope(plaintext@, nonce@, *config) is Some,
        blob matches Ok(b) ==> Some(b@) == envelope(plaintext@, nonce@, *config),
        blob matches Ok(b) ==> opened_envelope(b@, *config) == Some(plaintext@),
{
    if config.dev.debug {
        return Ok(slice_to_vec(plaintext));
    }
    match aes_seal(config.aes.as_slice(), nonce, plaintext) {
        Some(mut sealed) => {
            let ghost body = sealed@;
            sealed.extend_from_slice(nonce);
            proof {
                let blob = sealed@;
                assert(blob.subrange(blob.len() - NONCE_BYTES, blob.len() as int) =~= nonce@);
                assert(blob.subrange(0, blob.len() - NONCE_BYTES) =~= body);
            }
            Ok(sealed)
        },
        None => Err(InternalError),
    }
}

/// Authenticated encryption of `plaintext` under the configured key, with a
/// nonce drawn afresh for this call and appended to the ciphertext. Whatever
/// nonce was drawn, [`decrypt`] recovers the plaintext from the blob.
pub fn encrypt(plaintext: &[u8], config: &Config) -> (blob: Result<Vec<u8>, InternalError>)
    requires
        config.wf(),
    ensures
        blob matches Ok(b) ==> exists|nonce: Seq<u8>|
            nonce.len() == NONCE_BYTES && Some(b@) == #[trigger] envelope(
                plaintext@,
                nonce,
                *config,
            ),
        blob matches Ok(b) ==> opened_envelope(b@, *config) == Some(plaintext@),
        config.dev.debug ==> blob is Ok,
        plaintext@.len() > MAX_PLAINTEXT_BYTES && !config.dev.debug ==> blob is Err,
{
    if config.dev.debug {
        let blob = slice_to_vec(plaintext);
        assert(Some(blob@) == envelope(
            plaintext@,
            Seq::new(NONCE_BYTES as nat, |i: int| 0u8),
            *config,
        ));
        return Ok(blob);
    }
    match random_fill(NONCE_BYTES) {
        Some(nonce) => encrypt_with_nonce(plaintext, nonce.as_slice(), config),
        None => Err(InternalError),
    }
}

/// Opens a blob made by [`encrypt`]: fails on one too short to end in a
/// nonce, and on one that does not authenticate under the configured key.
pub fn decrypt(ciphertext_with_nonce: &[u8], config: &Config) -> (plaintext: Result<
    Vec<u8>,
    InternalError,
>)
    requires
        config.wf(),
    ensures
        plaintext is Ok <==> opened_envelope(ciphertext_with_nonce@, *config) is Some,
        plaintext matches Ok(p) ==> Some(p@) == opened_envelope(ciphertext_with_nonce@, *config),
{
    if config.dev.debug {
        return Ok(slice_to_vec(ciphertext_with_nonce));
    }
    let input_length = ciphertext_with_nonce.len();
    if input_length < NONCE_BYTES {
        return Err(InternalError);
    }
    let (ciphertext, nonce) = ciphertext_with_nonce.split_at(input_length - NONCE_BYTES);
    match aes_open(config.aes.as_slice(), nonce, ciphertext) {
        Some(opened) => Ok(opened),
        None => Err(InternalError),
    }
}

/// `token` is made of `length` letters and digits.
pub open spec fn is_token(token: Seq<char>, length: u16) -> bool {
    &&& token.len() == length
    &&& forall|i: int| 0 <= i < token.len() ==> is_alphanumeric_char(#[trigger] token[i])
}

/// A token of `length` characters, each drawn without bias from the letters
/// and digits of ASCII by a cryptographically secure generator.
pub fn generate_token(length: u16) -> (token: String)
    ensures
        is_token(token@, length),
{
    let bytes = random_alphanumeric(length as usize);
    let token = ascii_string(bytes);
    token
}

/// Whether `c` is one of `0-9`, `A-Z`, `a-z`.
pub open spec fn is_alphanumeric_char(c: char) -> bool {
    ('0' <= c <= '9') || ('A' <= c <= 'Z') || ('a' <= c <= 'z')
}

// TEXT UTILS

/// The texts of `parts` in one, with `separator` between each and the next.
pub open spec fn joined(parts: Seq<Seq<char>>, separator: Seq<char>) -> Seq<char>
    decreases parts.len(),
{
    if parts.len() == 0 {
        Seq::empty()
    } else if parts.len() == 1 {
        parts[0]
    } else {
        joined(parts.drop_last(), separator) + separator + parts.last()
    }
}

/// Joins texts with a separator.
pub fn join(parts: &Vec<String>, separator: &str) -> (text: String)
    ensures
        text@ == joined(parts.deep_view(), separator@),
{
    let mut text = String::new();
    let mut i: usize = 0;
    while i < parts.len()
        invariant
            i <= parts.len(),
            text@ == joined(parts.deep_view().take(i as int), separator@),
        decreases parts.len() - i,
    {
        let ghost before = parts.deep_view().take(i as int);
        let ghost after = parts.deep_view().take(i + 1);
        assert(after.drop_last() =~= before);
        assert(after.last() == parts@[i as int]@);
        if i > 0 {
            text.append(separator);
        } else {
            assert(text@ + parts@[i as int]@ =~= parts@[i as int]@);
        }
        text.append(parts[i].as_str());
        i = i + 1;
    }
    assert(parts.deep_view().take(parts.len() as int) =~= parts.deep_view());
    text
}

/// Whether two byte strings are the same.
pub fn bytes_eq(a: &[u8], b: &[u8]) -> (same: bool)
    ensures
        same == (a@ == b@),
{
    if a.len() != b.len() {
        return false;
    }
    let mut i: usize = 0;
    while i < a.len()
        invariant
            i <= a.len(),
            a.len() == b.len(),
            forall|j: int| 0 <= j < i ==> a@[j] == b@[j],
        decreases a.len() - i,
    {
        if a[i] != b[i] {
            return false;
        }
        i = i + 1;
    }
    assert(a@ =~= b@);
    true
}

/// Whether two texts are the same.
pub fn text_eq(a: &str, b: &str) -> (same: bool)
    ensures
        same == (a@ == b@),
{
    proof {
        vstd::utf8::encode_utf8_decode_utf8(a@);
        vstd::utf8::encode_utf8_decode_utf8(b@);
    }
    bytes_eq(a.as_bytes(), b.as_bytes())
}

/// A copy of an optional text.
pub fn clone_option_text(text: &Option<String>) -> (copy: Option<String>)
    ensures
        copy.deep_view() == text.deep_view(),
{
    match text {
        Some(t) => Some(t.clone()),
        None => None,
    }
}

// REDIS UTILS

/// The key of the cache under which a value of the given path is kept: the
/// parts of the path, joined by the configured separator.
pub fn redis_join(parts: &[&str], config: &Config) -> (key: String)
    ensures
        key@ == joined(parts.deep_view(), config.redis.key_separator@),
{
    let mut key = String::new();
    let mut i: usize = 0;
    while i < parts.len()
        invariant
            i <= parts.len(),
            key@ == joined(parts.deep_view().take(i as int), config.redis.key_separator@),
        decreases parts.len() - i,
    {
        let ghost before = parts.deep_view().take(i as int);
        let ghost after = parts.deep_view().take(i + 1);
        assert(after.drop_last() =~= before);
        assert(after.last() == parts@[i as int]@);
        if i > 0 {
            key.append(config.redis.key_separator.as_str());
        } else {
            assert(key@ + parts@[i as int]@ =~= parts@[i as int]@);
        }
        key.append(parts[i]);
        i = i + 1;
    }
    assert(parts.deep_view().take(parts.len() as int) =~= parts.deep_view());
    key
}

// SESSION UTILS

/// What a valid session tells a handler.
pub struct Session {
    pub csrf_token: String,
}

/// Why a request has no live session.
#[derive(Clone, Copy, Debug, PartialEq, Eq, Structural)]
pub enum SessionError {
    ExpiredSession,
    InternalError(InternalError),
    InvalidSession,
    NoCookie,
}

/// The row of a session, as far as [`get_session`] reads it.
pub struct SessionRow {
    pub csrf_token: String,
    pub expires: i64,
}

/// The state of a request's session. `session_cookie` is the value of the
/// session cookie, if the request carries one, and `row` the session stored
/// under the hash of that value, if there is one. A session that expired
/// before `now` counts as expired, whatever else the row says.
pub fn get_session(session_cookie: Option<&str>, row: Option<SessionRow>, now: i64) -> (session:
    Result<Session, SessionError>)
    ensures
        match session {
            Ok(s) => session_cookie is Some && row is Some && row->0.expires >= now
                && s.csrf_token == row->0.csrf_token,
            Err(SessionError::NoCookie) => session_cookie is None,
            Err(SessionError::InvalidSession) => session_cookie is Some && row is None,
            Err(SessionError::ExpiredSession) => session_cookie is Some && row is Some
                && row->0.expires < now,
            Err(SessionError::InternalError(_)) => false,
        },
{
    if session_cookie.is_none() {
        return Err(SessionError::NoCookie);
    }
    match row {
        None => Err(SessionError::InvalidSession),
        Some(row) => {
            if row.expires < now {
                Err(SessionError::ExpiredSession)
            } else {
                Ok(Session { csrf_token: row.csrf_token })
            }
        },
    }
}

/// Why a session could not be restored.
#[derive(Clone, Copy, Debug, PartialEq, Eq, Structural)]
pub enum RestoreSessionError {
    AccountDisabled,
    ExpiredSession,
    InternalError(InternalError),
    InvalidRememberToken,
    InvalidSession,
    NoCookies,
    RememberTokenMismatch,
}

/// The user of a restored session.
pub struct RestoreSessionUser {
    pub id: String,
    pub active: bool,
    pub username: String,
    pub password_hash: Vec<u8>,
    pub totp_enabled: bool,
    pub password_change_reason: Option<PasswordChangeReason>,
    pub icon: Option<String>,
    pub language: Language,
}

/// A restored session: its CSRF token, until when it counts as freshly
/// authenticated, and its user.
pub struct RestoreSession {
    pub csrf_token: String,
    pub sudo_until: Option<i64>,
    pub user: RestoreSessionUser,
}

/// The row of a session joined with the row of its user.
pub struct SessionUserRow {
    pub csrf_token: String,
    pub expires: i64,
    pub sudo_until: Option<i64>,
    pub user: RestoreSessionUser,
}

/// The row of a remember token joined with the row of its user.
pub struct RememberTokenUserRow {
    /// Hash of the token's secret.
    pub secret: Vec<u8>,
    pub user: RestoreSessionUser,
}

/// Tokens drawn for one request, before it is known which of them it needs.
pub struct FreshTokens {
    pub session_id: String,
    pub csrf_token: String,
    pub remember_token_id: String,
    pub remember_token_secret: String,
}

impl FreshTokens {
    /// Each token has the length that the settings give it.
    pub open spec fn wf(&self, config: Config) -> bool {
        &&& is_token(self.session_id@, config.session.id_length)
        &&& is_token(self.csrf_token@, config.csrf.token_length)
        &&& is_token(self.remember_token_id@, config.remember_token.id_length)
        &&& is_token(self.remember_token_secret@, config.remember_token.secret_length)
    }

    /// Draws the four tokens.
    pub fn generate(config: &Config) -> (tokens: FreshTokens)
        ensures
            tokens.wf(*config),
    {
        FreshTokens {
            session_id: generate_token(config.session.id_length),
            csrf_token: generate_token(config.csrf.token_length),
            remember_token_id: generate_token(config.remember_token.id_length),
            remember_token_secret: generate_token(config.remember_token.secret_length),
        }
    }
}

/// The value of a remember cookie: id and secret with the configured
/// separator between them.
pub open spec fn remember_cookie_value(id: Seq<char>, secret: Seq<char>, config: Config) -> Seq<
    char,
> {
    id + config.remember_token.separator@ + secret
}

/// The id that a remember cookie names: what stands before the first
/// occurrence of the configured separator.
pub open spec fn remember_token_id(cookie: Seq<char>, config: Config) -> Seq<char> {
    match split_first(cookie, config.remember_token.separator@) {
        Some((id, _)) => id,
        None => Seq::empty(),
    }
}

/// Id and secret of a remember cookie: what stands before and after the
/// first occurrence of the configured separator.
pub fn split_remember_cookie<'a>(cookie: &'a str, config: &Config) -> (parts: Option<
    (&'a str, &'a str),
>)
    ensures
        parts.deep_view() == split_first(cookie@, config.remember_token.separator@),
{
    split_once(cookie, config.remember_token.separator.as_str())
}

/// The hash under which the token of a remember cookie is stored, if the
/// cookie has the shape of one.
pub fn remember_token_key(cookie: &str, config: &Config) -> (key: Option<Vec<u8>>)
    ensures
        key.deep_view() == match split_first(cookie@, config.remember_token.separator@) {
            Some((id, _)) => Some(hashed(id)),
            None => None,
        },
{
    match split_remember_cookie(cookie, config) {
        Some((id, _)) => Some(hash(id)),
        None => None,
    }
}

/// The time at which something that starts at `now` and lasts `lifetime`
/// seconds ends.
pub fn expiry(now: i64, lifetime: u32) -> (end: i64)
    requires
        -TIME_BOUND < now < TIME_BOUND,
    ensures
        end == now + lifetime,
{
    now + lifetime as i64
}

/// What restoring a session comes to.
pub ghost enum RestoreVerdict {
    /// The session cookie names a live session of an active user.
    Existing,
    /// Nothing is restored and nothing changes.
    Refused(RestoreSessionError),
    /// The remember token was presented with a wrong secret: it may have been
    /// stolen, and everything that lets the user in is revoked.
    Revoked,
    /// The remember token is good: a session is made and the token's secret
    /// replaced.
    Renewed,
}

/// Decides a restore. A live session of an active user is taken as it is. Else
/// the remember cookie is tried: without one the request fails, by the state
/// of its session cookie; one that does not split, or names no stored token,
/// is invalid; one whose secret does not hash to the stored hash revokes the
/// user's credentials; and else the user must be active.
pub open spec fn restore_verdict(
    session_cookie: bool,
    session_row: Option<SessionUserRow>,
    remember_cookie: Option<Seq<char>>,
    token_row: Option<RememberTokenUserRow>,
    now: i64,
    config: Config,
) -> RestoreVerdict {
    let live = session_cookie && session_row is Some && session_row->0.expires >= now;
    if live {
        if session_row->0.user.active {
            RestoreVerdict::Existing
        } else {
            RestoreVerdict::Refused(RestoreSessionError::AccountDisabled)
        }
    } else {
        match remember_cookie {
            None => RestoreVerdict::Refused(
                if session_cookie && session_row is Some {
                    RestoreSessionError::ExpiredSession
                } else if session_cookie {
                    RestoreSessionError::InvalidSession
                } else {
                    RestoreSessionError::NoCookies
                },
            ),
            Some(cookie) => match (
                split_first(cookie, config.remember_token.separator@),
                token_row,
            ) {
                (Some((id, secret)), Some(row)) => if hashed(secret) != row.secret@ {
                    RestoreVerdict::Revoked
                } else if !row.user.active {
                    RestoreVerdict::Refused(RestoreSessionError::AccountDisabled)
                } else {
                    RestoreVerdict::Renewed
                },
                _ => RestoreVerdict::Refused(RestoreSessionError::InvalidRememberToken),
            },
        }
    }
}

/// The statements that revoke what lets a user in: they delete the user's
/// sessions and remember tokens and mark the user as having to change the
/// password, which must change one row.
pub open spec fn revocation_writes(user_id: Seq<char>) -> Seq<(DbOpView, RowCount)> {
    seq![
        (DbOpView::DeleteUserSessions { user_id }, RowCount::Any),
        (DbOpView::DeleteUserRememberTokens { user_id }, RowCount::Any),
        (
            DbOpView::SetPasswordChangeReason {
                user_id,
                reason: PasswordChangeReason::RememberTokenCompromise,
            },
            RowCount::ExactlyOne,
        ),
    ]
}

/// The statements that renew a login from a remember token: they add a
/// session for the user, stored under the hash of its id, and replace the
/// secret of the token by the hash of a new one.
pub open spec fn renewal_writes(
    user_id: Seq<char>,
    token_id: Seq<char>,
    tokens: FreshTokens,
    now: i64,
    config: Config,
) -> Seq<(DbOpView, RowCount)> {
    seq![
        (
            DbOpView::InsertSession {
                id: hashed(tokens.session_id@),
                user_id,
                csrf_token: tokens.csrf_token@,
                expires: (now + config.session.lifetime) as i64,
                sudo_until: None,
            },
            RowCount::Any,
        ),
        (
            DbOpView::SetRememberTokenSecret {
                id: hashed(token_id),
                secret: hashed(tokens.remember_token_secret@),
            },
            RowCount::Any,
        ),
    ]
}

/// The cookies' values after a renewal.
pub struct RenewedCookies {
    /// The id of the new session, in the clear.
    pub session_id: String,
    /// The token's id with its new secret.
    pub remember_token: String,
}

/// What a restore asks of its caller: statements to run in one transaction,
/// and the result to give once they have run and been committed. If a
/// statement fails or changes a number of rows that it does not admit, the
/// transaction is abandoned and the result is an internal error instead.
pub struct RestorePlan {
    pub writes: Vec<DbWrite>,
    pub result: Result<RestoreSession, RestoreSessionError>,
    pub renewed: Option<RenewedCookies>,
}

impl RestorePlan {
    fn refuse(error: RestoreSessionError) -> (plan: RestorePlan)
        ensures
            plan.writes@.len() == 0,
            plan.result == Err::<RestoreSession, RestoreSessionError>(error),
            plan.renewed is None,
    {
        RestorePlan { writes: Vec::new(), result: Err(error), renewed: None }
    }
}

/// Restores a session with the given fresh tokens. `session_row` is the
/// session stored under the hash of the session cookie and `token_row` the
/// remember token stored under [`remember_token_key`] of the remember cookie.
pub fn restore_session_with(
    session_cookie: Option<&str>,
    session_row: Option<SessionUserRow>,
    remember_cookie: Option<&str>,
    token_row: Option<RememberTokenUserRow>,
    now: i64,
    tokens: FreshTokens,
    config: &Config,
) -> (plan: RestorePlan)
    requires
        -TIME_BOUND < now < TIME_BOUND,
    ensures
        match restore_verdict(
            session_cookie is Some,
            session_row,
            remember_cookie.deep_view(),
            token_row,
            now,
            *config,
        ) {
            RestoreVerdict::Existing => {
                &&& plan.writes@.len() == 0
                &&& plan.renewed is None
                &&& plan.result == Ok::<RestoreSession, RestoreSessionError>(
                    RestoreSession {
                        csrf_token: session_row->0.csrf_token,
                        sudo_until: session_row->0.sudo_until,
                        user: session_row->0.user,
                    },
                )
            },
            RestoreVerdict::Refused(error) => {
                &&& plan.writes@.len() == 0
                &&& plan.renewed is None
                &&& plan.result == Err::<RestoreSession, RestoreSessionError>(error)
            },
            RestoreVerdict::Revoked => {
                &&& write_views(plan.writes@) == revocation_writes(token_row->0.user.id@)
                &&& plan.renewed is None
                &&& plan.result == Err::<RestoreSession, RestoreSessionError>(
                    RestoreSessionError::RememberTokenMismatch,
                )
            },
            RestoreVerdict::Renewed => {
                let token_id = remember_token_id(remember_cookie->0@, *config);
                &&& write_views(plan.writes@) == renewal_writes(
                    token_row->0.user.id@,
                    token_id,
                    tokens,
                    now,
                    *config,
                )
                &&& plan.result == Ok::<RestoreSession, RestoreSessionError>(
                    RestoreSession {
                        csrf_token: tokens.csrf_token,
                        sudo_until: None,
                        user: token_row->0.user,
                    },
                )
                &&& plan.renewed matches Some(cookies)
                &&& cookies.session_id == tokens.session_id
                &&& cookies.remember_token@ == remember_cookie_value(
                    token_id,
                    tokens.remember_token_secret@,
                    *config,
                )
            },
        },
{
    let mut session_expired = false;
    let mut session_not_found = false;
    if session_cookie.is_some() {
        match session_row {
            Some(row) => {
                if row.expires < now {
                    session_expired = true;
                } else if !row.user.active {
                    return RestorePlan::refuse(RestoreSessionError::AccountDisabled);
                } else {
                    return RestorePlan {
                        writes: Vec::new(),
                        result: Ok(
                            RestoreSession {
                                csrf_token: row.csrf_token,
                                sudo_until: row.sudo_until,
                                user: row.user,
                            },
                        ),
                        renewed: None,
                    };
                }
            },
            None => {
                session_not_found = true;
            },
        }
    }
    let remember_cookie = match remember_cookie {
        Some(cookie) => cookie,
        None => {
            if session_expired {
                return RestorePlan::refuse(RestoreSessionError::ExpiredSession);
            }
            if session_not_found {
                return RestorePlan::refuse(RestoreSessionError::InvalidSession);
            }
            return RestorePlan::refuse(RestoreSessionError::NoCookies);
        },
    };
    let (remember_token_id, remember_token_secret) = match split_remember_cookie(
        remember_cookie,
        config,
    ) {
        Some(parts) => parts,
        None => {
            return RestorePlan::refuse(RestoreSessionError::InvalidRememberToken);
        },
    };
    let row = match token_row {
        Some(row) => row,
        None => {
            return RestorePlan::refuse(RestoreSessionError::InvalidRememberToken);
        },
    };
    let supplied = hash(remember_token_secret);
    if !secret_eq(supplied.as_slice(), row.secret.as_slice()) {
        // The token may have been stolen: revoke everything.
        let mut writes: Vec<DbWrite> = Vec::new();
        writes.push(
            DbWrite {
                op: DbOp::DeleteUserSessions { user_id: row.user.id.clone() },
                expect: RowCount::Any,
            },
        );
        writes.push(
            DbWrite {
                op: DbOp::DeleteUserRememberTokens { user_id: row.user.id.clone() },
                expect: RowCount::Any,
            },
        );
        writes.push(
            DbWrite {
                op: DbOp::SetPasswordChangeReason {
                    user_id: row.user.id.clone(),
                    reason: PasswordChangeReason::RememberTokenCompromise,
                },
                expect: RowCount::ExactlyOne,
            },
        );
        assert(write_views(writes@) =~= revocation_writes(row.user.id@));
        return RestorePlan {
            writes,
            result: Err(RestoreSessionError::RememberTokenMismatch),
            renewed: None,
        };
    }
    if !row.user.active {
        return RestorePlan::refuse(RestoreSessionError::AccountDisabled);
    }
    let session_expires = expiry(now, config.session.lifetime);
    let mut writes: Vec<DbWrite> = Vec::new();
    writes.push(
        DbWrite {
            op: DbOp::InsertSession {
                id: hash(tokens.session_id.as_str()),
                user_id: row.user.id.clone(),
                csrf_token: tokens.csrf_token.clone(),
                expires: session_expires,
                sudo_until: None,
            },
            expect: RowCount::Any,
        },
    );
    writes.push(
        DbWrite {
            op: DbOp::SetRememberTokenSecret {
                id: hash(remember_token_id),
                secret: hash(tokens.remember_token_secret.as_str()),
            },
            expect: RowCount::Any,
        },
    );
    assert(write_views(writes@) =~= renewal_writes(
        row.user.id@,
        remember_token_id@,
        tokens,
        now,
        *config,
    ));
    let mut remember_token = remember_token_id.to_owned();
    remember_token.append(config.remember_token.separator.as_str());
    remember_token.append(tokens.remember_token_secret.as_str());
    RestorePlan {
        writes,
        result: Ok(RestoreSession { csrf_token: tokens.csrf_token, sudo_until: None, user: row.user }),
        renewed: Some(RenewedCookies { session_id: tokens.session_id, remember_token }),
    }
}

/// Restores a session, either from the session cookie or, where that names
/// no live session, from the remember cookie, with tokens drawn afresh. See
/// [`restore_session_with`].
pub fn restore_session(
    session_cookie: Option<&str>,
    session_row: Option<SessionUserRow>,
    remember_cookie: Option<&str>,
    token_row: Option<RememberTokenUserRow>,
    now: i64,
    config: &Config,
) -> (plan: RestorePlan)
    requires
        -TIME_BOUND < now < TIME_BOUND,
    ensures
        match restore_verdict(
            session_cookie is Some,
            session_row,
            remember_cookie.deep_view(),
            token_row,
            now,
            *config,
        ) {
            RestoreVerdict::Existing => {
                &&& plan.writes@.len() == 0
                &&& plan.renewed is None
                &&& plan.result == Ok::<RestoreSession, RestoreSessionError>(
                    RestoreSession {
                        csrf_token: session_row->0.csrf_token,
                        sudo_until: session_row->0.sudo_until,
                        user: session_row->0.user,
                    },
                )
            },
            RestoreVerdict::Refused(error) => {
                &&& plan.writes@.len() == 0
                &&& plan.renewed is None
                &&& plan.result == Err::<RestoreSession, RestoreSessionError>(error)
            },
            RestoreVerdict::Revoked => {
                &&& write_views(plan.writes@) == revocation_writes(token_row->0.user.id@)
                &&& plan.renewed is None
                &&& plan.result == Err::<RestoreSession, RestoreSessionError>(
                    RestoreSessionError::RememberTokenMismatch,
                )
            },
            RestoreVerdict::Renewed => exists|tokens: FreshTokens|
                {
                    &&& tokens.wf(*config)
                    &&& write_views(plan.writes@) == #[trigger] renewal_writes(
                        token_row->0.user.id@,
                        remember_token_id(remember_cookie->0@, *config),
                        tokens,
                        now,
                        *config,
                    )
                    &&& plan.result == Ok::<RestoreSession, RestoreSessionError>(
                        RestoreSession {
                            csrf_token: tokens.csrf_token,
                            sudo_until: None,
                            user: token_row->0.user,
                        },
                    )
                    &&& plan.renewed matches Some(cookies)
                    &&& cookies.session_id == tokens.session_id
                    &&& cookies.remember_token@ == remember_cookie_value(
                        remember_token_id(remember_cookie->0@, *config),
                        tokens.remember_token_secret@,
                        *config,
                    )
                },
        },
{
    let tokens = FreshTokens::generate(config);
    restore_session_with(
        session_cookie,
        session_row,
        remember_cookie,
        token_row,
        now,
        tokens,
        config,
    )
}

// PASSWORD UTILS

/// Checks the three costs of the password hash and keeps them together.
pub fn make_argon2(memory_cost: u32, time_cost: u32, parallelism: u32) -> (params: Result<
    Argon2Params,
    InternalError,
>)
    ensures
        params is Ok <==> argon2_params_valid(memory_cost, time_cost, parallelism),
        params matches Ok(p) ==> p == (Argon2Params { memory_cost, time_cost, parallelism }),
{
    if argon2_params_accepted(memory_cost, time_cost, parallelism) {
        Ok(Argon2Params { memory_cost, time_cost, parallelism })
    } else {
        Err(InternalError)
    }
}

/// The stored form of a password once salt and nonce are drawn: its Argon2
/// hash, written as a PHC string, in an encryption envelope.
pub open spec fn password_envelope(
    password: Seq<u8>,
    salt: Seq<u8>,
    nonce: Seq<u8>,
    config: Config,
) -> Option<Seq<u8>> {
    match argon2_phc(
        config.argon2.memory_cost,
        config.argon2.time_cost,
        config.argon2.parallelism,
        password,
        salt,
    ) {
        Some(phc) => envelope(encode_utf8(phc), nonce, config),
        None => None,
    }
}

/// What checking `password` against a stored envelope gives: nothing where
/// the envelope does not open, does not hold text, or holds no usable hash;
/// else whether the password is the one that was hashed.
pub open spec fn password_verdict(password: Seq<u8>, blob: Seq<u8>, config: Config) -> Option<
    bool,
> {
    match opened_envelope(blob, config) {
        Some(bytes) => if valid_utf8(bytes) {
            argon2_verdict(password, decode_utf8(bytes))
        } else {
            None
        },
        None => None,
    }
}

/// Hashes `password` with the given salt and envelopes the hash under the
/// given nonce. The result verifies against the same password.
pub fn hash_encrypt_password_with(password: &str, salt: &[u8], nonce: &[u8], config: &Config) -> (blob:
    Result<Vec<u8>, InternalError>)
    requires
        config.wf(),
        nonce@.len() == NONCE_BYTES,
    ensures
        blob is Ok <==> password_envelope(password.spec_bytes(), salt@, nonce@, *config) is Some,
        blob matches Ok(b) ==> Some(b@) == password_envelope(
            password.spec_bytes(),
            salt@,
            nonce@,
            *config,
        ),
        blob matches Ok(b) ==> password_verdict(password.spec_bytes(), b@, *config) == Some(true),
{
    let phc = match argon2_hash(
        config.argon2.memory_cost,
        config.argon2.time_cost,
        config.argon2.parallelism,
        password.as_bytes(),
        salt,
    ) {
        Some(phc) => phc,
        None => {
            return Err(InternalError);
        },
    };
    proof {
        vstd::utf8::encode_utf8_valid_utf8(phc@);
        vstd::utf8::encode_utf8_decode_utf8(phc@);
    }
    encrypt_with_nonce(phc.as_str().as_bytes(), nonce, config)
}

/// Whether storing a password can fail once the given salt is drawn: the
/// hash refuses the salt or the password; or the hash is made and it is the
/// envelope that fails, which it never does in debug mode.
pub open spec fn storing_can_fail(password: Seq<u8>, salt: Seq<u8>, config: Config) -> bool {
    match argon2_phc(
        config.argon2.memory_cost,
        config.argon2.time_cost,
        config.argon2.parallelism,
        password,
        salt,
    ) {
        Some(_) => !config.dev.debug,
        None => true,
    }
}

/// Hashes `password` with a salt drawn afresh, of the configured length, and
/// envelopes the hash. Whatever was drawn, the result verifies against the
/// same password. It fails only where, for the salt that was drawn, the hash
/// refuses its input or, outside debug mode, the envelope fails.
pub fn hash_encrypt_password(password: &str, config: &Config) -> (blob: Result<
    Vec<u8>,
    InternalError,
>)
    requires
        config.wf(),
    ensures
        blob is Err ==> exists|salt: Seq<u8>|
            salt.len() == config.security.password_salt_bytes && #[trigger] storing_can_fail(
                password.spec_bytes(),
                salt,
                *config,
            ),
        blob matches Ok(b) ==> exists|salt: Seq<u8>, nonce: Seq<u8>|
            salt.len() == config.security.password_salt_bytes && nonce.len() == NONCE_BYTES
                && Some(b@) == #[trigger] password_envelope(
                password.spec_bytes(),
                salt,
                nonce,
                *config,
            ),
        blob matches Ok(b) ==> password_verdict(password.spec_bytes(), b@, *config) == Some(true),
{
    let salt = random_bytes(config.security.password_salt_bytes);
    let phc = match argon2_hash(
        config.argon2.memory_cost,
        config.argon2.time_cost,
        config.argon2.parallelism,
        password.as_bytes(),
        salt.as_slice(),
    ) {
        Some(phc) => phc,
        None => {
            assert(storing_can_fail(password.spec_bytes(), salt@, *config));
            return Err(InternalError);
        },
    };
    proof {
        vstd::utf8::encode_utf8_valid_utf8(phc@);
        vstd::utf8::encode_utf8_decode_utf8(phc@);
    }
    let blob = encrypt(phc.as_str().as_bytes(), config);
    proof {
        if blob is Err {
            assert(storing_can_fail(password.spec_bytes(), salt@, *config));
        }
        if blob is Ok {
            let nonce = choose|nonce: Seq<u8>|
                nonce.len() == NONCE_BYTES && Some(blob->Ok_0@) == #[trigger] envelope(
                    encode_utf8(phc@),
                    nonce,
                    *config,
                );
            assert(Some(blob->Ok_0@) == password_envelope(
                password.spec_bytes(),
                salt@,
                nonce,
                *config,
            ));
        }
    }
    blob
}

/// Checks `password` against a stored envelope. A wrong password is `false`,
/// not an error; an envelope that cannot be opened or read is an error.
pub fn verify_password(password: &str, encrypted_hash_and_nonce: &[u8], config: &Config) -> (verdict:
    Result<bool, InternalError>)
    requires
        config.wf(),
    ensures
        verdict is Ok <==> password_verdict(
            password.spec_bytes(),
            encrypted_hash_and_nonce@,
            *config,
        ) is Some,
        verdict matches Ok(v) ==> Some(v) == password_verdict(
            password.spec_bytes(),
            encrypted_hash_and_nonce@,
            *config,
        ),
{
    let decrypted = match decrypt(encrypted_hash_and_nonce, config) {
        Ok(decrypted) => decrypted,
        Err(e) => {
            return Err(e);
        },
    };
    let hash = match utf8_text(decrypted.as_slice()) {
        Some(hash) => hash,
        None => {
            return Err(InternalError);
        },
    };
    proof {
        vstd::utf8::encode_utf8_decode_utf8(hash@);
    }
    match argon2_verify(password.as_bytes(), hash) {
        Some(v) => Ok(v),
        None => Err(InternalError),
    }
}

// TIME UTILS

/// The current time, in whole seconds since the Unix epoch.
pub fn utc_now() -> (now: i64)
    ensures
        -TIME_BOUND < now < TIME_BOUND,
{
    unix_time_now()
}

// TOTP UTILS

/// Hash function behind the one-time passcodes.
#[derive(Clone, Copy, Debug, PartialEq, Eq, Structural)]
pub enum TotpAlgorithm {
    Sha1,
    Sha256,
    Sha512,
}

/// The passcode of a time-step counter under `key`.
pub open spec fn totp_code(algorithm: TotpAlgorithm, digits: u32, key: Seq<u8>, counter: u64) -> Seq<
    char,
> {
    match algorithm {
        TotpAlgorithm::Sha1 => hotp_sha1(digits, key, counter),
        TotpAlgorithm::Sha256 => hotp_sha256(digits, key, counter),
        TotpAlgorithm::Sha512 => hotp_sha512(digits, key, counter),
    }
}

/// The passcode that `config` gives `key` at `time` seconds: that of the time
/// step `time` falls in.
pub open spec fn totp_at(key: Seq<u8>, time: int, config: Config) -> Seq<char> {
    totp_code(
        config.totp.algorithm,
        config.totp.digits,
        key,
        (time / config.totp.time_step as int) as u64,
    )
}

/// A fresh key for one-time passcodes: letters and digits, of the configured
/// length.
pub fn generate_totp_key(config: &Config) -> (key: Vec<u8>)
    ensures
        key@.len() == config.totp.key_length,
        forall|i: int| 0 <= i < key@.len() ==> is_alphanumeric(#[trigger] key@[i]),
{
    random_alphanumeric(config.totp.key_length)
}

/// The passcode of `key` at `time` seconds since the epoch.
pub fn generate_totp(key: &[u8], time: u64, config: &Config) -> (code: String)
    requires
        config.wf(),
    ensures
        code@ == totp_at(key@, time as int, *config),
{
    let step: u64 = config.totp.time_step as u64;
    match config.totp.algorithm {
        TotpAlgorithm::Sha1 => totp_sha1(step, config.totp.digits, key, time),
        TotpAlgorithm::Sha256 => totp_sha256(step, config.totp.digits, key, time),
        TotpAlgorithm::Sha512 => totp_sha512(step, config.totp.digits, key, time),
    }
}

/// Why a passcode was not accepted.
#[derive(Clone, Copy, Debug, PartialEq, Eq, Structural)]
pub enum VerifyTotpError {
    InvalidTotp,
    InternalError(InternalError),
}

/// The `k`-th time at which a passcode is tried: the current time, then one
/// step back, one step forward, two steps back, two forward, and so on.
pub open spec fn candidate_time(now: int, step: int, k: nat) -> int {
    if k % 2 == 1 {
        now - ((k + 1) / 2) * step
    } else {
        now + (k / 2) * step
    }
}

/// A time for which a passcode can be computed: not before the epoch, and
/// within the range of the clock's type.
pub open spec fn usable_time(time: int) -> bool {
    0 <= time <= i64::MAX
}

/// The search for a matching passcode ends at the `k`-th time tried: either
/// that time is unusable, or `code` is the passcode at that time.
pub open spec fn search_stops(key: Seq<u8>, code: Seq<char>, now: int, config: Config, k: nat) -> bool {
    let time = candidate_time(now, config.totp.time_step as int, k);
    !usable_time(time) || code == totp_at(key, time, config)
}

/// `k` is the first of the times tried at which the search ends.
pub open spec fn search_ends_at(key: Seq<u8>, code: Seq<char>, now: int, config: Config, k: nat) -> bool {
    &&& k <= 2 * config.totp.time_window
    &&& search_stops(key, code, now, config, k)
    &&& forall|j: nat| j < k ==> !search_stops(key, code, now, config, j)
}

/// `outcome` is what verifying `code` at time `now` gives. The times of the
/// window are tried in the order of [`candidate_time`]. The first one that is
/// unusable makes the verification fail as an internal error; the first one at
/// which the code matches gives its time-step index; if neither comes up in
/// the window, the code is invalid.
pub open spec fn is_totp_outcome(
    key: Seq<u8>,
    code: Seq<char>,
    now: int,
    config: Config,
    outcome: Result<i64, VerifyTotpError>,
) -> bool {
    match outcome {
        Ok(index) => exists|k: nat| #[trigger]
            search_ends_at(key, code, now, config, k) && {
                let time = candidate_time(now, config.totp.time_step as int, k);
                usable_time(time) && index == time / config.totp.time_step as int
            },
        Err(VerifyTotpError::InternalError(_)) => exists|k: nat| #[trigger]
            search_ends_at(key, code, now, config, k) && !usable_time(
                candidate_time(now, config.totp.time_step as int, k),
            ),
        Err(VerifyTotpError::InvalidTotp) => forall|k: nat|
            k <= 2 * config.totp.time_window ==> !#[trigger] search_stops(
                key,
                code,
                now,
                config,
                k,
            ),
    }
}

/// What verifying `code` at time `now` gives: the one result that
/// [`is_totp_outcome`] describes.
pub open spec fn totp_outcome(key: Seq<u8>, code: Seq<char>, now: int, config: Config) -> Result<
    i64,
    VerifyTotpError,
> {
    choose|outcome: Result<i64, VerifyTotpError>|
        is_totp_outcome(key, code, now, config, outcome)
}

/// Whether `code` is the passcode of `key` at `time`, compared in constant
/// time.
fn totp_matches(key: &[u8], code: &str, time: u64, config: &Config) -> (same: bool)
    requires
        config.wf(),
    ensures
        same == (code@ == totp_at(key@, time as int, *config)),
{
    let expected = generate_totp(key, time, config);
    proof {
        vstd::utf8::encode_utf8_decode_utf8(code@);
        vstd::utf8::encode_utf8_decode_utf8(expected@);
    }
    secret_eq(code.as_bytes(), expected.as_str().as_bytes())
}

/// Verifies a passcode at the time `now`, searching the current time step and
/// up to the configured number of steps on either side of it. Returns the
/// index of the time step that matched.
pub fn verify_totp_at(key: &[u8], totp: &str, now: i64, config: &Config) -> (outcome: Result<
    i64,
    VerifyTotpError,
>)
    requires
        config.wf(),
    ensures
        is_totp_outcome(key@, totp@, now as int, *config, outcome),
        outcome == totp_outcome(key@, totp@, now as int, *config),
{
    let outcome = search_totp(key, totp, now, config);
    proof {
        lemma_totp_outcome_is_unique(
            key@,
            totp@,
            now as int,
            *config,
            outcome,
            totp_outcome(key@, totp@, now as int, *config),
        );
    }
    outcome
}

/// The search behind [`verify_totp_at`].
fn search_totp(key: &[u8], totp: &str, now: i64, config: &Config) -> (outcome: Result<
    i64,
    VerifyTotpError,
>)
    requires
        config.wf(),
    ensures
        is_totp_outcome(key@, totp@, now as int, *config, outcome),
{
    let time_step: i64 = config.totp.time_step as i64;
    let time_window: i64 = config.totp.time_window as i64;
    let ghost step = config.totp.time_step as int;
    let ghost code = totp@;

    assert(0nat / 2 == 0 && 0 * step == 0);
    assert(candidate_time(now as int, step, 0) == now);
    if now < 0 {
        assert(search_ends_at(key@, code, now as int, *config, 0));
        return Err(VerifyTotpError::InternalError(InternalError));
    }
    if totp_matches(key, totp, now as u64, config) {
        assert(search_ends_at(key@, code, now as int, *config, 0));
        return Ok(now / time_step);
    }
    let mut i: i64 = 1;
    while i <= time_window
        invariant
            config.wf(),
            0 <= now,
            1 <= i <= time_window + 1,
            time_step == config.totp.time_step,
            time_window == config.totp.time_window,
            step == config.totp.time_step as int,
            code == totp@,
            forall|j: nat| j < 2 * i - 1 ==> !search_stops(key@, code, now as int, *config, j),
        decreases time_window + 1 - i,
    {
        let ghost back = (2 * i - 1) as nat;
        let ghost forth = (2 * i) as nat;
        assert(0 <= i * time_step <= 256 * 65535) by (nonlinear_arith)
            requires
                1 <= i <= 256,
                0 <= time_step <= 65535,
        ;
        let time_back: i64 = now - i * time_step;
        assert(back % 2 == 1 && (back + 1) / 2 == i);
        assert(candidate_time(now as int, step, back) == time_back);
        if time_back < 0 {
            assert(search_ends_at(key@, code, now as int, *config, back));
            return Err(VerifyTotpError::InternalError(InternalError));
        }
        if totp_matches(key, totp, time_back as u64, config) {
            assert(search_ends_at(key@, code, now as int, *config, back));
            return Ok(time_back / time_step);
        }
        assert forall|j: nat| j < 2 * i implies !search_stops(key@, code, now as int, *config, j) by {
            if j == back {
            }
        }
        let time_forth: Option<i64> = now.checked_add(i * time_step);
        assert(forth % 2 == 0 && forth / 2 == i);
        assert(candidate_time(now as int, step, forth) == now + i * step);
        match time_forth {
            None => {
                assert(search_ends_at(key@, code, now as int, *config, forth));
                return Err(VerifyTotpError::InternalError(InternalError));
            },
            Some(time_forth) => {
                if totp_matches(key, totp, time_forth as u64, config) {
                    assert(search_ends_at(key@, code, now as int, *config, forth));
                    return Ok(time_forth / time_step);
                }
            },
        }
        assert forall|j: nat| j < 2 * (i + 1) - 1 implies !search_stops(
            key@,
            code,
            now as int,
            *config,
            j,
        ) by {
            if j == forth {
            }
        }
        i = i + 1;
    }
    Err(VerifyTotpError::InvalidTotp)
}

/// Verifies a passcode at the current time. See [`verify_totp_at`].
pub fn verify_totp(key: &[u8], totp: &str, config: &Config) -> (outcome: Result<
    i64,
    VerifyTotpError,
>)
    requires
        config.wf(),
    ensures
        exists|now: i64| #[trigger] is_totp_outcome(key@, totp@, now as int, *config, outcome),
{
    let now = utc_now();
    verify_totp_at(key, totp, now, config)
}

/// The search ends at one place only.
proof fn lemma_search_end_is_unique(
    key: Seq<u8>,
    code: Seq<char>,
    now: int,
    config: Config,
    a: nat,
    b: nat,
)
    requires
        search_ends_at(key, code, now, config, a),
        search_ends_at(key, code, now, config, b),
    ensures
        a == b,
{
    if a < b {
        assert(!search_stops(key, code, now, config, a));
    } else if b < a {
        assert(!search_stops(key, code, now, config, b));
    }
}

/// Where the search ends, for an outcome other than an invalid passcode.
spec fn search_end_of(
    key: Seq<u8>,
    code: Seq<char>,
    now: int,
    config: Config,
    outcome: Result<i64, VerifyTotpError>,
) -> nat {
    let step = config.totp.time_step as int;
    match outcome {
        Ok(index) => choose|k: nat| #[trigger]
            search_ends_at(key, code, now, config, k) && {
                let time = candidate_time(now, step, k);
                usable_time(time) && index == time / step
            },
        _ => choose|k: nat| #[trigger]
            search_ends_at(key, code, now, config, k) && !usable_time(
                candidate_time(now, step, k),
            ),
    }
}

/// Verification has one outcome: whatever satisfies [`is_totp_outcome`] for
/// given inputs is the same result.
pub proof fn lemma_totp_outcome_is_unique(
    key: Seq<u8>,
    code: Seq<char>,
    now: int,
    config: Config,
    first: Result<i64, VerifyTotpError>,
    second: Result<i64, VerifyTotpError>,
)
    requires
        is_totp_outcome(key, code, now, config, first),
        is_totp_outcome(key, code, now, config, second),
    ensures
        first == second,
{
    let first_invalid = first matches Err(VerifyTotpError::InvalidTotp);
    let second_invalid = second matches Err(VerifyTotpError::InvalidTotp);
    if !first_invalid {
        let a = search_end_of(key, code, now, config, first);
        assert(search_ends_at(key, code, now, config, a));
        assert(search_stops(key, code, now, config, a));
        if !second_invalid {
            let b = search_end_of(key, code, now, config, second);
            assert(search_ends_at(key, code, now, config, b));
            lemma_search_end_is_unique(key, code, now, config, a, b);
        }
    } else if !second_invalid {
        let b = search_end_of(key, code, now, config, second);
        assert(search_ends_at(key, code, now, config, b));
        assert(search_stops(key, code, now, config, b));
    }
}

/// A passcode generated for the current time step verifies: where `code` is
/// the passcode of a time in the same step as `now`, verification at `now`
/// accepts it and returns the index of that step.
pub proof fn lemma_current_code_verifies(
    key: Seq<u8>,
    generated_at: int,
    now: int,
    config: Config,
    outcome: Result<i64, VerifyTotpError>,
)
    requires
        config.wf(),
        usable_time(now),
        generated_at / config.totp.time_step as int == now / config.totp.time_step as int,
        is_totp_outcome(key, totp_at(key, generated_at, config), now, config, outcome),
    ensures
        outcome == Ok::<i64, VerifyTotpError>((now / config.totp.time_step as int) as i64),
{
    let code = totp_at(key, generated_at, config);
    let step = config.totp.time_step as int;
    assert(0nat / 2 == 0 && 0 * step == 0);
    assert(candidate_time(now, step, 0) == now);
    assert(search_ends_at(key, code, now, config, 0));
    assert(0 <= now / step <= now) by (nonlinear_arith)
        requires
            0 <= now,
            step > 0,
    ;
    let accepted = Ok::<i64, VerifyTotpError>((now / step) as i64);
    assert(is_totp_outcome(key, code, now, config, accepted));
    lemma_totp_outcome_is_unique(key, code, now, config, outcome, accepted);
}

/// A passcode that is not the passcode of any time in the window is refused:
/// where every time of the window is usable and `code` differs from the
/// passcode at each of them, verification reports an invalid passcode. (A
/// passcode generated for a step outside the window is refused unless it
/// happens to equal one of the window's.)
pub proof fn lemma_code_outside_window_is_invalid(
    key: Seq<u8>,
    code: Seq<char>,
    now: int,
    config: Config,
    outcome: Result<i64, VerifyTotpError>,
)
    requires
        forall|k: nat|
            k <= 2 * config.totp.time_window ==> {
                let time = #[trigger] candidate_time(now, config.totp.time_step as int, k);
                usable_time(time) && code != totp_at(key, time, config)
            },
        is_totp_outcome(key, code, now, config, outcome),
    ensures
        outcome == Err::<i64, VerifyTotpError>(VerifyTotpError::InvalidTotp),
{
    let invalid = Err::<i64, VerifyTotpError>(VerifyTotpError::InvalidTotp);
    assert forall|k: nat| k <= 2 * config.totp.time_window implies !#[trigger] search_stops(
        key,
        code,
        now,
        config,
        k,
    ) by {
        let time = candidate_time(now, config.totp.time_step as int, k);
        assert(usable_time(time));
    }
    assert(is_totp_outcome(key, code, now, config, invalid));
    lemma_totp_outcome_is_unique(key, code, now, config, outcome, invalid);
}

/// With a window of zero only the current time step is tried.
pub proof fn lemma_zero_window_tries_current_step_only(
    key: Seq<u8>,
    code: Seq<char>,
    now: int,
    config: Config,
    outcome: Result<i64, VerifyTotpError>,
)
    requires
        config.totp.time_window == 0,
        usable_time(now),
        is_totp_outcome(key, code, now, config, outcome),
    ensures
        outcome is Ok <==> code == totp_at(key, now, config),
        outcome is Err ==> outcome == Err::<i64, VerifyTotpError>(VerifyTotpError::InvalidTotp),
{
    let step = config.totp.time_step as int;
    assert(0nat / 2 == 0 && 0 * step == 0);
    assert(candidate_time(now, step, 0) == now);
    if code == totp_at(key, now, config) {
        assert(search_stops(key, code, now, config, 0));
    } else {
        assert(!search_stops(key, code, now, config, 0));
    }
    match outcome {
        Ok(_) => {
            let k = choose|k: nat| search_ends_at(key, code, now, config, k);
            assert(k == 0);
        },
        Err(VerifyTotpError::InternalError(_)) => {
            let k = choose|k: nat| search_ends_at(key, code, now, config, k);
            assert(k == 0);
        },
        Err(VerifyTotpError::InvalidTotp) => {},
    }
}

} // verus!
