use vstd::prelude::*;
use crate::trusted::{lowercase, lowercased, replace_char, replaced};
use crate::util::{
    clone_cookies, clone_option_text, cookie_views, Cookie, CookieView, Response,
};

verus! {

/// Status of a request that cannot be taken as it is.
pub const BAD_REQUEST: u16 = 400;

/// Status of a request that comes without a login.
pub const UNAUTHORIZED: u16 = 401;

/// Status of a request that its sender may not make.
pub const FORBIDDEN: u16 = 403;

/// Status of a request for something that is not there.
pub const NOT_FOUND: u16 = 404;

/// Status of a request on which the server failed.
pub const INTERNAL_SERVER_ERROR: u16 = 500;

/// What an error carries besides its kind: cookies for the response to set,
/// a CSRF token for the body, under the given field name, and a detail text.
#[derive(Debug)]
pub struct ErrorData {
    pub cookies: Vec<Cookie>,
    pub csrf_token: Option<(String, String)>,
    pub details: Option<String>,
}

/// What an [`ErrorData`] says.
pub ghost struct ErrorDataView {
    pub cookies: Seq<CookieView>,
    pub csrf_token: Option<(Seq<char>, Seq<char>)>,
    pub details: Option<Seq<char>>,
}

impl View for ErrorData {
    type V = ErrorDataView;

    open spec fn view(&self) -> ErrorDataView {
        ErrorDataView {
            cookies: cookie_views(self.cookies@),
            csrf_token: self.csrf_token.deep_view(),
            details: self.details.deep_view(),
        }
    }
}

/// The data with nothing in it.
pub open spec fn no_error_data() -> ErrorDataView {
    ErrorDataView { cookies: Seq::empty(), csrf_token: None, details: None }
}

impl Clone for ErrorData {
    fn clone(&self) -> (copy: ErrorData)
        ensures
            copy@ == self@,
    {
        let csrf_token = match &self.csrf_token {
            Some((field, token)) => Some((field.clone(), token.clone())),
            None => None,
        };
        ErrorData {
            cookies: clone_cookies(&self.cookies),
            csrf_token,
            details: clone_option_text(&self.details),
        }
    }
}

impl Default for ErrorData {
    fn default() -> (data: ErrorData)
        ensures
            data@ == no_error_data(),
    {
        let data = ErrorData { cookies: Vec::new(), csrf_token: None, details: None };
        assert(data@.cookies =~= Seq::empty());
        data
    }
}

/// What optional error data says.
pub open spec fn data_view(data: Option<ErrorData>) -> Option<ErrorDataView> {
    match data {
        Some(d) => Some(d@),
        None => None,
    }
}

/// The detail text of optional error data.
pub open spec fn details_of(data: Option<ErrorData>) -> Option<Seq<char>> {
    match data {
        Some(d) => d.details.deep_view(),
        None => None,
    }
}

/// A copy of optional error data.
pub fn clone_data(data: &Option<ErrorData>) -> (copy: Option<ErrorData>)
    ensures
        data_view(copy) == data_view(*data),
{
    match data {
        Some(d) => Some(d.clone()),
        None => None,
    }
}

/// One entry of the `errors` list of a response body, or of the `warnings`
/// list: where it comes from, which one it is, and an optional detail.
#[derive(Debug)]
pub struct Alert {
    pub source: String,
    pub id: String,
    pub details: Option<String>,
}

/// What an [`Alert`] says.
pub ghost struct AlertView {
    pub source: Seq<char>,
    pub id: Seq<char>,
    pub details: Option<Seq<char>>,
}

impl View for Alert {
    type V = AlertView;

    open spec fn view(&self) -> AlertView {
        AlertView { source: self.source@, id: self.id@, details: self.details.deep_view() }
    }
}

/// The body of an error response: the list of errors and, where a request
/// failed the forgery check, a fresh token under the configured field name.
#[derive(Debug)]
pub struct ErrorBody {
    pub errors: Vec<Alert>,
    pub csrf_token: Option<(String, String)>,
}

/// What an [`ErrorBody`] says.
pub ghost struct ErrorBodyView {
    pub errors: Seq<AlertView>,
    pub csrf_token: Option<(Seq<char>, Seq<char>)>,
}

impl View for ErrorBody {
    type V = ErrorBodyView;

    open spec fn view(&self) -> ErrorBodyView {
        ErrorBodyView {
            errors: self.errors@.map_values(|a: Alert| a@),
            csrf_token: self.csrf_token.deep_view(),
        }
    }
}

/// The body that reports one error and carries no token.
pub open spec fn single_error_view(
    source: Seq<char>,
    id: Seq<char>,
    details: Option<Seq<char>>,
) -> ErrorBodyView {
    ErrorBodyView { errors: seq![AlertView { source, id, details }], csrf_token: None }
}

/// The response that reports one error: its body names the error and carries
/// the token of the data, if there is one; its cookies are those of the data.
pub open spec fn alert_response_view(
    status: u16,
    source: Seq<char>,
    id: Seq<char>,
    data: Option<ErrorDataView>,
) -> (u16, Seq<CookieView>, ErrorBodyView) {
    match data {
        Some(d) => (
            status,
            d.cookies,
            ErrorBodyView {
                errors: seq![AlertView { source, id, details: d.details }],
                csrf_token: d.csrf_token,
            },
        ),
        None => (status, Seq::empty(), single_error_view(source, id, None)),
    }
}

fn api_alert(source: &str, id: &str, details: Option<String>) -> (alert: Alert)
    ensures
        alert@ == (AlertView { source: source@, id: id@, details: details.deep_view() }),
{
    Alert { source: source.to_owned(), id: id.to_owned(), details }
}

fn single_error(source: &str, id: &str, details: Option<String>) -> (body: ErrorBody)
    ensures
        body@ == single_error_view(source@, id@, details.deep_view()),
{
    let mut errors: Vec<Alert> = Vec::new();
    errors.push(api_alert(source, id, details));
    let body = ErrorBody { errors, csrf_token: None };
    assert(body@.errors =~= seq![
        AlertView { source: source@, id: id@, details: details.deep_view() },
    ]);
    body
}

/// The response for an error of the given source, id and status.
fn alert_response(source: &str, id: &str, status: u16, data: Option<ErrorData>) -> (res: Response<
    ErrorBody,
>)
    ensures
        (res.status, cookie_views(res.cookies@), res.body@) == alert_response_view(
            status,
            source@,
            id@,
            data_view(data),
        ),
{
    match data {
        Some(data) => {
            let mut body = single_error(source, id, data.details);
            body.csrf_token = data.csrf_token;
            Response { status, cookies: data.cookies, body }
        },
        None => {
            let res = Response { status, cookies: Vec::new(), body: single_error(source, id, None) };
            assert(cookie_views(res.cookies@) =~= Seq::empty());
            res
        },
    }
}

/// The variants of [`AuthError`], without what they carry.
#[derive(Clone, Copy, Debug, PartialEq, Eq, Structural)]
pub enum AuthErrorKind {
    AccountDisabled,
    AlreadyLoggedIn,
    Forbidden,
    InvalidCredentials,
    InvalidRememberToken,
    InvalidTotp,
    MissingRememberToken,
    MissingTotp,
    NotLoggedIn,
    PasswordChangeRequired,
    RememberTokenSecretMismatch,
    SessionExpired,
    TotpReuse,
}

impl AuthErrorKind {
    /// The name of the alert, in kebab case.
    pub open spec fn spec_id(&self) -> Seq<char> {
        match self {
            AuthErrorKind::AccountDisabled => "account-disabled"@,
            AuthErrorKind::AlreadyLoggedIn => "already-logged-in"@,
            AuthErrorKind::Forbidden => "forbidden"@,
            AuthErrorKind::InvalidCredentials => "invalid-credentials"@,
            AuthErrorKind::InvalidRememberToken => "invalid-remember-token"@,
            AuthErrorKind::InvalidTotp => "invalid-totp"@,
            AuthErrorKind::MissingRememberToken => "missing-remember-token"@,
            AuthErrorKind::MissingTotp => "missing-totp"@,
            AuthErrorKind::NotLoggedIn => "not-logged-in"@,
            AuthErrorKind::PasswordChangeRequired => "password-change-required"@,
            AuthErrorKind::RememberTokenSecretMismatch => "remember-token-secret-mismatch"@,
            AuthErrorKind::SessionExpired => "session-expired"@,
            AuthErrorKind::TotpReuse => "totp-reuse"@,
        }
    }

    /// The HTTP status that reports the error.
    pub open spec fn spec_status(&self) -> u16 {
        match self {
            AuthErrorKind::AccountDisabled => FORBIDDEN,
            AuthErrorKind::AlreadyLoggedIn => BAD_REQUEST,
            AuthErrorKind::Forbidden => FORBIDDEN,
            AuthErrorKind::InvalidCredentials => BAD_REQUEST,
            AuthErrorKind::InvalidRememberToken => BAD_REQUEST,
            AuthErrorKind::InvalidTotp => BAD_REQUEST,
            AuthErrorKind::MissingRememberToken => BAD_REQUEST,
            AuthErrorKind::MissingTotp => BAD_REQUEST,
            AuthErrorKind::NotLoggedIn => UNAUTHORIZED,
            AuthErrorKind::PasswordChangeRequired => BAD_REQUEST,
            AuthErrorKind::RememberTokenSecretMismatch => BAD_REQUEST,
            AuthErrorKind::SessionExpired => FORBIDDEN,
            AuthErrorKind::TotpReuse => BAD_REQUEST,
        }
    }

    /// The name of the alert, in kebab case.
    pub fn id(&self) -> (id: String)
        ensures
            id@ == self.spec_id(),
    {
        match self {
            AuthErrorKind::AccountDisabled => "account-disabled".to_owned(),
            AuthErrorKind::AlreadyLoggedIn => "already-logged-in".to_owned(),
            AuthErrorKind::Forbidden => "forbidden".to_owned(),
            AuthErrorKind::InvalidCredentials => "invalid-credentials".to_owned(),
            AuthErrorKind::InvalidRememberToken => "invalid-remember-token".to_owned(),
            AuthErrorKind::InvalidTotp => "invalid-totp".to_owned(),
            AuthErrorKind::MissingRememberToken => "missing-remember-token".to_owned(),
            AuthErrorKind::MissingTotp => "missing-totp".to_owned(),
            AuthErrorKind::NotLoggedIn => "not-logged-in".to_owned(),
            AuthErrorKind::PasswordChangeRequired => "password-change-required".to_owned(),
            AuthErrorKind::RememberTokenSecretMismatch => "remember-token-secret-mismatch".to_owned(),
            AuthErrorKind::SessionExpired => "session-expired".to_owned(),
            AuthErrorKind::TotpReuse => "totp-reuse".to_owned(),
        }
    }

    /// The HTTP status that reports the error.
    pub fn status(&self) -> (status: u16)
        ensures
            status == self.spec_status(),
    {
        match self {
            AuthErrorKind::AccountDisabled => FORBIDDEN,
            AuthErrorKind::AlreadyLoggedIn => BAD_REQUEST,
            AuthErrorKind::Forbidden => FORBIDDEN,
            AuthErrorKind::InvalidCredentials => BAD_REQUEST,
            AuthErrorKind::InvalidRememberToken => BAD_REQUEST,
            AuthErrorKind::InvalidTotp => BAD_REQUEST,
            AuthErrorKind::MissingRememberToken => BAD_REQUEST,
            AuthErrorKind::MissingTotp => BAD_REQUEST,
            AuthErrorKind::NotLoggedIn => UNAUTHORIZED,
            AuthErrorKind::PasswordChangeRequired => BAD_REQUEST,
            AuthErrorKind::RememberTokenSecretMismatch => BAD_REQUEST,
            AuthErrorKind::SessionExpired => FORBIDDEN,
            AuthErrorKind::TotpReuse => BAD_REQUEST,
        }
    }
}

/// Why a request was refused for what it says, or fails to say, about who
/// makes it.
#[derive(Debug)]
pub enum AuthError {
    AccountDisabled(Option<ErrorData>),
    AlreadyLoggedIn(Option<ErrorData>),
    Forbidden(Option<ErrorData>),
    InvalidCredentials(Option<ErrorData>),
    InvalidRememberToken(Option<ErrorData>),
    InvalidTotp(Option<ErrorData>),
    MissingRememberToken(Option<ErrorData>),
    MissingTotp(Option<ErrorData>),
    NotLoggedIn(Option<ErrorData>),
    PasswordChangeRequired(Option<ErrorData>),
    RememberTokenSecretMismatch(Option<ErrorData>),
    SessionExpired(Option<ErrorData>),
    TotpReuse(Option<ErrorData>),
}

impl View for AuthError {
    type V = (AuthErrorKind, Option<ErrorDataView>);

    open spec fn view(&self) -> (AuthErrorKind, Option<ErrorDataView>) {
        (self.spec_kind(), data_view(self.spec_data()))
    }
}

impl AuthError {
    /// Where alerts of this type come from.
    pub open spec fn spec_source() -> Seq<char> {
        "auth"@
    }

    /// Which alert it is, as a specification.
    pub open spec fn spec_kind(&self) -> AuthErrorKind {
        match self {
            AuthError::AccountDisabled(_) => AuthErrorKind::AccountDisabled,
            AuthError::AlreadyLoggedIn(_) => AuthErrorKind::AlreadyLoggedIn,
            AuthError::Forbidden(_) => AuthErrorKind::Forbidden,
            AuthError::InvalidCredentials(_) => AuthErrorKind::InvalidCredentials,
            AuthError::InvalidRememberToken(_) => AuthErrorKind::InvalidRememberToken,
            AuthError::InvalidTotp(_) => AuthErrorKind::InvalidTotp,
            AuthError::MissingRememberToken(_) => AuthErrorKind::MissingRememberToken,
            AuthError::MissingTotp(_) => AuthErrorKind::MissingTotp,
            AuthError::NotLoggedIn(_) => AuthErrorKind::NotLoggedIn,
            AuthError::PasswordChangeRequired(_) => AuthErrorKind::PasswordChangeRequired,
            AuthError::RememberTokenSecretMismatch(_) => AuthErrorKind::RememberTokenSecretMismatch,
            AuthError::SessionExpired(_) => AuthErrorKind::SessionExpired,
            AuthError::TotpReuse(_) => AuthErrorKind::TotpReuse,
        }
    }

    /// The data that the alert carries.
    pub open spec fn spec_data(&self) -> Option<ErrorData> {
        match self {
            AuthError::AccountDisabled(data) => *data,
            AuthError::AlreadyLoggedIn(data) => *data,
            AuthError::Forbidden(data) => *data,
            AuthError::InvalidCredentials(data) => *data,
            AuthError::InvalidRememberToken(data) => *data,
            AuthError::InvalidTotp(data) => *data,
            AuthError::MissingRememberToken(data) => *data,
            AuthError::MissingTotp(data) => *data,
            AuthError::NotLoggedIn(data) => *data,
            AuthError::PasswordChangeRequired(data) => *data,
            AuthError::RememberTokenSecretMismatch(data) => *data,
            AuthError::SessionExpired(data) => *data,
            AuthError::TotpReuse(data) => *data,
        }
    }

    /// Which alert it is.
    pub fn kind(&self) -> (kind: AuthErrorKind)
        ensures
            kind == self.spec_kind(),
    {
        match self {
            AuthError::AccountDisabled(_) => AuthErrorKind::AccountDisabled,
            AuthError::AlreadyLoggedIn(_) => AuthErrorKind::AlreadyLoggedIn,
            AuthError::Forbidden(_) => AuthErrorKind::Forbidden,
            AuthError::InvalidCredentials(_) => AuthErrorKind::InvalidCredentials,
            AuthError::InvalidRememberToken(_) => AuthErrorKind::InvalidRememberToken,
            AuthError::InvalidTotp(_) => AuthErrorKind::InvalidTotp,
            AuthError::MissingRememberToken(_) => AuthErrorKind::MissingRememberToken,
            AuthError::MissingTotp(_) => AuthErrorKind::MissingTotp,
            AuthError::NotLoggedIn(_) => AuthErrorKind::NotLoggedIn,
            AuthError::PasswordChangeRequired(_) => AuthErrorKind::PasswordChangeRequired,
            AuthError::RememberTokenSecretMismatch(_) => AuthErrorKind::RememberTokenSecretMismatch,
            AuthError::SessionExpired(_) => AuthErrorKind::SessionExpired,
            AuthError::TotpReuse(_) => AuthErrorKind::TotpReuse,
        }
    }

    /// The alert of the given kind with the given data.
    pub fn of(kind: AuthErrorKind, data: Option<ErrorData>) -> (alert: AuthError)
        ensures
            alert.spec_kind() == kind,
            alert.spec_data() == data,
    {
        match kind {
            AuthErrorKind::AccountDisabled => AuthError::AccountDisabled(data),
            AuthErrorKind::AlreadyLoggedIn => AuthError::AlreadyLoggedIn(data),
            AuthErrorKind::Forbidden => AuthError::Forbidden(data),
            AuthErrorKind::InvalidCredentials => AuthError::InvalidCredentials(data),
            AuthErrorKind::InvalidRememberToken => AuthError::InvalidRememberToken(data),
            AuthErrorKind::InvalidTotp => AuthError::InvalidTotp(data),
            AuthErrorKind::MissingRememberToken => AuthError::MissingRememberToken(data),
            AuthErrorKind::MissingTotp => AuthError::MissingTotp(data),
            AuthErrorKind::NotLoggedIn => AuthError::NotLoggedIn(data),
            AuthErrorKind::PasswordChangeRequired => AuthError::PasswordChangeRequired(data),
            AuthErrorKind::RememberTokenSecretMismatch => AuthError::RememberTokenSecretMismatch(data),
            AuthErrorKind::SessionExpired => AuthError::SessionExpired(data),
            AuthErrorKind::TotpReuse => AuthError::TotpReuse(data),
        }
    }

    /// The name of the alert, in kebab case.
    pub fn id(&self) -> (id: String)
        ensures
            id@ == self.spec_kind().spec_id(),
    {
        self.kind().id()
    }

    fn data_ref(&self) -> (data: &Option<ErrorData>)
        ensures
            *data == self.spec_data(),
    {
        match self {
            AuthError::AccountDisabled(data) => data,
            AuthError::AlreadyLoggedIn(data) => data,
            AuthError::Forbidden(data) => data,
            AuthError::InvalidCredentials(data) => data,
            AuthError::InvalidRememberToken(data) => data,
            AuthError::InvalidTotp(data) => data,
            AuthError::MissingRememberToken(data) => data,
            AuthError::MissingTotp(data) => data,
            AuthError::NotLoggedIn(data) => data,
            AuthError::PasswordChangeRequired(data) => data,
            AuthError::RememberTokenSecretMismatch(data) => data,
            AuthError::SessionExpired(data) => data,
            AuthError::TotpReuse(data) => data,
        }
    }

    /// A copy of the data that the alert carries.
    pub fn data(&self) -> (data: Option<ErrorData>)
        ensures
            data_view(data) == data_view(self.spec_data()),
    {
        clone_data(self.data_ref())
    }

    /// Source, id and detail text of the alert.
    pub fn to_tuple(&self) -> (tuple: (String, String, Option<String>))
        ensures
            tuple.0@ == Self::spec_source(),
            tuple.1@ == self.spec_kind().spec_id(),
            tuple.2.deep_view() == details_of(self.spec_data()),
    {
        let details = match self.data_ref() {
            Some(data) => clone_option_text(&data.details),
            None => None,
        };
        ("auth".to_owned(), self.id(), details)
    }

    /// The alert as an entry of a list of errors or warnings.
    pub fn to_alert(&self) -> (alert: Alert)
        ensures
            alert@ == (AlertView {
                source: Self::spec_source(),
                id: self.spec_kind().spec_id(),
                details: details_of(self.spec_data()),
            }),
    {
        let (source, id, details) = self.to_tuple();
        Alert { source, id, details }
    }

    /// The HTTP status that reports the error.
    pub fn status(&self) -> (status: u16)
        ensures
            status == self.spec_kind().spec_status(),
    {
        self.kind().status()
    }

    /// What the response that reports the error says: its status, one entry
    /// in the list of errors, and the cookies and token of its data.
    pub open spec fn spec_response(&self) -> (u16, Seq<CookieView>, ErrorBodyView) {
        alert_response_view(
            self.spec_kind().spec_status(),
            Self::spec_source(),
            self.spec_kind().spec_id(),
            data_view(self.spec_data()),
        )
    }

    /// The response that reports the error.
    pub fn as_response(&self) -> (res: Response<ErrorBody>)
        ensures
            (res.status, cookie_views(res.cookies@), res.body@) == self.spec_response(),
    {
        let id = self.id();
        alert_response("auth", id.as_str(), self.status(), self.data())
    }
}

/// The variants of [`AuthWarning`], without what they carry.
#[derive(Clone, Copy, Debug, PartialEq, Eq, Structural)]
pub enum AuthWarningKind {
    UnusedTotp,
}

impl AuthWarningKind {
    /// The name of the alert, in kebab case.
    pub open spec fn spec_id(&self) -> Seq<char> {
        match self {
            AuthWarningKind::UnusedTotp => "unused-totp"@,
        }
    }

    /// The name of the alert, in kebab case.
    pub fn id(&self) -> (id: String)
        ensures
            id@ == self.spec_id(),
    {
        match self {
            AuthWarningKind::UnusedTotp => "unused-totp".to_owned(),
        }
    }
}

/// Something about a login that the client should know, though the login
/// went through.
#[derive(Debug)]
pub enum AuthWarning {
    UnusedTotp(Option<ErrorData>),
}

impl View for AuthWarning {
    type V = (AuthWarningKind, Option<ErrorDataView>);

    open spec fn view(&self) -> (AuthWarningKind, Option<ErrorDataView>) {
        (self.spec_kind(), data_view(self.spec_data()))
    }
}

impl AuthWarning {
    /// Where alerts of this type come from.
    pub open spec fn spec_source() -> Seq<char> {
        "auth"@
    }

    /// Which alert it is, as a specification.
    pub open spec fn spec_kind(&self) -> AuthWarningKind {
        match self {
            AuthWarning::UnusedTotp(_) => AuthWarningKind::UnusedTotp,
        }
    }

    /// The data that the alert carries.
    pub open spec fn spec_data(&self) -> Option<ErrorData> {
        match self {
            AuthWarning::UnusedTotp(data) => *data,
        }
    }

    /// Which alert it is.
    pub fn kind(&self) -> (kind: AuthWarningKind)
        ensures
            kind == self.spec_kind(),
    {
        match self {
            AuthWarning::UnusedTotp(_) => AuthWarningKind::UnusedTotp,
        }
    }

    /// The alert of the given kind with the given data.
    pub fn of(kind: AuthWarningKind, data: Option<ErrorData>) -> (alert: AuthWarning)
        ensures
            alert.spec_kind() == kind,
            alert.spec_data() == data,
    {
        match kind {
            AuthWarningKind::UnusedTotp => AuthWarning::UnusedTotp(data),
        }
    }

    /// The name of the alert, in kebab case.
    pub fn id(&self) -> (id: String)
        ensures
            id@ == self.spec_kind().spec_id(),
    {
        self.kind().id()
    }

    fn data_ref(&self) -> (data: &Option<ErrorData>)
        ensures
            *data == self.spec_data(),
    {
        match self {
            AuthWarning::UnusedTotp(data) => data,
        }
    }

    /// A copy of the data that the alert carries.
    pub fn data(&self) -> (data: Option<ErrorData>)
        ensures
            data_view(data) == data_view(self.spec_data()),
    {
        clone_data(self.data_ref())
    }

    /// Source, id and detail text of the alert.
    pub fn to_tuple(&self) -> (tuple: (String, String, Option<String>))
        ensures
            tuple.0@ == Self::spec_source(),
            tuple.1@ == self.spec_kind().spec_id(),
            tuple.2.deep_view() == details_of(self.spec_data()),
    {
        let details = match self.data_ref() {
            Some(data) => clone_option_text(&data.details),
            None => None,
        };
        ("auth".to_owned(), self.id(), details)
    }

    /// The alert as an entry of a list of errors or warnings.
    pub fn to_alert(&self) -> (alert: Alert)
        ensures
            alert@ == (AlertView {
                source: Self::spec_source(),
                id: self.spec_kind().spec_id(),
                details: details_of(self.spec_data()),
            }),
    {
        let (source, id, details) = self.to_tuple();
        Alert { source, id, details }
    }
}

/// The variants of [`CsrfError`], without what they carry.
#[derive(Clone, Copy, Debug, PartialEq, Eq, Structural)]
pub enum CsrfErrorKind {
    InvalidHeader,
    MissingCookie,
    MissingHeader,
    Mismatch,
}

impl CsrfErrorKind {
    /// The name of the alert, in kebab case.
    pub open spec fn spec_id(&self) -> Seq<char> {
        match self {
            CsrfErrorKind::InvalidHeader => "invalid-header"@,
            CsrfErrorKind::MissingCookie => "missing-cookie"@,
            CsrfErrorKind::MissingHeader => "missing-header"@,
            CsrfErrorKind::Mismatch => "mismatch"@,
        }
    }

    /// The HTTP status that reports the error.
    pub open spec fn spec_status(&self) -> u16 {
        match self {
            CsrfErrorKind::InvalidHeader => BAD_REQUEST,
            CsrfErrorKind::MissingCookie => BAD_REQUEST,
            CsrfErrorKind::MissingHeader => BAD_REQUEST,
            CsrfErrorKind::Mismatch => BAD_REQUEST,
        }
    }

    /// The name of the alert, in kebab case.
    pub fn id(&self) -> (id: String)
        ensures
            id@ == self.spec_id(),
    {
        match self {
            CsrfErrorKind::InvalidHeader => "invalid-header".to_owned(),
            CsrfErrorKind::MissingCookie => "missing-cookie".to_owned(),
            CsrfErrorKind::MissingHeader => "missing-header".to_owned(),
            CsrfErrorKind::Mismatch => "mismatch".to_owned(),
        }
    }

    /// The HTTP status that reports the error.
    pub fn status(&self) -> (status: u16)
        ensures
            status == self.spec_status(),
    {
        match self {
            CsrfErrorKind::InvalidHeader => BAD_REQUEST,
            CsrfErrorKind::MissingCookie => BAD_REQUEST,
            CsrfErrorKind::MissingHeader => BAD_REQUEST,
            CsrfErrorKind::Mismatch => BAD_REQUEST,
        }
    }
}

/// Why the cross-site request forgery check refused a request.
#[derive(Debug)]
pub enum CsrfError {
    InvalidHeader(Option<ErrorData>),
    MissingCookie(Option<ErrorData>),
    MissingHeader(Option<ErrorData>),
    Mismatch(Option<ErrorData>),
}

impl View for CsrfError {
    type V = (CsrfErrorKind, Option<ErrorDataView>);

    open spec fn view(&self) -> (CsrfErrorKind, Option<ErrorDataView>) {
        (self.spec_kind(), data_view(self.spec_data()))
    }
}

impl CsrfError {
    /// Where alerts of this type come from.
    pub open spec fn spec_source() -> Seq<char> {
        "csrf"@
    }

    /// Which alert it is, as a specification.
    pub open spec fn spec_kind(&self) -> CsrfErrorKind {
        match self {
            CsrfError::InvalidHeader(_) => CsrfErrorKind::InvalidHeader,
            CsrfError::MissingCookie(_) => CsrfErrorKind::MissingCookie,
            CsrfError::MissingHeader(_) => CsrfErrorKind::MissingHeader,
            CsrfError::Mismatch(_) => CsrfErrorKind::Mismatch,
        }
    }

    /// The data that the alert carries.
    pub open spec fn spec_data(&self) -> Option<ErrorData> {
        match self {
            CsrfError::InvalidHeader(data) => *data,
            CsrfError::MissingCookie(data) => *data,
            CsrfError::MissingHeader(data) => *data,
            CsrfError::Mismatch(data) => *data,
        }
    }

    /// Which alert it is.
    pub fn kind(&self) -> (kind: CsrfErrorKind)
        ensures
            kind == self.spec_kind(),
    {
        match self {
            CsrfError::InvalidHeader(_) => CsrfErrorKind::InvalidHeader,
            CsrfError::MissingCookie(_) => CsrfErrorKind::MissingCookie,
            CsrfError::MissingHeader(_) => CsrfErrorKind::MissingHeader,
            CsrfError::Mismatch(_) => CsrfErrorKind::Mismatch,
        }
    }

    /// The alert of the given kind with the given data.
    pub fn of(kind: CsrfErrorKind, data: Option<ErrorData>) -> (alert: CsrfError)
        ensures
            alert.spec_kind() == kind,
            alert.spec_data() == data,
    {
        match kind {
            CsrfErrorKind::InvalidHeader => CsrfError::InvalidHeader(data),
            CsrfErrorKind::MissingCookie => CsrfError::MissingCookie(data),
            CsrfErrorKind::MissingHeader => CsrfError::MissingHeader(data),
            CsrfErrorKind::Mismatch => CsrfError::Mismatch(data),
        }
    }

    /// The name of the alert, in kebab case.
    pub fn id(&self) -> (id: String)
        ensures
            id@ == self.spec_kind().spec_id(),
    {
        self.kind().id()
    }

    fn data_ref(&self) -> (data: &Option<ErrorData>)
        ensures
            *data == self.spec_data(),
    {
        match self {
            CsrfError::InvalidHeader(data) => data,
            CsrfError::MissingCookie(data) => data,
            CsrfError::MissingHeader(data) => data,
            CsrfError::Mismatch(data) => data,
        }
    }

    /// A copy of the data that the alert carries.
    pub fn data(&self) -> (data: Option<ErrorData>)
        ensures
            data_view(data) == data_view(self.spec_data()),
    {
        clone_data(self.data_ref())
    }

    /// Source, id and detail text of the alert.
    pub fn to_tuple(&self) -> (tuple: (String, String, Option<String>))
        ensures
            tuple.0@ == Self::spec_source(),
            tuple.1@ == self.spec_kind().spec_id(),
            tuple.2.deep_view() == details_of(self.spec_data()),
    {
        let details = match self.data_ref() {
            Some(data) => clone_option_text(&data.details),
            None => None,
        };
        ("csrf".to_owned(), self.id(), details)
    }

    /// The alert as an entry of a list of errors or warnings.
    pub fn to_alert(&self) -> (alert: Alert)
        ensures
            alert@ == (AlertView {
                source: Self::spec_source(),
                id: self.spec_kind().spec_id(),
                details: details_of(self.spec_data()),
            }),
    {
        let (source, id, details) = self.to_tuple();
        Alert { source, id, details }
    }

    /// The HTTP status that reports the error.
    pub fn status(&self) -> (status: u16)
        ensures
            status == self.spec_kind().spec_status(),
    {
        self.kind().status()
    }

    /// What the response that reports the error says: its status, one entry
    /// in the list of errors, and the cookies and token of its data.
    pub open spec fn spec_response(&self) -> (u16, Seq<CookieView>, ErrorBodyView) {
        alert_response_view(
            self.spec_kind().spec_status(),
            Self::spec_source(),
            self.spec_kind().spec_id(),
            data_view(self.spec_data()),
        )
    }

    /// The response that reports the error.
    pub fn as_response(&self) -> (res: Response<ErrorBody>)
        ensures
            (res.status, cookie_views(res.cookies@), res.body@) == self.spec_response(),
    {
        let id = self.id();
        alert_response("csrf", id.as_str(), self.status(), self.data())
    }
}

/// The variants of [`GeneralError`], without what they carry.
#[derive(Clone, Copy, Debug, PartialEq, Eq, Structural)]
pub enum GeneralErrorKind {
    InvalidData,
    NotFound,
}

impl GeneralErrorKind {
    /// The name of the alert, in kebab case.
    pub open spec fn spec_id(&self) -> Seq<char> {
        match self {
            GeneralErrorKind::InvalidData => "invalid-data"@,
            GeneralErrorKind::NotFound => "not-found"@,
        }
    }

    /// The HTTP status that reports the error.
    pub open spec fn spec_status(&self) -> u16 {
        match self {
            GeneralErrorKind::InvalidData => BAD_REQUEST,
            GeneralErrorKind::NotFound => NOT_FOUND,
        }
    }

    /// The name of the alert, in kebab case.
    pub fn id(&self) -> (id: String)
        ensures
            id@ == self.spec_id(),
    {
        match self {
            GeneralErrorKind::InvalidData => "invalid-data".to_owned(),
            GeneralErrorKind::NotFound => "not-found".to_owned(),
        }
    }

    /// The HTTP status that reports the error.
    pub fn status(&self) -> (status: u16)
        ensures
            status == self.spec_status(),
    {
        match self {
            GeneralErrorKind::InvalidData => BAD_REQUEST,
            GeneralErrorKind::NotFound => NOT_FOUND,
        }
    }
}

/// A refusal that is not about identity.
#[derive(Debug)]
pub enum GeneralError {
    InvalidData(Option<ErrorData>),
    NotFound(Option<ErrorData>),
}

impl View for GeneralError {
    type V = (GeneralErrorKind, Option<ErrorDataView>);

    open spec fn view(&self) -> (GeneralErrorKind, Option<ErrorDataView>) {
        (self.spec_kind(), data_view(self.spec_data()))
    }
}

impl GeneralError {
    /// Where alerts of this type come from.
    pub open spec fn spec_source() -> Seq<char> {
        "general"@
    }

    /// Which alert it is, as a specification.
    pub open spec fn spec_kind(&self) -> GeneralErrorKind {
        match self {
            GeneralError::InvalidData(_) => GeneralErrorKind::InvalidData,
            GeneralError::NotFound(_) => GeneralErrorKind::NotFound,
        }
    }

    /// The data that the alert carries.
    pub open spec fn spec_data(&self) -> Option<ErrorData> {
        match self {
            GeneralError::InvalidData(data) => *data,
            GeneralError::NotFound(data) => *data,
        }
    }

    /// Which alert it is.
    pub fn kind(&self) -> (kind: GeneralErrorKind)
        ensures
            kind == self.spec_kind(),
    {
        match self {
            GeneralError::InvalidData(_) => GeneralErrorKind::InvalidData,
            GeneralError::NotFound(_) => GeneralErrorKind::NotFound,
        }
    }

    /// The alert of the given kind with the given data.
    pub fn of(kind: GeneralErrorKind, data: Option<ErrorData>) -> (alert: GeneralError)
        ensures
            alert.spec_kind() == kind,
            alert.spec_data() == data,
    {
        match kind {
            GeneralErrorKind::InvalidData => GeneralError::InvalidData(data),
            GeneralErrorKind::NotFound => GeneralError::NotFound(data),
        }
    }

    /// The name of the alert, in kebab case.
    pub fn id(&self) -> (id: String)
        ensures
            id@ == self.spec_kind().spec_id(),
    {
        self.kind().id()
    }

    fn data_ref(&self) -> (data: &Option<ErrorData>)
        ensures
            *data == self.spec_data(),
    {
        match self {
            GeneralError::InvalidData(data) => data,
            GeneralError::NotFound(data) => data,
        }
    }

    /// A copy of the data that the alert carries.
    pub fn data(&self) -> (data: Option<ErrorData>)
        ensures
            data_view(data) == data_view(self.spec_data()),
    {
        clone_data(self.data_ref())
    }

    /// Source, id and detail text of the alert.
    pub fn to_tuple(&self) -> (tuple: (String, String, Option<String>))
        ensures
            tuple.0@ == Self::spec_source(),
            tuple.1@ == self.spec_kind().spec_id(),
            tuple.2.deep_view() == details_of(self.spec_data()),
    {
        let details = match self.data_ref() {
            Some(data) => clone_option_text(&data.details),
            None => None,
        };
        ("general".to_owned(), self.id(), details)
    }

    /// The alert as an entry of a list of errors or warnings.
    pub fn to_alert(&self) -> (alert: Alert)
        ensures
            alert@ == (AlertView {
                source: Self::spec_source(),
                id: self.spec_kind().spec_id(),
                details: details_of(self.spec_data()),
            }),
    {
        let (source, id, details) = self.to_tuple();
        Alert { source, id, details }
    }

    /// The HTTP status that reports the error.
    pub fn status(&self) -> (status: u16)
        ensures
            status == self.spec_kind().spec_status(),
    {
        self.kind().status()
    }

    /// What the response that reports the error says: its status, one entry
    /// in the list of errors, and the cookies and token of its data.
    pub open spec fn spec_response(&self) -> (u16, Seq<CookieView>, ErrorBodyView) {
        alert_response_view(
            self.spec_kind().spec_status(),
            Self::spec_source(),
            self.spec_kind().spec_id(),
            data_view(self.spec_data()),
        )
    }

    /// The response that reports the error.
    pub fn as_response(&self) -> (res: Response<ErrorBody>)
        ensures
            (res.status, cookie_views(res.cookies@), res.body@) == self.spec_response(),
    {
        let id = self.id();
        alert_response("general", id.as_str(), self.status(), self.data())
    }
}

/// The variants of [`WebSocketError`], without what they carry.
#[derive(Clone, Copy, Debug, PartialEq, Eq, Structural)]
pub enum WebSocketErrorKind {
    AlreadyInRoom,
    InvalidMessageType,
    NotInRoom,
}

impl WebSocketErrorKind {
    /// The name of the alert, in kebab case.
    pub open spec fn spec_id(&self) -> Seq<char> {
        match self {
            WebSocketErrorKind::AlreadyInRoom => "already-in-room"@,
            WebSocketErrorKind::InvalidMessageType => "invalid-message-type"@,
            WebSocketErrorKind::NotInRoom => "not-in-room"@,
        }
    }

    /// The name of the alert, in kebab case.
    pub fn id(&self) -> (id: String)
        ensures
            id@ == self.spec_id(),
    {
        match self {
            WebSocketErrorKind::AlreadyInRoom => "already-in-room".to_owned(),
            WebSocketErrorKind::InvalidMessageType => "invalid-message-type".to_owned(),
            WebSocketErrorKind::NotInRoom => "not-in-room".to_owned(),
        }
    }
}

/// Why a message on a socket was refused.
#[derive(Debug)]
pub enum WebSocketError {
    AlreadyInRoom(Option<ErrorData>),
    InvalidMessageType(Option<ErrorData>),
    NotInRoom(Option<ErrorData>),
}

impl View for WebSocketError {
    type V = (WebSocketErrorKind, Option<ErrorDataView>);

    open spec fn view(&self) -> (WebSocketErrorKind, Option<ErrorDataView>) {
        (self.spec_kind(), data_view(self.spec_data()))
    }
}

impl WebSocketError {
    /// Where alerts of this type come from.
    pub open spec fn spec_source() -> Seq<char> {
        "websocket"@
    }

    /// Which alert it is, as a specification.
    pub open spec fn spec_kind(&self) -> WebSocketErrorKind {
        match self {
            WebSocketError::AlreadyInRoom(_) => WebSocketErrorKind::AlreadyInRoom,
            WebSocketError::InvalidMessageType(_) => WebSocketErrorKind::InvalidMessageType,
            WebSocketError::NotInRoom(_) => WebSocketErrorKind::NotInRoom,
        }
    }

    /// The data that the alert carries.
    pub open spec fn spec_data(&self) -> Option<ErrorData> {
        match self {
            WebSocketError::AlreadyInRoom(data) => *data,
            WebSocketError::InvalidMessageType(data) => *data,
            WebSocketError::NotInRoom(data) => *data,
        }
    }

    /// Which alert it is.
    pub fn kind(&self) -> (kind: WebSocketErrorKind)
        ensures
            kind == self.spec_kind(),
    {
        match self {
            WebSocketError::AlreadyInRoom(_) => WebSocketErrorKind::AlreadyInRoom,
            WebSocketError::InvalidMessageType(_) => WebSocketErrorKind::InvalidMessageType,
            WebSocketError::NotInRoom(_) => WebSocketErrorKind::NotInRoom,
        }
    }

    /// The alert of the given kind with the given data.
    pub fn of(kind: WebSocketErrorKind, data: Option<ErrorData>) -> (alert: WebSocketError)
        ensures
            alert.spec_kind() == kind,
            alert.spec_data() == data,
    {
        match kind {
            WebSocketErrorKind::AlreadyInRoom => WebSocketError::AlreadyInRoom(data),
            WebSocketErrorKind::InvalidMessageType => WebSocketError::InvalidMessageType(data),
            WebSocketErrorKind::NotInRoom => WebSocketError::NotInRoom(data),
        }
    }

    /// The name of the alert, in kebab case.
    pub fn id(&self) -> (id: String)
        ensures
            id@ == self.spec_kind().spec_id(),
    {
        self.kind().id()
    }

    fn data_ref(&self) -> (data: &Option<ErrorData>)
        ensures
            *data == self.spec_data(),
    {
        match self {
            WebSocketError::AlreadyInRoom(data) => data,
            WebSocketError::InvalidMessageType(data) => data,
            WebSocketError::NotInRoom(data) => data,
        }
    }

    /// A copy of the data that the alert carries.
    pub fn data(&self) -> (data: Option<ErrorData>)
        ensures
            data_view(data) == data_view(self.spec_data()),
    {
        clone_data(self.data_ref())
    }

    /// Source, id and detail text of the alert.
    pub fn to_tuple(&self) -> (tuple: (String, String, Option<String>))
        ensures
            tuple.0@ == Self::spec_source(),
            tuple.1@ == self.spec_kind().spec_id(),
            tuple.2.deep_view() == details_of(self.spec_data()),
    {
        let details = match self.data_ref() {
            Some(data) => clone_option_text(&data.details),
            None => None,
        };
        ("websocket".to_owned(), self.id(), details)
    }

    /// The alert as an entry of a list of errors or warnings.
    pub fn to_alert(&self) -> (alert: Alert)
        ensures
            alert@ == (AlertView {
                source: Self::spec_source(),
                id: self.spec_kind().spec_id(),
                details: details_of(self.spec_data()),
            }),
    {
        let (source, id, details) = self.to_tuple();
        Alert { source, id, details }
    }
}

/// An unexpected failure of the server itself. It carries no detail: whatever
/// caused it stays on the server, and a client only learns that it happened.
#[derive(Clone, Copy, Debug, PartialEq, Eq, Structural)]
pub struct InternalError;

impl InternalError {
    /// Turns any failure into the opaque internal error, dropping its text.
    pub fn new<E: core::fmt::Display>(err: E) -> (e: InternalError)
        ensures
            e == InternalError,
    {
        InternalError
    }

    /// The body that reports an internal error.
    pub open spec fn spec_body() -> ErrorBodyView {
        single_error_view("general"@, "internal-server-error"@, None)
    }

    /// Source, id and detail text: a general error without detail.
    pub fn to_tuple(&self) -> (tuple: (String, String, Option<String>))
        ensures
            tuple.0@ == "general"@,
            tuple.1@ == "internal-server-error"@,
            tuple.2 is None,
    {
        ("general".to_owned(), "internal-server-error".to_owned(), None)
    }

    /// The error as an entry of a list of errors.
    pub fn to_alert(&self) -> (alert: Alert)
        ensures
            alert@ == (AlertView {
                source: "general"@,
                id: "internal-server-error"@,
                details: None,
            }),
    {
        let (source, id, details) = self.to_tuple();
        Alert { source, id, details }
    }

    /// The HTTP status that reports the error.
    pub fn status(&self) -> (status: u16)
        ensures
            status == INTERNAL_SERVER_ERROR,
    {
        INTERNAL_SERVER_ERROR
    }

    /// The response that reports the error: status 500, no cookies, and a
    /// body that says no more than that the server failed.
    pub fn as_response(&self) -> (res: Response<ErrorBody>)
        ensures
            res.status == INTERNAL_SERVER_ERROR,
            res.cookies@.len() == 0,
            res.body@ == Self::spec_body(),
    {
        let (source, id, details) = self.to_tuple();
        let body = single_error(source.as_str(), id.as_str(), details);
        Response { status: self.status(), cookies: Vec::new(), body }
    }
}

/// What kind of failure the web framework reported for a request that no
/// handler answered.
#[derive(Clone, Copy, Debug, PartialEq, Eq, Structural)]
pub enum FrameworkErrorKind {
    /// Data that a handler asked for was not attached to the request.
    GetData,
    /// The body was not the JSON that the handler takes.
    ParseJsonSyntax,
    /// The body could not be taken as JSON for another reason.
    ParseJsonOther,
    ParsePath,
    ParseQuery,
    /// The body had been read already.
    BodyTaken,
    ReadBodyOther,
    /// A socket was asked for on a request that cannot be upgraded.
    NoUpgrade,
    UpgradeOther,
    MethodNotAllowed,
    NotFound,
    ParseMultipart,
    /// Anything else.
    Other,
}

/// A failure reported by the web framework, with what its own response would
/// have said.
#[derive(Debug)]
pub struct FrameworkError {
    pub kind: FrameworkErrorKind,
    /// The failure in words.
    pub message: String,
    /// Status of the framework's response.
    pub status: u16,
    /// The standard phrase for that status, if it has one.
    pub reason: Option<String>,
    /// Body of the framework's response, if it could be read as text.
    pub body: Option<String>,
}

/// Every failure that can end a request.
#[derive(Debug)]
pub enum AppError {
    Auth(AuthError),
    Csrf(CsrfError),
    General(GeneralError),
    Internal(InternalError),
    Framework(FrameworkError),
}

/// A text in lower case with a hyphen for each space.
pub open spec fn slug(value: Seq<char>) -> Seq<char> {
    lowercased(replaced(value, ' ', "-"@))
}

fn slugify(value: &str) -> (text: String)
    ensures
        text@ == slug(value@),
{
    let hyphenated = replace_char(value, ' ', "-");
    lowercase(hyphenated.as_str())
}

/// How a failure of the framework is reported: status and body. Bad input is
/// reported as invalid data with the framework's words as detail, an unknown
/// path as not found. A failure that stands for a mistake in the server, or
/// one of a kind that is not expected, is an internal error. The others keep
/// their status and are named by its standard phrase, with the framework's
/// body as detail unless it only repeats that phrase.
pub open spec fn framework_response_view(error: FrameworkError) -> (u16, ErrorBodyView) {
    match error.kind {
        FrameworkErrorKind::GetData
        | FrameworkErrorKind::ParseJsonSyntax
        | FrameworkErrorKind::ParseQuery => (
            BAD_REQUEST,
            single_error_view("general"@, "invalid-data"@, Some(error.message@)),
        ),
        FrameworkErrorKind::ParsePath => (
            NOT_FOUND,
            single_error_view("general"@, "not-found"@, None),
        ),
        FrameworkErrorKind::BodyTaken
        | FrameworkErrorKind::NoUpgrade
        | FrameworkErrorKind::Other => (INTERNAL_SERVER_ERROR, InternalError::spec_body()),
        _ => match (error.body, error.reason) {
            (Some(body), Some(reason)) => (
                error.status,
                single_error_view(
                    "general"@,
                    slug(reason@),
                    if slug(body@) == slug(reason@) {
                        None
                    } else {
                        Some(body@)
                    },
                ),
            ),
            _ => (INTERNAL_SERVER_ERROR, InternalError::spec_body()),
        },
    }
}

/// The response for a failure of the framework. It sets no cookie.
fn framework_response(error: FrameworkError) -> (res: Response<ErrorBody>)
    ensures
        (res.status, res.body@) == framework_response_view(error),
        res.cookies@.len() == 0,
{
    match error.kind {
        FrameworkErrorKind::GetData
        | FrameworkErrorKind::ParseJsonSyntax
        | FrameworkErrorKind::ParseQuery => {
            let res = GeneralError::InvalidData(
                Some(ErrorData { cookies: Vec::new(), csrf_token: None, details: Some(error.message) }),
            ).as_response();
            assert(cookie_views(res.cookies@).len() == 0);
            res
        },
        FrameworkErrorKind::ParsePath => {
            let res = GeneralError::NotFound(None).as_response();
            assert(cookie_views(res.cookies@).len() == 0);
            res
        },
        FrameworkErrorKind::BodyTaken
        | FrameworkErrorKind::NoUpgrade
        | FrameworkErrorKind::Other => InternalError.as_response(),
        _ => {
            let framework_body = match error.body {
                Some(body) => body,
                None => {
                    return InternalError.as_response();
                },
            };
            let error_id = match error.reason {
                Some(reason) => slugify(reason.as_str()),
                None => {
                    return InternalError.as_response();
                },
            };
            let details = if slugify(framework_body.as_str()) == error_id {
                None
            } else {
                Some(framework_body)
            };
            Response {
                status: error.status,
                cookies: Vec::new(),
                body: single_error("general", error_id.as_str(), details),
            }
        },
    }
}

/// Turns whatever ended a request into the response that reports it. An
/// error of this server is reported as it describes itself; a failure of the
/// framework as [`framework_response_view`] says.
pub fn error_handler(err: AppError) -> (res: Response<ErrorBody>)
    ensures
        match err {
            AppError::Auth(e) => (res.status, cookie_views(res.cookies@), res.body@)
                == e.spec_response(),
            AppError::Csrf(e) => (res.status, cookie_views(res.cookies@), res.body@)
                == e.spec_response(),
            AppError::General(e) => (res.status, cookie_views(res.cookies@), res.body@)
                == e.spec_response(),
            AppError::Internal(_) => res.status == INTERNAL_SERVER_ERROR && res.cookies@.len() == 0
                && res.body@ == InternalError::spec_body(),
            AppError::Framework(e) => (res.status, res.body@) == framework_response_view(e)
                && res.cookies@.len() == 0,
        },
{
    match err {
        AppError::Auth(e) => e.as_response(),
        AppError::Csrf(e) => e.as_response(),
        AppError::General(e) => e.as_response(),
        AppError::Internal(e) => e.as_response(),
        AppError::Framework(e) => framework_response(e),
    }
}

} // verus!
