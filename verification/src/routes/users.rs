use vstd::prelude::*;
use crate::db::{Language, PasswordChangeReason, Permission};
use crate::error::{AuthError, AuthErrorKind, ErrorDataView};
use crate::middleware::CurrentUser;
use crate::util::{text_eq, Response, ResponseBuilder, STATUS_OK};

verus! {

/// What a user is told about themselves.
pub struct CurrentUserData {
    pub id: String,
    pub username: String,
    pub totp_enabled: Option<bool>,
    pub password_change_reason: Option<Option<PasswordChangeReason>>,
    pub icon: Option<String>,
    pub language: Language,
}

/// The body of the response that describes the current user.
pub struct CurrentUserBody {
    pub data: CurrentUserData,
    pub sudo_until: Option<i64>,
}

/// Describes the current user. The name, icon, language and elevation of the
/// user must have been loaded.
fn current_user_response(current_user: CurrentUser) -> (res: Response<CurrentUserBody>)
    requires
        current_user.username is Some,
        current_user.icon is Some,
        current_user.language is Some,
        current_user.sudo_until is Some,
    ensures
        res.status == STATUS_OK,
        res.cookies@.len() == 0,
        res.body == (CurrentUserBody {
            data: CurrentUserData {
                id: current_user.id,
                username: current_user.username->0,
                totp_enabled: current_user.totp_enabled,
                password_change_reason: current_user.password_change_reason,
                icon: current_user.icon->0,
                language: current_user.language->0,
            },
            sudo_until: current_user.sudo_until->0,
        }),
{
    let body = CurrentUserBody {
        data: CurrentUserData {
            id: current_user.id,
            username: current_user.username.unwrap(),
            totp_enabled: current_user.totp_enabled,
            password_change_reason: current_user.password_change_reason,
            icon: current_user.icon.unwrap(),
            language: current_user.language.unwrap(),
        },
        sudo_until: current_user.sudo_until.unwrap(),
    };
    ResponseBuilder::new(STATUS_OK).body(body)
}

/// Describes the user who makes the request.
pub fn get_me(current_user: CurrentUser) -> (res: Response<CurrentUserBody>)
    requires
        current_user.username is Some,
        current_user.icon is Some,
        current_user.language is Some,
        current_user.sudo_until is Some,
    ensures
        res.status == STATUS_OK,
        res.cookies@.len() == 0,
        res.body == (CurrentUserBody {
            data: CurrentUserData {
                id: current_user.id,
                username: current_user.username->0,
                totp_enabled: current_user.totp_enabled,
                password_change_reason: current_user.password_change_reason,
                icon: current_user.icon->0,
                language: current_user.language->0,
            },
            sudo_until: current_user.sudo_until->0,
        }),
{
    current_user_response(current_user)
}

/// Whose account a request asks about.
#[derive(Clone, Copy, Debug, PartialEq, Eq, Structural)]
pub enum UserAccess {
    /// The user's own: it is described from what the request carries.
    Own,
    /// Another user's, which the user may view: it is to be looked up.
    Other,
}

/// Whether the user may view the users.
pub open spec fn may_view_users(permissions: Seq<Permission>) -> bool {
    permissions.contains(Permission::ViewUser)
}

/// Decides whether the current user may see the account `user_id`: their own
/// always, another only with the permission to view users. For another
/// account the permissions of the user must have been loaded.
pub fn get_user(user_id: &str, current_user: &CurrentUser) -> (access: Result<
    UserAccess,
    AuthError,
>)
    requires
        user_id@ != current_user.id@ ==> current_user.permissions is Some,
    ensures
        match access {
            Ok(UserAccess::Own) => user_id@ == current_user.id@,
            Ok(UserAccess::Other) => user_id@ != current_user.id@ && may_view_users(
                current_user.permissions->0@,
            ),
            Err(e) => user_id@ != current_user.id@ && !may_view_users(
                current_user.permissions->0@,
            ) && e@ == (AuthErrorKind::Forbidden, None::<ErrorDataView>),
        },
{
    if text_eq(user_id, current_user.id.as_str()) {
        return Ok(UserAccess::Own);
    }
    let permissions = current_user.permissions.as_ref().unwrap();
    let mut i: usize = 0;
    while i < permissions.len()
        invariant
            i <= permissions.len(),
            user_id@ != current_user.id@,
            current_user.permissions == Some(*permissions),
            forall|j: int| 0 <= j < i ==> permissions@[j] != Permission::ViewUser,
        decreases permissions.len() - i,
    {
        if permissions[i] == Permission::ViewUser {
            assert(permissions@[i as int] == Permission::ViewUser);
            return Ok(UserAccess::Other);
        }
        i = i + 1;
    }
    Err(AuthError::Forbidden(None))
}

} // verus!
