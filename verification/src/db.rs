use vstd::prelude::*;
use vstd::string::StringExecFns;
use crate::error::InternalError;
use crate::trusted::{replace_char, replaced};
use crate::util::{join, joined};

verus! {

/// Language of a user's interface.
#[allow(non_camel_case_types)]
#[derive(Clone, Copy, Debug, PartialEq, Eq, Structural)]
pub enum Language {
    en_US,
    fi,
}

/// Why a user has to choose a new password before doing anything else.
#[derive(Clone, Copy, Debug, PartialEq, Eq, Structural)]
pub enum PasswordChangeReason {
    /// A remember token of the user was presented with the wrong secret.
    RememberTokenCompromise,
}

/// What a user may do to the accounts of others.
#[derive(Clone, Copy, Debug, PartialEq, Eq, Structural)]
pub enum Permission {
    ViewUser,
    EditUser,
    DeleteUser,
    IgnoreRateLimits,
}

impl Language {
    /// The name of the value in the store, as a specification.
    pub open spec fn spec_name(&self) -> Seq<char> {
        match self {
            Language::en_US => "en-US"@,
            Language::fi => "fi"@,
        }
    }

    /// The name of the value in the store.
    pub fn name(&self) -> (name: String)
        ensures
            name@ == self.spec_name(),
    {
        match self {
            Language::en_US => "en-US".to_owned(),
            Language::fi => "fi".to_owned(),
        }
    }

    /// The names of all values, in the order of declaration.
    pub fn variants() -> (names: Vec<String>)
        ensures
            names.deep_view() == seq![Language::en_US.spec_name(), Language::fi.spec_name()],
    {
        let mut names: Vec<String> = Vec::new();
        names.push(Language::en_US.name());
        names.push(Language::fi.name());
        assert(names.deep_view() =~= seq![Language::en_US.spec_name(), Language::fi.spec_name()]);
        names
    }
}

impl PasswordChangeReason {
    /// The name of the value in the store, as a specification.
    pub open spec fn spec_name(&self) -> Seq<char> {
        match self {
            PasswordChangeReason::RememberTokenCompromise => "remember_token_compromise"@,
        }
    }

    /// The name of the value in the store.
    pub fn name(&self) -> (name: String)
        ensures
            name@ == self.spec_name(),
    {
        match self {
            PasswordChangeReason::RememberTokenCompromise => "remember_token_compromise".to_owned(),
        }
    }

    /// The names of all values, in the order of declaration.
    pub fn variants() -> (names: Vec<String>)
        ensures
            names.deep_view() == seq![PasswordChangeReason::RememberTokenCompromise.spec_name()],
    {
        let mut names: Vec<String> = Vec::new();
        names.push(PasswordChangeReason::RememberTokenCompromise.name());
        assert(names.deep_view() =~= seq![
            PasswordChangeReason::RememberTokenCompromise.spec_name(),
        ]);
        names
    }
}

impl Permission {
    /// The name of the value in the store, as a specification.
    pub open spec fn spec_name(&self) -> Seq<char> {
        match self {
            Permission::ViewUser => "view_user"@,
            Permission::EditUser => "edit_user"@,
            Permission::DeleteUser => "delete_user"@,
            Permission::IgnoreRateLimits => "ignore_rate_limits"@,
        }
    }

    /// The name of the value in the store.
    pub fn name(&self) -> (name: String)
        ensures
            name@ == self.spec_name(),
    {
        match self {
            Permission::ViewUser => "view_user".to_owned(),
            Permission::EditUser => "edit_user".to_owned(),
            Permission::DeleteUser => "delete_user".to_owned(),
            Permission::IgnoreRateLimits => "ignore_rate_limits".to_owned(),
        }
    }

    /// The names of all values, in the order of declaration.
    pub fn variants() -> (names: Vec<String>)
        ensures
            names.deep_view() == seq![
                Permission::ViewUser.spec_name(),
                Permission::EditUser.spec_name(),
                Permission::DeleteUser.spec_name(),
                Permission::IgnoreRateLimits.spec_name(),
            ],
    {
        let mut names: Vec<String> = Vec::new();
        names.push(Permission::ViewUser.name());
        names.push(Permission::EditUser.name());
        names.push(Permission::DeleteUser.name());
        names.push(Permission::IgnoreRateLimits.name());
        assert(names.deep_view() =~= seq![
            Permission::ViewUser.spec_name(),
            Permission::EditUser.spec_name(),
            Permission::DeleteUser.spec_name(),
            Permission::IgnoreRateLimits.spec_name(),
        ]);
        names
    }
}

/// The row of a user.
pub struct UserRow {
    pub id: String,
    pub active: bool,
    pub username: String,
    /// The password hash in its encryption envelope.
    pub password: Vec<u8>,
    /// The key for one-time passcodes in its encryption envelope, if the user
    /// has one.
    pub totp_key: Option<Vec<u8>>,
    /// Index of the last time step for which a passcode was accepted.
    pub last_totp_time_step: Option<i64>,
    pub password_change_reason: Option<PasswordChangeReason>,
    pub icon: Option<String>,
    pub language: Language,
}

/// A statement that changes the store.
pub enum DbOp {
    /// Records the time step of the passcode that a user has just used.
    SetLastTotpTimeStep { user_id: String, time_step: i64 },
    /// Adds a session under the hash of its id.
    InsertSession {
        id: Vec<u8>,
        user_id: String,
        csrf_token: String,
        expires: i64,
        sudo_until: Option<i64>,
    },
    /// Adds a remember token under the hash of its id, with the hash of its
    /// secret.
    InsertRememberToken { id: Vec<u8>, user_id: String, secret: Vec<u8> },
    DeleteSession { id: Vec<u8> },
    DeleteRememberToken { id: Vec<u8> },
    /// Deletes every session of a user.
    DeleteUserSessions { user_id: String },
    /// Deletes every remember token of a user.
    DeleteUserRememberTokens { user_id: String },
    SetPasswordChangeReason { user_id: String, reason: PasswordChangeReason },
    /// Replaces the secret hash of a remember token.
    SetRememberTokenSecret { id: Vec<u8>, secret: Vec<u8> },
}

/// What a [`DbOp`] says.
pub ghost enum DbOpView {
    SetLastTotpTimeStep { user_id: Seq<char>, time_step: i64 },
    InsertSession {
        id: Seq<u8>,
        user_id: Seq<char>,
        csrf_token: Seq<char>,
        expires: i64,
        sudo_until: Option<i64>,
    },
    InsertRememberToken { id: Seq<u8>, user_id: Seq<char>, secret: Seq<u8> },
    DeleteSession { id: Seq<u8> },
    DeleteRememberToken { id: Seq<u8> },
    DeleteUserSessions { user_id: Seq<char> },
    DeleteUserRememberTokens { user_id: Seq<char> },
    SetPasswordChangeReason { user_id: Seq<char>, reason: PasswordChangeReason },
    SetRememberTokenSecret { id: Seq<u8>, secret: Seq<u8> },
}

impl View for DbOp {
    type V = DbOpView;

    open spec fn view(&self) -> DbOpView {
        match self {
            DbOp::SetLastTotpTimeStep { user_id, time_step } => DbOpView::SetLastTotpTimeStep {
                user_id: user_id@,
                time_step: *time_step,
            },
            DbOp::InsertSession {
                id,
                user_id,
                csrf_token,
                expires,
                sudo_until,
            } => DbOpView::InsertSession {
                id: id@,
                user_id: user_id@,
                csrf_token: csrf_token@,
                expires: *expires,
                sudo_until: *sudo_until,
            },
            DbOp::InsertRememberToken { id, user_id, secret } => DbOpView::InsertRememberToken {
                id: id@,
                user_id: user_id@,
                secret: secret@,
            },
            DbOp::DeleteSession { id } => DbOpView::DeleteSession { id: id@ },
            DbOp::DeleteRememberToken { id } => DbOpView::DeleteRememberToken { id: id@ },
            DbOp::DeleteUserSessions { user_id } => DbOpView::DeleteUserSessions {
                user_id: user_id@,
            },
            DbOp::DeleteUserRememberTokens { user_id } => DbOpView::DeleteUserRememberTokens {
                user_id: user_id@,
            },
            DbOp::SetPasswordChangeReason { user_id, reason } => DbOpView::SetPasswordChangeReason {
                user_id: user_id@,
                reason: *reason,
            },
            DbOp::SetRememberTokenSecret { id, secret } => DbOpView::SetRememberTokenSecret {
                id: id@,
                secret: secret@,
            },
        }
    }
}

/// How many rows a statement is allowed to change. Any other count shows that
/// the store is not in the state the server takes it to be in.
#[derive(Clone, Copy, Debug, PartialEq, Eq, Structural)]
pub enum RowCount {
    Any,
    ExactlyOne,
    AtMostOne,
    AtLeastOne,
}

impl RowCount {
    /// Whether a statement that changed `rows` rows did what was expected.
    pub open spec fn admits(&self, rows: nat) -> bool {
        match self {
            RowCount::Any => true,
            RowCount::ExactlyOne => rows == 1,
            RowCount::AtMostOne => rows <= 1,
            RowCount::AtLeastOne => rows >= 1,
        }
    }

    /// Holds the number of rows that a statement changed against what was
    /// expected of it. A count that is not admitted is an internal error, on
    /// which the transaction is to be abandoned.
    pub fn check(&self, rows: u64) -> (checked: Result<(), InternalError>)
        ensures
            checked is Ok <==> self.admits(rows as nat),
    {
        let admitted = match self {
            RowCount::Any => true,
            RowCount::ExactlyOne => rows == 1,
            RowCount::AtMostOne => rows <= 1,
            RowCount::AtLeastOne => rows >= 1,
        };
        if admitted {
            Ok(())
        } else {
            Err(InternalError)
        }
    }
}

/// A statement together with the number of rows it is expected to change.
pub struct DbWrite {
    pub op: DbOp,
    pub expect: RowCount,
}

impl View for DbWrite {
    type V = (DbOpView, RowCount);

    open spec fn view(&self) -> (DbOpView, RowCount) {
        (self.op@, self.expect)
    }
}

/// What each statement of a list says.
pub open spec fn write_views(writes: Seq<DbWrite>) -> Seq<(DbOpView, RowCount)> {
    writes.map_values(|w: DbWrite| w@)
}

/// A name between single quotes.
pub open spec fn quoted(name: Seq<char>) -> Seq<char> {
    "'"@ + name + "'"@
}

/// The values of an enumerated type as the store's data definition language
/// lists them: each between single quotes, with a comma and a space between
/// one and the next.
pub fn enum_variants(variants: Vec<String>) -> (list: String)
    ensures
        list@ == joined(variants.deep_view().map_values(|name: Seq<char>| quoted(name)), ", "@),
{
    let mut names: Vec<String> = Vec::new();
    let mut i: usize = 0;
    while i < variants.len()
        invariant
            i <= variants.len(),
            names@.len() == i,
            forall|j: int| 0 <= j < i ==> (#[trigger] names@[j])@ == quoted(variants@[j]@),
        decreases variants.len() - i,
    {
        let mut name = "'".to_owned();
        name.append(variants[i].as_str());
        name.append("'");
        names.push(name);
        i = i + 1;
    }
    assert(names.deep_view() =~= variants.deep_view().map_values(|name: Seq<char>| quoted(name)));
    join(&names, ", ")
}

/// An identifier made safe to stand between double quotes in a statement:
/// each double quote in it is doubled. An identifier cannot hold a null
/// character.
pub fn sanitize_db_identifier(value: &str) -> (safe: String)
    requires
        !value@.contains('\0'),
    ensures
        safe@ == replaced(value@, '"', "\"\""@),
{
    replace_char(value, '"', "\"\"")
}

} // verus!
