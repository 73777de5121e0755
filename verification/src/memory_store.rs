//! A relational store held in memory. It runs the statements of the protocols
//! as [`StoreView`] says, and answers their lookups.

use vstd::prelude::*;
use crate::db::{write_views, DbOp, DbOpView, DbWrite, RowCount, UserRow};
use crate::error::InternalError;
use crate::middleware::AuthRow;
use crate::store::{
    changed, count, except, first, lemma_first_at, session_is, session_of, token_is, token_of,
    user_is, without,
    RememberTokenView, SessionView, StoreView, UserView,
};
use crate::trusted::{lowercase, lowercased};
use crate::util::{
    bytes_eq, clone_option_text, text_eq, RememberTokenUserRow, RestoreSessionUser, SessionRow,
    SessionUserRow,
};

verus! {

fn clone_bytes(bytes: &Vec<u8>) -> (copy: Vec<u8>)
    ensures
        copy@ == bytes@,
{
    bytes.clone()
}

impl View for UserRow {
    type V = UserView;

    open spec fn view(&self) -> UserView {
        UserView {
            id: self.id@,
            active: self.active,
            username: self.username@,
            password: self.password@,
            totp_key: self.totp_key.deep_view(),
            last_totp_time_step: self.last_totp_time_step,
            password_change_reason: self.password_change_reason,
            icon: self.icon.deep_view(),
            language: self.language,
        }
    }
}

impl Clone for UserRow {
    fn clone(&self) -> (copy: UserRow)
        ensures
            copy@ == self@,
    {
        UserRow {
            id: self.id.clone(),
            active: self.active,
            username: self.username.clone(),
            password: clone_bytes(&self.password),
            totp_key: match &self.totp_key {
                Some(key) => Some(clone_bytes(key)),
                None => None,
            },
            last_totp_time_step: self.last_totp_time_step,
            password_change_reason: self.password_change_reason,
            icon: clone_option_text(&self.icon),
            language: self.language,
        }
    }
}

/// A stored session.
pub struct SessionRecord {
    /// Hash of the session's id.
    pub id: Vec<u8>,
    pub user_id: String,
    pub csrf_token: String,
    pub expires: i64,
    pub sudo_until: Option<i64>,
}

impl View for SessionRecord {
    type V = SessionView;

    open spec fn view(&self) -> SessionView {
        SessionView {
            id: self.id@,
            user_id: self.user_id@,
            csrf_token: self.csrf_token@,
            expires: self.expires,
            sudo_until: self.sudo_until,
        }
    }
}

impl Clone for SessionRecord {
    fn clone(&self) -> (copy: SessionRecord)
        ensures
            copy@ == self@,
    {
        SessionRecord {
            id: clone_bytes(&self.id),
            user_id: self.user_id.clone(),
            csrf_token: self.csrf_token.clone(),
            expires: self.expires,
            sudo_until: self.sudo_until,
        }
    }
}

/// A stored remember token.
pub struct RememberTokenRecord {
    /// Hash of the token's id.
    pub id: Vec<u8>,
    pub user_id: String,
    /// Hash of the token's secret.
    pub secret: Vec<u8>,
}

impl View for RememberTokenRecord {
    type V = RememberTokenView;

    open spec fn view(&self) -> RememberTokenView {
        RememberTokenView { id: self.id@, user_id: self.user_id@, secret: self.secret@ }
    }
}

impl Clone for RememberTokenRecord {
    fn clone(&self) -> (copy: RememberTokenRecord)
        ensures
            copy@ == self@,
    {
        RememberTokenRecord {
            id: clone_bytes(&self.id),
            user_id: self.user_id.clone(),
            secret: clone_bytes(&self.secret),
        }
    }
}

/// What each row of a table of users says.
pub open spec fn user_views(rows: Seq<UserRow>) -> Seq<UserView> {
    rows.map_values(|r: UserRow| r@)
}

/// What each row of a table of sessions says.
pub open spec fn session_views(rows: Seq<SessionRecord>) -> Seq<SessionView> {
    rows.map_values(|r: SessionRecord| r@)
}

/// What each row of a table of remember tokens says.
pub open spec fn token_views(rows: Seq<RememberTokenRecord>) -> Seq<RememberTokenView> {
    rows.map_values(|r: RememberTokenRecord| r@)
}

/// How a statement picks rows: by their key, or by the user they belong to.
pub enum Selector<'a> {
    Key(&'a [u8]),
    User(&'a str),
}

impl<'a> Selector<'a> {
    /// The sessions that are picked.
    pub open spec fn sessions(self) -> spec_fn(SessionView) -> bool {
        match self {
            Selector::Key(id) => session_is(id@),
            Selector::User(user_id) => session_of(user_id@),
        }
    }

    /// The remember tokens that are picked.
    pub open spec fn tokens(self) -> spec_fn(RememberTokenView) -> bool {
        match self {
            Selector::Key(id) => token_is(id@),
            Selector::User(user_id) => token_of(user_id@),
        }
    }

    fn picks_session(&self, row: &SessionRecord) -> (picked: bool)
        ensures
            picked == (self.sessions())(row@),
    {
        match self {
            Selector::Key(id) => bytes_eq(row.id.as_slice(), id),
            Selector::User(user_id) => text_eq(row.user_id.as_str(), user_id),
        }
    }

    fn picks_token(&self, row: &RememberTokenRecord) -> (picked: bool)
        ensures
            picked == (self.tokens())(row@),
    {
        match self {
            Selector::Key(id) => bytes_eq(row.id.as_slice(), id),
            Selector::User(user_id) => text_eq(row.user_id.as_str(), user_id),
        }
    }
}

/// The rows of a table of sessions without the picked ones, and the number
/// of rows that were picked.
fn delete_sessions(rows: &Vec<SessionRecord>, selector: &Selector) -> (out: (Vec<SessionRecord>, u64))
    ensures
        session_views(out.0@) == without(session_views(rows@), selector.sessions()),
        out.1 == count(session_views(rows@), selector.sessions()),
{
    let ghost all = session_views(rows@);
    let ghost picked = selector.sessions();
    let mut kept: Vec<SessionRecord> = Vec::new();
    let mut removed: usize = 0;
    let mut i: usize = 0;
    proof {
        reveal(Seq::filter);
        assert(all.take(0) =~= Seq::empty());
        assert(session_views(kept@) =~= Seq::empty());
    }
    while i < rows.len()
        invariant
            i <= rows.len(),
            all == session_views(rows@),
            picked == selector.sessions(),
            removed <= i,
            session_views(kept@) == without(all.take(i as int), picked),
            removed == count(all.take(i as int), picked),
        decreases rows.len() - i,
    {
        proof {
            assert(all.take(i + 1) =~= all.take(i as int).push(all[i as int]));
            all.take(i as int).lemma_filter_push(all[i as int], picked);
            all.take(i as int).lemma_filter_push(all[i as int], except(picked));
        }
        let ghost before = kept@;
        if selector.picks_session(&rows[i]) {
            removed = removed + 1;
        } else {
            kept.push(rows[i].clone());
            assert(session_views(kept@) =~= session_views(before).push(all[i as int]));
        }
        i = i + 1;
    }
    assert(all.take(rows.len() as int) =~= all);
    (kept, removed as u64)
}

/// The rows of a table of remember tokens without the picked ones, and the number
/// of rows that were picked.
fn delete_tokens(rows: &Vec<RememberTokenRecord>, selector: &Selector) -> (out: (Vec<RememberTokenRecord>, u64))
    ensures
        token_views(out.0@) == without(token_views(rows@), selector.tokens()),
        out.1 == count(token_views(rows@), selector.tokens()),
{
    let ghost all = token_views(rows@);
    let ghost picked = selector.tokens();
    let mut kept: Vec<RememberTokenRecord> = Vec::new();
    let mut removed: usize = 0;
    let mut i: usize = 0;
    proof {
        reveal(Seq::filter);
        assert(all.take(0) =~= Seq::empty());
        assert(token_views(kept@) =~= Seq::empty());
    }
    while i < rows.len()
        invariant
            i <= rows.len(),
            all == token_views(rows@),
            picked == selector.tokens(),
            removed <= i,
            token_views(kept@) == without(all.take(i as int), picked),
            removed == count(all.take(i as int), picked),
        decreases rows.len() - i,
    {
        proof {
            assert(all.take(i + 1) =~= all.take(i as int).push(all[i as int]));
            all.take(i as int).lemma_filter_push(all[i as int], picked);
            all.take(i as int).lemma_filter_push(all[i as int], except(picked));
        }
        let ghost before = kept@;
        if selector.picks_token(&rows[i]) {
            removed = removed + 1;
        } else {
            kept.push(rows[i].clone());
            assert(token_views(kept@) =~= token_views(before).push(all[i as int]));
        }
        i = i + 1;
    }
    assert(all.take(rows.len() as int) =~= all);
    (kept, removed as u64)
}

/// The rows of a table of remember tokens with the secret of the picked ones
/// replaced, and the number of rows that were picked.
fn update_tokens(rows: &Vec<RememberTokenRecord>, id: &[u8], secret: &Vec<u8>) -> (out: (
    Vec<RememberTokenRecord>,
    u64,
))
    ensures
        token_views(out.0@) == changed(
            token_views(rows@),
            token_is(id@),
            |t: RememberTokenView| RememberTokenView { secret: secret@, ..t },
        ),
        out.1 == count(token_views(rows@), token_is(id@)),
{
    let ghost all = token_views(rows@);
    let ghost picked = token_is(id@);
    let ghost change = |t: RememberTokenView| RememberTokenView { secret: secret@, ..t };
    let mut updated: Vec<RememberTokenRecord> = Vec::new();
    let mut hits: usize = 0;
    let mut i: usize = 0;
    proof {
        reveal(Seq::filter);
        assert(all.take(0) =~= Seq::empty());
    }
    while i < rows.len()
        invariant
            i <= rows.len(),
            all == token_views(rows@),
            picked == token_is(id@),
            hits <= i,
            updated@.len() == i,
            forall|j: int|
                0 <= j < i ==> (#[trigger] updated@[j])@ == if picked(all[j]) {
                    RememberTokenView { secret: secret@, ..all[j] }
                } else {
                    all[j]
                },
            hits == count(all.take(i as int), picked),
        decreases rows.len() - i,
    {
        proof {
            assert(all.take(i + 1) =~= all.take(i as int).push(all[i as int]));
            all.take(i as int).lemma_filter_push(all[i as int], picked);
        }
        let mut row = rows[i].clone();
        if bytes_eq(row.id.as_slice(), id) {
            row.secret = clone_bytes(secret);
            hits = hits + 1;
        }
        updated.push(row);
        i = i + 1;
    }
    assert(all.take(rows.len() as int) =~= all);
    assert(token_views(updated@) =~= changed(all, picked, change));
    (updated, hits as u64)
}

/// A change to the row of a user.
pub enum UserChange {
    LastTotpTimeStep(i64),
    PasswordChangeReason(crate::db::PasswordChangeReason),
}

impl UserChange {
    /// The row after the change.
    pub open spec fn of(self, user: UserView) -> UserView {
        match self {
            UserChange::LastTotpTimeStep(time_step) => UserView {
                last_totp_time_step: Some(time_step),
                ..user
            },
            UserChange::PasswordChangeReason(reason) => UserView {
                password_change_reason: Some(reason),
                ..user
            },
        }
    }
}

/// The rows of a table of users with the picked ones changed, and the number
/// of rows that were picked.
fn update_users(rows: &Vec<UserRow>, id: &str, change: &UserChange) -> (out: (Vec<UserRow>, u64))
    ensures
        out.0@.len() == rows@.len(),
        forall|j: int|
            0 <= j < rows@.len() ==> (#[trigger] out.0@[j])@ == if rows@[j]@.id == id@ {
                change.of(rows@[j]@)
            } else {
                rows@[j]@
            },
        out.1 == count(user_views(rows@), user_is(id@)),
{
    let ghost all = user_views(rows@);
    let ghost picked = user_is(id@);
    let mut updated: Vec<UserRow> = Vec::new();
    let mut hits: usize = 0;
    let mut i: usize = 0;
    proof {
        reveal(Seq::filter);
        assert(all.take(0) =~= Seq::empty());
    }
    while i < rows.len()
        invariant
            i <= rows.len(),
            all == user_views(rows@),
            picked == user_is(id@),
            hits <= i,
            updated@.len() == i,
            forall|j: int|
                0 <= j < i ==> (#[trigger] updated@[j])@ == if rows@[j]@.id == id@ {
                    change.of(rows@[j]@)
                } else {
                    rows@[j]@
                },
            hits == count(all.take(i as int), picked),
        decreases rows.len() - i,
    {
        proof {
            assert(all.take(i + 1) =~= all.take(i as int).push(all[i as int]));
            all.take(i as int).lemma_filter_push(all[i as int], picked);
        }
        let mut row = rows[i].clone();
        if text_eq(row.id.as_str(), id) {
            match change {
                UserChange::LastTotpTimeStep(time_step) => {
                    row.last_totp_time_step = Some(*time_step);
                },
                UserChange::PasswordChangeReason(reason) => {
                    row.password_change_reason = Some(*reason);
                },
            }
            hits = hits + 1;
        }
        updated.push(row);
        i = i + 1;
    }
    assert(all.take(rows.len() as int) =~= all);
    (updated, hits as u64)
}

/// A relational store held in memory.
pub struct MemoryStore {
    pub users: Vec<UserRow>,
    pub sessions: Vec<SessionRecord>,
    pub remember_tokens: Vec<RememberTokenRecord>,
}

impl View for MemoryStore {
    type V = StoreView;

    open spec fn view(&self) -> StoreView {
        StoreView {
            users: user_views(self.users@),
            sessions: session_views(self.sessions@),
            remember_tokens: token_views(self.remember_tokens@),
        }
    }
}

impl MemoryStore {
    /// The store without rows.
    pub fn new() -> (store: MemoryStore)
        ensures
            store@.users.len() == 0,
            store@.sessions.len() == 0,
            store@.remember_tokens.len() == 0,
    {
        MemoryStore { users: Vec::new(), sessions: Vec::new(), remember_tokens: Vec::new() }
    }

    /// Runs one statement, if the store accepts it and it changes a number of
    /// rows that it admits.
    fn run_one(&mut self, write: &DbWrite) -> (done: bool)
        ensures
            done == (old(self)@.accepts(write.op@) && write.expect.admits(
                old(self)@.rows_changed(write.op@),
            )),
            done ==> final(self)@ == old(self)@.apply(write.op@),
    {
        let ghost before = self@;
        match &write.op {
            DbOp::SetLastTotpTimeStep { user_id, time_step } => {
                let (users, rows) = update_users(
                    &self.users,
                    user_id.as_str(),
                    &UserChange::LastTotpTimeStep(*time_step),
                );
                if write.expect.check(rows).is_err() {
                    return false;
                }
                self.users = users;
                assert(self@.users =~= before.apply(write.op@).users);
                true
            },
            DbOp::SetPasswordChangeReason { user_id, reason } => {
                let (users, rows) = update_users(
                    &self.users,
                    user_id.as_str(),
                    &UserChange::PasswordChangeReason(*reason),
                );
                if write.expect.check(rows).is_err() {
                    return false;
                }
                self.users = users;
                assert(self@.users =~= before.apply(write.op@).users);
                true
            },
            DbOp::InsertSession { id, user_id, csrf_token, expires, sudo_until } => {
                if self.has_session(id.as_slice()) || !self.has_user(user_id.as_str())
                    || write.expect.check(1).is_err() {
                    return false;
                }
                let ghost rows = self.sessions@;
                let row = SessionRecord {
                    id: clone_bytes(id),
                    user_id: user_id.clone(),
                    csrf_token: csrf_token.clone(),
                    expires: *expires,
                    sudo_until: *sudo_until,
                };
                self.sessions.push(row);
                assert(session_views(self.sessions@) =~= session_views(rows).push(row@));
                true
            },
            DbOp::InsertRememberToken { id, user_id, secret } => {
                if self.has_token(id.as_slice()) || !self.has_user(user_id.as_str())
                    || write.expect.check(1).is_err() {
                    return false;
                }
                let ghost rows = self.remember_tokens@;
                let row = RememberTokenRecord {
                    id: clone_bytes(id),
                    user_id: user_id.clone(),
                    secret: clone_bytes(secret),
                };
                self.remember_tokens.push(row);
                assert(token_views(self.remember_tokens@) =~= token_views(rows).push(row@));
                true
            },
            DbOp::DeleteSession { id } => {
                let (sessions, rows) = delete_sessions(
                    &self.sessions,
                    &Selector::Key(id.as_slice()),
                );
                if write.expect.check(rows).is_err() {
                    return false;
                }
                self.sessions = sessions;
                true
            },
            DbOp::DeleteRememberToken { id } => {
                let (tokens, rows) = delete_tokens(
                    &self.remember_tokens,
                    &Selector::Key(id.as_slice()),
                );
                if write.expect.check(rows).is_err() {
                    return false;
                }
                self.remember_tokens = tokens;
                true
            },
            DbOp::DeleteUserSessions { user_id } => {
                let (sessions, rows) = delete_sessions(
                    &self.sessions,
                    &Selector::User(user_id.as_str()),
                );
                if write.expect.check(rows).is_err() {
                    return false;
                }
                self.sessions = sessions;
                true
            },
            DbOp::DeleteUserRememberTokens { user_id } => {
                let (tokens, rows) = delete_tokens(
                    &self.remember_tokens,
                    &Selector::User(user_id.as_str()),
                );
                if write.expect.check(rows).is_err() {
                    return false;
                }
                self.remember_tokens = tokens;
                true
            },
            DbOp::SetRememberTokenSecret { id, secret } => {
                let (tokens, rows) = update_tokens(&self.remember_tokens, id.as_slice(), secret);
                if write.expect.check(rows).is_err() {
                    return false;
                }
                self.remember_tokens = tokens;
                true
            },
        }
    }

    /// A copy of the store.
    fn snapshot(&self) -> (copy: MemoryStore)
        ensures
            copy@ == self@,
    {
        let mut sessions: Vec<SessionRecord> = Vec::new();
        let mut i: usize = 0;
        while i < self.sessions.len()
            invariant
                i <= self.sessions.len(),
                sessions@.len() == i,
                forall|j: int| 0 <= j < i ==> (#[trigger] sessions@[j])@ == self.sessions@[j]@,
            decreases self.sessions.len() - i,
        {
            sessions.push(self.sessions[i].clone());
            i = i + 1;
        }
        let mut remember_tokens: Vec<RememberTokenRecord> = Vec::new();
        let mut k: usize = 0;
        while k < self.remember_tokens.len()
            invariant
                k <= self.remember_tokens.len(),
                remember_tokens@.len() == k,
                forall|j: int|
                    0 <= j < k ==> (#[trigger] remember_tokens@[j])@
                        == self.remember_tokens@[j]@,
            decreases self.remember_tokens.len() - k,
        {
            remember_tokens.push(self.remember_tokens[k].clone());
            k = k + 1;
        }
        let mut plain: Vec<UserRow> = Vec::new();
        let mut u: usize = 0;
        while u < self.users.len()
            invariant
                u <= self.users.len(),
                plain@.len() == u,
                forall|j: int| 0 <= j < u ==> (#[trigger] plain@[j])@ == self.users@[j]@,
            decreases self.users.len() - u,
        {
            plain.push(self.users[u].clone());
            u = u + 1;
        }
        let copy = MemoryStore { users: plain, sessions, remember_tokens };
        assert(copy@.users =~= self@.users);
        assert(copy@.sessions =~= self@.sessions);
        assert(copy@.remember_tokens =~= self@.remember_tokens);
        copy
    }

    /// Runs the statements in one transaction. If one of them cannot be run,
    /// or changes a number of rows that it does not admit, the store is left
    /// as it was and the transaction fails.
    pub fn transact(&mut self, writes: &Vec<DbWrite>) -> (done: Result<(), InternalError>)
        ensures
            match old(self)@.run(write_views(writes@)) {
                Some(after) => done is Ok && final(self)@ == after,
                None => done is Err && final(self)@ == old(self)@,
            },
    {
        let mut next = self.snapshot();
        let ghost all = write_views(writes@);
        let mut i: usize = 0;
        assert(all.skip(0) =~= all);
        while i < writes.len()
            invariant
                i <= writes.len(),
                all == write_views(writes@),
                self@.run(all) == next@.run(all.skip(i as int)),
            decreases writes.len() - i,
        {
            let ghost rest = all.skip(i as int);
            assert(rest.len() > 0 && rest[0] == writes@[i as int]@);
            assert(rest.drop_first() =~= all.skip(i + 1));
            if !next.run_one(&writes[i]) {
                return Err(InternalError);
            }
            i = i + 1;
        }
        assert(all.skip(writes.len() as int).len() == 0);
        *self = next;
        Ok(())
    }

    /// Whether a session is stored under `id`.
    fn has_session(&self, id: &[u8]) -> (there: bool)
        ensures
            there == (count(self@.sessions, session_is(id@)) > 0),
    {
        self.find_session(id).is_some()
    }

    /// Whether a remember token is stored under `id`.
    fn has_token(&self, id: &[u8]) -> (there: bool)
        ensures
            there == (count(self@.remember_tokens, token_is(id@)) > 0),
    {
        self.find_token(id).is_some()
    }

    /// Whether there is a user with the given id.
    fn has_user(&self, id: &str) -> (there: bool)
        ensures
            there == (count(self@.users, user_is(id@)) > 0),
    {
        self.find_user(id).is_some()
    }

    /// The session stored under `id`, as [`crate::util::get_session`] reads it.
    pub fn session(&self, id: &[u8]) -> (row: Option<SessionRow>)
        ensures
            row is Some <==> self@.session(id@) is Some,
            row matches Some(r) ==> r.csrf_token@ == self@.session(id@)->0.csrf_token && r.expires
                == self@.session(id@)->0.expires,
    {
        match self.find_session(id) {
            Some(i) => Some(
                SessionRow {
                    csrf_token: self.sessions[i].csrf_token.clone(),
                    expires: self.sessions[i].expires,
                },
            ),
            None => None,
        }
    }

    /// The place of the first session stored under `id`.
    fn find_session(&self, id: &[u8]) -> (at: Option<usize>)
        ensures
            at is Some <==> first(self@.sessions, session_is(id@)) is Some,
            at matches Some(i) ==> i < self.sessions@.len() && first(self@.sessions, session_is(id@)) == Some(
                self.sessions@[i as int]@,
            ),
    {
        let ghost all = self@.sessions;
        let ghost picked = session_is(id@);
        let mut i: usize = 0;
        proof {
            reveal(Seq::filter);
            assert(all.take(0) =~= Seq::empty());
        }
        while i < self.sessions.len()
            invariant
                i <= self.sessions.len(),
                all == session_views(self.sessions@),
                picked == session_is(id@),
                count(all.take(i as int), picked) == 0,
            decreases self.sessions.len() - i,
        {
            proof {
                assert(all.take(i + 1) =~= all.take(i as int).push(all[i as int]));
                all.take(i as int).lemma_filter_push(all[i as int], picked);
            }
            if bytes_eq(self.sessions[i].id.as_slice(), id) {
                proof {
                    lemma_first_at(all, picked, i as int);
                }
                return Some(i);
            }
            i = i + 1;
        }
        assert(all.take(self.sessions.len() as int) =~= all);
        None
    }

    /// The place of the first remember token stored under `id`.
    fn find_token(&self, id: &[u8]) -> (at: Option<usize>)
        ensures
            at is Some <==> first(self@.remember_tokens, token_is(id@)) is Some,
            at matches Some(i) ==> i < self.remember_tokens@.len() && first(self@.remember_tokens, token_is(id@)) == Some(
                self.remember_tokens@[i as int]@,
            ),
    {
        let ghost all = self@.remember_tokens;
        let ghost picked = token_is(id@);
        let mut i: usize = 0;
        proof {
            reveal(Seq::filter);
            assert(all.take(0) =~= Seq::empty());
        }
        while i < self.remember_tokens.len()
            invariant
                i <= self.remember_tokens.len(),
                all == token_views(self.remember_tokens@),
                picked == token_is(id@),
                count(all.take(i as int), picked) == 0,
            decreases self.remember_tokens.len() - i,
        {
            proof {
                assert(all.take(i + 1) =~= all.take(i as int).push(all[i as int]));
                all.take(i as int).lemma_filter_push(all[i as int], picked);
            }
            if bytes_eq(self.remember_tokens[i].id.as_slice(), id) {
                proof {
                    lemma_first_at(all, picked, i as int);
                }
                return Some(i);
            }
            i = i + 1;
        }
        assert(all.take(self.remember_tokens.len() as int) =~= all);
        None
    }

    /// The place of the first user with the given id.
    fn find_user(&self, id: &str) -> (at: Option<usize>)
        ensures
            at is Some <==> first(self@.users, user_is(id@)) is Some,
            at matches Some(i) ==> i < self.users@.len() && first(self@.users, user_is(id@))
                == Some(self.users@[i as int]@),
    {
        let ghost all = self@.users;
        let ghost picked = user_is(id@);
        let mut i: usize = 0;
        proof {
            reveal(Seq::filter);
            assert(all.take(0) =~= Seq::empty());
        }
        while i < self.users.len()
            invariant
                i <= self.users.len(),
                all == user_views(self.users@),
                picked == user_is(id@),
                count(all.take(i as int), picked) == 0,
            decreases self.users.len() - i,
        {
            proof {
                assert(all.take(i + 1) =~= all.take(i as int).push(all[i as int]));
                all.take(i as int).lemma_filter_push(all[i as int], picked);
            }
            if text_eq(self.users[i].id.as_str(), id) {
                proof {
                    lemma_first_at(all, picked, i as int);
                }
                return Some(i);
            }
            i = i + 1;
        }
        assert(all.take(self.users.len() as int) =~= all);
        None
    }

    /// The user as a restore reports it.
    fn restored_user(user: &UserRow) -> (out: RestoreSessionUser)
        ensures
            describes_user(out, user@),
    {
        RestoreSessionUser {
            id: user.id.clone(),
            active: user.active,
            username: user.username.clone(),
            password_hash: clone_bytes(&user.password),
            totp_enabled: user.totp_key.is_some(),
            password_change_reason: user.password_change_reason,
            icon: clone_option_text(&user.icon),
            language: user.language,
        }
    }

    /// The session stored under `id`, joined with its user.
    pub fn session_user(&self, id: &[u8]) -> (row: Option<SessionUserRow>)
        ensures
            match self@.session_user(id@) {
                Some((session, user)) => row matches Some(r) && r.csrf_token@
                    == session.csrf_token && r.expires == session.expires && r.sudo_until
                    == session.sudo_until && describes_user(r.user, user),
                None => row is None,
            },
    {
        let i = match self.find_session(id) {
            Some(i) => i,
            None => {
                return None;
            },
        };
        let j = match self.find_user(self.sessions[i].user_id.as_str()) {
            Some(j) => j,
            None => {
                return None;
            },
        };
        Some(
            SessionUserRow {
                csrf_token: self.sessions[i].csrf_token.clone(),
                expires: self.sessions[i].expires,
                sudo_until: self.sessions[i].sudo_until,
                user: Self::restored_user(&self.users[j]),
            },
        )
    }

    /// The remember token stored under `id`, joined with its user.
    pub fn remember_token_user(&self, id: &[u8]) -> (row: Option<RememberTokenUserRow>)
        ensures
            match self@.remember_token_user(id@) {
                Some((token, user)) => row matches Some(r) && r.secret@ == token.secret
                    && describes_user(r.user, user),
                None => row is None,
            },
    {
        let i = match self.find_token(id) {
            Some(i) => i,
            None => {
                return None;
            },
        };
        let j = match self.find_user(self.remember_tokens[i].user_id.as_str()) {
            Some(j) => j,
            None => {
                return None;
            },
        };
        Some(
            RememberTokenUserRow {
                secret: clone_bytes(&self.remember_tokens[i].secret),
                user: Self::restored_user(&self.users[j]),
            },
        )
    }

    /// The first user whose name is `username`, case aside.
    pub fn user_by_name(&self, username: &str) -> (row: Option<UserRow>)
        ensures
            row matches Some(r) ==> exists|i: int|
                0 <= i < self@.users.len() && r@ == #[trigger] self@.users[i] && lowercased(
                    self@.users[i].username,
                ) == lowercased(username@) && forall|j: int|
                    0 <= j < i ==> lowercased((#[trigger] self@.users[j]).username) != lowercased(
                        username@,
                    ),
            row is None ==> forall|i: int|
                0 <= i < self@.users.len() ==> lowercased((#[trigger] self@.users[i]).username)
                    != lowercased(username@),
    {
        let wanted = lowercase(username);
        let mut i: usize = 0;
        while i < self.users.len()
            invariant
                i <= self.users.len(),
                wanted@ == lowercased(username@),
                forall|j: int|
                    0 <= j < i ==> lowercased((#[trigger] self@.users[j]).username) != lowercased(
                        username@,
                    ),
            decreases self.users.len() - i,
        {
            let name = lowercase(self.users[i].username.as_str());
            assert(self@.users[i as int] == self.users@[i as int]@);
            if text_eq(name.as_str(), wanted.as_str()) {
                return Some(self.users[i].clone());
            }
            i = i + 1;
        }
        None
    }

    /// The user of the session stored under `session_id_hash`, joined with
    /// the session, as the check of a request reads it. Every column is
    /// filled in but that of the password, which is left empty.
    pub fn auth_row(&self, session_id_hash: &[u8]) -> (row: Option<AuthRow>)
        ensures
            match self@.session_user(session_id_hash@) {
                Some((session, user)) => row matches Some(r) && describes_auth_row(
                    r,
                    session,
                    user,
                ),
                None => row is None,
            },
    {
        let i = match self.find_session(session_id_hash) {
            Some(i) => i,
            None => {
                return None;
            },
        };
        let j = match self.find_user(self.sessions[i].user_id.as_str()) {
            Some(j) => j,
            None => {
                return None;
            },
        };
        let user = &self.users[j];
        Some(
            AuthRow {
                id: user.id.clone(),
                active: user.active,
                expires: self.sessions[i].expires,
                username: user.username.clone(),
                password: String::new(),
                totp_enabled: user.totp_key.is_some(),
                password_change_reason: user.password_change_reason,
                icon: clone_option_text(&user.icon),
                language: user.language,
                sudo_until: self.sessions[i].sudo_until,
            },
        )
    }
}

/// `out` reports the user `user`.
pub open spec fn describes_user(out: RestoreSessionUser, user: UserView) -> bool {
    &&& out.id@ == user.id
    &&& out.active == user.active
    &&& out.username@ == user.username
    &&& out.password_hash@ == user.password
    &&& out.totp_enabled == (user.totp_key is Some)
    &&& out.password_change_reason == user.password_change_reason
    &&& out.icon.deep_view() == user.icon
    &&& out.language == user.language
}

/// `row` joins the user `user` with the session `session`.
pub open spec fn describes_auth_row(row: AuthRow, session: SessionView, user: UserView) -> bool {
    &&& row.id@ == user.id
    &&& row.active == user.active
    &&& row.expires == session.expires
    &&& row.username@ == user.username
    &&& row.password@.len() == 0
    &&& row.totp_enabled == (user.totp_key is Some)
    &&& row.password_change_reason == user.password_change_reason
    &&& row.icon.deep_view() == user.icon
    &&& row.language == user.language
    &&& row.sudo_until == session.sudo_until
}

} // verus!
