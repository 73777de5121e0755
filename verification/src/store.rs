//! The relational store as the protocols see it: three tables, the statements
//! that change them, and what a transaction of such statements leaves behind.

use vstd::prelude::*;
use crate::config::Config;
use crate::db::{DbOpView, Language, PasswordChangeReason, RowCount};
use crate::trusted::split_first;
use crate::routes::auth::login_writes;
use crate::util::{
    hashed, renewal_writes, restore_verdict, revocation_writes, FreshTokens,
    RememberTokenUserRow, RestoreVerdict,
};

verus! {

/// A row of the table of users.
pub ghost struct UserView {
    pub id: Seq<char>,
    pub active: bool,
    pub username: Seq<char>,
    pub password: Seq<u8>,
    pub totp_key: Option<Seq<u8>>,
    pub last_totp_time_step: Option<i64>,
    pub password_change_reason: Option<PasswordChangeReason>,
    pub icon: Option<Seq<char>>,
    pub language: Language,
}

/// A row of the table of sessions. Its key is the hash of the session's id.
pub ghost struct SessionView {
    pub id: Seq<u8>,
    pub user_id: Seq<char>,
    pub csrf_token: Seq<char>,
    pub expires: i64,
    pub sudo_until: Option<i64>,
}

/// A row of the table of remember tokens. Its key is the hash of the token's
/// id, and it holds the hash of the token's secret.
pub ghost struct RememberTokenView {
    pub id: Seq<u8>,
    pub user_id: Seq<char>,
    pub secret: Seq<u8>,
}

/// The rows of the three tables.
pub ghost struct StoreView {
    pub users: Seq<UserView>,
    pub sessions: Seq<SessionView>,
    pub remember_tokens: Seq<RememberTokenView>,
}

/// The user has the given id.
pub open spec fn user_is(id: Seq<char>) -> spec_fn(UserView) -> bool {
    |u: UserView| u.id == id
}

/// The session is stored under the given key.
pub open spec fn session_is(id: Seq<u8>) -> spec_fn(SessionView) -> bool {
    |s: SessionView| s.id == id
}

/// The session is one of the given user.
pub open spec fn session_of(user_id: Seq<char>) -> spec_fn(SessionView) -> bool {
    |s: SessionView| s.user_id == user_id
}

/// The remember token is stored under the given key.
pub open spec fn token_is(id: Seq<u8>) -> spec_fn(RememberTokenView) -> bool {
    |t: RememberTokenView| t.id == id
}

/// The remember token is one of the given user.
pub open spec fn token_of(user_id: Seq<char>) -> spec_fn(RememberTokenView) -> bool {
    |t: RememberTokenView| t.user_id == user_id
}

/// The rows that `selected` does not select.
pub open spec fn except<A>(selected: spec_fn(A) -> bool) -> spec_fn(A) -> bool {
    |row: A| !selected(row)
}

/// The rows of a table after a statement that deletes the selected ones.
pub open spec fn without<A>(rows: Seq<A>, selected: spec_fn(A) -> bool) -> Seq<A> {
    rows.filter(except(selected))
}

/// The number of rows that `selected` selects.
pub open spec fn count<A>(rows: Seq<A>, selected: spec_fn(A) -> bool) -> nat {
    rows.filter(selected).len()
}

/// The rows of a table after a statement that changes the selected ones.
pub open spec fn changed<A>(rows: Seq<A>, selected: spec_fn(A) -> bool, change: spec_fn(A) -> A) -> Seq<
    A,
> {
    rows.map_values(
        |row: A|
            if selected(row) {
                change(row)
            } else {
                row
            },
    )
}

impl StoreView {
    /// The statement can be run: a row that it adds has a key that is not in
    /// use, and belongs to a user who is there. Every other statement can be
    /// run, whatever it finds.
    pub open spec fn accepts(self, op: DbOpView) -> bool {
        match op {
            DbOpView::InsertSession { id, user_id, .. } => count(self.sessions, session_is(id)) == 0
                && count(self.users, user_is(user_id)) > 0,
            DbOpView::InsertRememberToken { id, user_id, .. } => count(
                self.remember_tokens,
                token_is(id),
            ) == 0 && count(self.users, user_is(user_id)) > 0,
            _ => true,
        }
    }

    /// The number of rows that the statement changes.
    pub open spec fn rows_changed(self, op: DbOpView) -> nat {
        match op {
            DbOpView::SetLastTotpTimeStep { user_id, .. } => count(self.users, user_is(user_id)),
            DbOpView::SetPasswordChangeReason { user_id, .. } => count(
                self.users,
                user_is(user_id),
            ),
            DbOpView::InsertSession { .. } => 1,
            DbOpView::InsertRememberToken { .. } => 1,
            DbOpView::DeleteSession { id } => count(self.sessions, session_is(id)),
            DbOpView::DeleteRememberToken { id } => count(self.remember_tokens, token_is(id)),
            DbOpView::DeleteUserSessions { user_id } => count(self.sessions, session_of(user_id)),
            DbOpView::DeleteUserRememberTokens { user_id } => count(
                self.remember_tokens,
                token_of(user_id),
            ),
            DbOpView::SetRememberTokenSecret { id, .. } => count(
                self.remember_tokens,
                token_is(id),
            ),
        }
    }

    /// The store after the statement.
    pub open spec fn apply(self, op: DbOpView) -> StoreView {
        match op {
            DbOpView::SetLastTotpTimeStep { user_id, time_step } => StoreView {
                users: changed(
                    self.users,
                    user_is(user_id),
                    |u: UserView| UserView { last_totp_time_step: Some(time_step), ..u },
                ),
                ..self
            },
            DbOpView::SetPasswordChangeReason { user_id, reason } => StoreView {
                users: changed(
                    self.users,
                    user_is(user_id),
                    |u: UserView| UserView { password_change_reason: Some(reason), ..u },
                ),
                ..self
            },
            DbOpView::InsertSession { id, user_id, csrf_token, expires, sudo_until } => StoreView {
                sessions: self.sessions.push(
                    SessionView { id, user_id, csrf_token, expires, sudo_until },
                ),
                ..self
            },
            DbOpView::InsertRememberToken { id, user_id, secret } => StoreView {
                remember_tokens: self.remember_tokens.push(
                    RememberTokenView { id, user_id, secret },
                ),
                ..self
            },
            DbOpView::DeleteSession { id } => StoreView {
                sessions: without(self.sessions, session_is(id)),
                ..self
            },
            DbOpView::DeleteRememberToken { id } => StoreView {
                remember_tokens: without(self.remember_tokens, token_is(id)),
                ..self
            },
            DbOpView::DeleteUserSessions { user_id } => StoreView {
                sessions: without(self.sessions, session_of(user_id)),
                ..self
            },
            DbOpView::DeleteUserRememberTokens { user_id } => StoreView {
                remember_tokens: without(self.remember_tokens, token_of(user_id)),
                ..self
            },
            DbOpView::SetRememberTokenSecret { id, secret } => StoreView {
                remember_tokens: changed(
                    self.remember_tokens,
                    token_is(id),
                    |t: RememberTokenView| RememberTokenView { secret, ..t },
                ),
                ..self
            },
        }
    }

    /// The store after a transaction of the given statements: nothing, if one
    /// of them cannot be run or changes a number of rows that it does not
    /// admit. A transaction that is abandoned leaves the store as it was.
    pub open spec fn run(self, writes: Seq<(DbOpView, RowCount)>) -> Option<StoreView>
        decreases writes.len(),
    {
        if writes.len() == 0 {
            Some(self)
        } else {
            let (op, expect) = writes[0];
            if self.accepts(op) && expect.admits(self.rows_changed(op)) {
                self.apply(op).run(writes.drop_first())
            } else {
                None
            }
        }
    }

    /// The remember token stored under `id`, if there is one.
    pub open spec fn remember_token(self, id: Seq<u8>) -> Option<RememberTokenView> {
        first(self.remember_tokens, token_is(id))
    }

    /// The session stored under `id`, if there is one.
    pub open spec fn session(self, id: Seq<u8>) -> Option<SessionView> {
        first(self.sessions, session_is(id))
    }

    /// The user with the given id, if there is one.
    pub open spec fn user(self, id: Seq<char>) -> Option<UserView> {
        first(self.users, user_is(id))
    }

    /// The session stored under `id` with its user, if both are there.
    pub open spec fn session_user(self, id: Seq<u8>) -> Option<(SessionView, UserView)> {
        match self.session(id) {
            Some(session) => match self.user(session.user_id) {
                Some(user) => Some((session, user)),
                None => None,
            },
            None => None,
        }
    }

    /// The remember token stored under `id` with its user, if both are
    /// there.
    pub open spec fn remember_token_user(self, id: Seq<u8>) -> Option<
        (RememberTokenView, UserView),
    > {
        match self.remember_token(id) {
            Some(token) => match self.user(token.user_id) {
                Some(user) => Some((token, user)),
                None => None,
            },
            None => None,
        }
    }
}

/// The first of the rows that `selected` selects, if it selects any.
pub open spec fn first<A>(rows: Seq<A>, selected: spec_fn(A) -> bool) -> Option<A> {
    let found = rows.filter(selected);
    if found.len() > 0 {
        Some(found[0])
    } else {
        None
    }
}

/// The row at `at` is the first that is selected, if no row before it is.
pub proof fn lemma_first_at<A>(rows: Seq<A>, selected: spec_fn(A) -> bool, at: int)
    requires
        0 <= at < rows.len(),
        selected(rows[at]),
        count(rows.take(at), selected) == 0,
    ensures
        first(rows, selected) == Some(rows[at]),
{
    assert(rows.take(at + 1) =~= rows.take(at).push(rows[at]));
    rows.take(at).lemma_filter_push(rows[at], selected);
    assert(rows.take(at + 1) + rows.skip(at + 1) =~= rows);
    Seq::filter_distributes_over_add(rows.take(at + 1), rows.skip(at + 1), selected);
}

/// A deleted row is gone: no row that `selected` selects is left.
pub proof fn lemma_without_leaves_none<A>(rows: Seq<A>, selected: spec_fn(A) -> bool)
    ensures
        count(without(rows, selected), selected) == 0,
        forall|i: int|
            0 <= i < without(rows, selected).len() ==> !selected(
                #[trigger] without(rows, selected)[i],
            ),
{
    let kept = without(rows, selected);
    assert forall|i: int| 0 <= i < kept.len() implies !selected(#[trigger] kept[i]) by {
        rows.lemma_filter_pred(except(selected), i);
    }
    kept.lemma_all_neg_filter_empty(selected);
}

/// A theft that is found out revokes everything. Where exactly one user has
/// the given id, the statements that answer a remember token presented with
/// a wrong secret go through, and after them that user has no session and no
/// remember token left, and is marked as having to change the password.
/// Nothing of any other user changes.
pub proof fn lemma_revocation_revokes_everything(store: StoreView, user_id: Seq<char>)
    requires
        count(store.users, user_is(user_id)) == 1,
    ensures
        store.run(revocation_writes(user_id)) matches Some(after) && {
            &&& count(after.sessions, session_of(user_id)) == 0
            &&& count(after.remember_tokens, token_of(user_id)) == 0
            &&& after.sessions == without(store.sessions, session_of(user_id))
            &&& after.remember_tokens == without(store.remember_tokens, token_of(user_id))
            &&& after.users.len() == store.users.len()
            &&& forall|i: int|
                0 <= i < store.users.len() ==> #[trigger] after.users[i] == if store.users[i].id
                    == user_id {
                    UserView {
                        password_change_reason: Some(
                            PasswordChangeReason::RememberTokenCompromise,
                        ),
                        ..store.users[i]
                    }
                } else {
                    store.users[i]
                }
        },
{
    let writes = revocation_writes(user_id);
    let first = store.apply(writes[0].0);
    let second = first.apply(writes[1].0);
    let third = second.apply(writes[2].0);
    assert(writes.drop_first().drop_first().drop_first() =~= Seq::empty());
    assert(writes.drop_first()[0] == writes[1]);
    assert(writes.drop_first().drop_first()[0] == writes[2]);
    reveal_with_fuel(StoreView::run, 4);
    assert(second.users == store.users);
    assert(store.run(writes) == Some(third));
    lemma_without_leaves_none(store.sessions, session_of(user_id));
    lemma_without_leaves_none(store.remember_tokens, token_of(user_id));
}

/// A restore replaces the secret. After the statements of a restore that
/// went through, every remember token stored under the hash of the cookie's
/// id holds the hash of the new secret, and the user has the new session.
pub proof fn lemma_renewal_replaces_secret(
    store: StoreView,
    user_id: Seq<char>,
    token_id: Seq<char>,
    tokens: FreshTokens,
    now: i64,
    config: Config,
)
    requires
        count(store.users, user_is(user_id)) > 0,
        store.session(hashed(tokens.session_id@)) is None,
    ensures
        store.run(renewal_writes(user_id, token_id, tokens, now, config)) matches Some(after) && {
            &&& after.users == store.users
            &&& after.sessions.len() == store.sessions.len() + 1
            &&& after.sessions.last().id == hashed(tokens.session_id@)
            &&& after.sessions.last().user_id == user_id
            &&& after.remember_tokens.len() == store.remember_tokens.len()
            &&& forall|i: int|
                0 <= i < store.remember_tokens.len() ==> #[trigger] after.remember_tokens[i]
                    == if store.remember_tokens[i].id == hashed(token_id) {
                    RememberTokenView {
                        secret: hashed(tokens.remember_token_secret@),
                        ..store.remember_tokens[i]
                    }
                } else {
                    store.remember_tokens[i]
                }
        },
{
    let writes = renewal_writes(user_id, token_id, tokens, now, config);
    let first = store.apply(writes[0].0);
    let second = first.apply(writes[1].0);
    assert(writes.drop_first().drop_first() =~= Seq::empty());
    assert(writes.drop_first()[0] == writes[1]);
    reveal_with_fuel(StoreView::run, 3);
    assert(store.run(writes) == Some(second));
}

/// The rows that a statement changes are the changed ones of the rows that
/// it found, where the change leaves alone what rows are selected.
pub proof fn lemma_filter_of_changed<A>(
    rows: Seq<A>,
    selected: spec_fn(A) -> bool,
    change: spec_fn(A) -> A,
)
    requires
        forall|row: A| selected(row) ==> selected(#[trigger] change(row)),
    ensures
        changed(rows, selected, change).filter(selected) == rows.filter(selected).map_values(
            change,
        ),
    decreases rows.len(),
{
    reveal(Seq::filter);
    let after = changed(rows, selected, change);
    if rows.len() > 0 {
        let rest = rows.drop_last();
        lemma_filter_of_changed(rest, selected, change);
        assert(after.drop_last() =~= changed(rest, selected, change));
        assert(after.last() == if selected(rows.last()) {
            change(rows.last())
        } else {
            rows.last()
        });
        assert(after.filter(selected) =~= rows.filter(selected).map_values(change));
    } else {
        assert(after =~= rows);
        assert(after.filter(selected) =~= rows.filter(selected).map_values(change));
    }
}

/// After a restore the old cookie is of no use. Where a remember token is
/// stored under the hash of the cookie's id, the statements of a restore go
/// through and leave that token with the hash of the new secret; and a
/// restore with the old cookie, decided on the token as it is stored then,
/// revokes instead of restoring. This holds wherever the old and the new
/// secret have different hashes.
pub proof fn lemma_renewal_refuses_old_cookie(
    store: StoreView,
    user_id: Seq<char>,
    cookie: Seq<char>,
    token_id: Seq<char>,
    old_secret: Seq<char>,
    tokens: FreshTokens,
    now: i64,
    config: Config,
    row_after: RememberTokenUserRow,
)
    requires
        count(store.users, user_is(user_id)) > 0,
        store.session(hashed(tokens.session_id@)) is None,
        split_first(cookie, config.remember_token.separator@) == Some((token_id, old_secret)),
        store.remember_token(hashed(token_id)) is Some,
        hashed(old_secret) != hashed(tokens.remember_token_secret@),
    ensures
        store.run(renewal_writes(user_id, token_id, tokens, now, config)) matches Some(after) && {
            &&& after.remember_token(hashed(token_id)) == Some(
                RememberTokenView {
                    secret: hashed(tokens.remember_token_secret@),
                    ..store.remember_token(hashed(token_id))->0
                },
            )
            &&& row_after.secret@ == after.remember_token(hashed(token_id))->0.secret
                ==> restore_verdict(false, None, Some(cookie), Some(row_after), now, config)
                == RestoreVerdict::Revoked
        },
{
    lemma_renewal_replaces_secret(store, user_id, token_id, tokens, now, config);
    let secret = hashed(tokens.remember_token_secret@);
    lemma_filter_of_changed(
        store.remember_tokens,
        token_is(hashed(token_id)),
        |t: RememberTokenView| RememberTokenView { secret, ..t },
    );
    let after = store.run(renewal_writes(user_id, token_id, tokens, now, config))->0;
    assert(after.remember_tokens =~= changed(
        store.remember_tokens,
        token_is(hashed(token_id)),
        |t: RememberTokenView| RememberTokenView { secret, ..t },
    ));
}

/// The cookie of a remember token works once. Where a stored token holds the
/// hash of a new secret, the cookie with the old secret no longer restores a
/// session: it is taken for stolen, and revokes what lets the user in. This
/// holds wherever the old and the new secret have different hashes.
pub proof fn lemma_old_cookie_fails_after_renewal(
    cookie: Seq<char>,
    token_id: Seq<char>,
    old_secret: Seq<char>,
    new_secret: Seq<char>,
    row: RememberTokenUserRow,
    now: i64,
    config: Config,
)
    requires
        split_first(cookie, config.remember_token.separator@) == Some((token_id, old_secret)),
        row.secret@ == hashed(new_secret),
        hashed(old_secret) != hashed(new_secret),
    ensures
        restore_verdict(false, None, Some(cookie), Some(row), now, config)
            == RestoreVerdict::Revoked,
{
}

/// A restore with the secret that is stored goes through for an active user,
/// and one with any other secret revokes.
pub proof fn lemma_restore_depends_on_secret(
    cookie: Seq<char>,
    token_id: Seq<char>,
    secret: Seq<char>,
    row: RememberTokenUserRow,
    now: i64,
    config: Config,
)
    requires
        split_first(cookie, config.remember_token.separator@) == Some((token_id, secret)),
    ensures
        hashed(secret) != row.secret@ ==> restore_verdict(
            false,
            None,
            Some(cookie),
            Some(row),
            now,
            config,
        ) == RestoreVerdict::Revoked,
        hashed(secret) == row.secret@ && row.user.active ==> restore_verdict(
            false,
            None,
            Some(cookie),
            Some(row),
            now,
            config,
        ) == RestoreVerdict::Renewed,
{
}

/// A change that leaves alone what rows are selected by leaves their number
/// as it was.
pub proof fn lemma_change_keeps_count<A>(
    rows: Seq<A>,
    selected: spec_fn(A) -> bool,
    change: spec_fn(A) -> A,
)
    requires
        forall|row: A| selected(row) ==> selected(#[trigger] change(row)),
    ensures
        count(changed(rows, selected, change), selected) == count(rows, selected),
    decreases rows.len(),
{
    reveal(Seq::filter);
    if rows.len() > 0 {
        let rest = rows.drop_last();
        let after = changed(rows, selected, change);
        lemma_change_keeps_count(rest, selected, change);
        assert(after.drop_last() =~= changed(rest, selected, change));
        assert(after.last() == if selected(rows.last()) {
            change(rows.last())
        } else {
            rows.last()
        });
    } else {
        assert(changed(rows, selected, change) =~= rows);
    }
}

/// The row that was added to a table which held none under its key is the
/// one found under that key.
pub proof fn lemma_first_of_added<A>(rows: Seq<A>, selected: spec_fn(A) -> bool, row: A)
    requires
        count(rows, selected) == 0,
        selected(row),
    ensures
        first(rows.push(row), selected) == Some(row),
        count(rows.push(row), selected) == 1,
{
    rows.lemma_filter_push(row, selected);
    assert(rows.filter(selected) =~= Seq::empty());
}

/// A login opens a session. Where the user is there once and the keys of
/// the new session and of the new remember token are not in use, the
/// statements of a login go through. After them the new session is stored
/// under the hash of its id and ends when its lifetime is over; the remember
/// token, if one was asked for, is stored under the hash of its id with the
/// hash of its secret; and the time step of a passcode that was used up is
/// recorded for the user, and for nobody else.
pub proof fn lemma_login_opens_session(
    store: StoreView,
    user_id: Seq<char>,
    totp_step: Option<i64>,
    remember: bool,
    tokens: FreshTokens,
    now: i64,
    config: Config,
)
    requires
        count(store.users, user_is(user_id)) == 1,
        store.session(hashed(tokens.session_id@)) is None,
        remember ==> store.remember_token(hashed(tokens.remember_token_id@)) is None,
    ensures
        store.run(login_writes(user_id, totp_step, remember, tokens, now, config)) matches Some(
            after,
        ) && {
            &&& after.session(hashed(tokens.session_id@)) == Some(
                SessionView {
                    id: hashed(tokens.session_id@),
                    user_id,
                    csrf_token: tokens.csrf_token@,
                    expires: (now + config.session.lifetime) as i64,
                    sudo_until: Some((now + config.session.sudo_lifetime) as i64),
                },
            )
            &&& after.sessions == store.sessions.push(
                after.session(hashed(tokens.session_id@))->0,
            )
            &&& if remember {
                after.remember_token(hashed(tokens.remember_token_id@)) == Some(
                    RememberTokenView {
                        id: hashed(tokens.remember_token_id@),
                        user_id,
                        secret: hashed(tokens.remember_token_secret@),
                    },
                ) && after.remember_tokens == store.remember_tokens.push(
                    after.remember_token(hashed(tokens.remember_token_id@))->0,
                )
            } else {
                after.remember_tokens == store.remember_tokens
            }
            &&& after.users.len() == store.users.len()
            &&& forall|i: int|
                0 <= i < store.users.len() ==> #[trigger] after.users[i] == if totp_step is Some
                    && store.users[i].id == user_id {
                    UserView { last_totp_time_step: totp_step, ..store.users[i] }
                } else {
                    store.users[i]
                }
        },
{
    let writes = login_writes(user_id, totp_step, remember, tokens, now, config);
    let session = SessionView {
        id: hashed(tokens.session_id@),
        user_id,
        csrf_token: tokens.csrf_token@,
        expires: (now + config.session.lifetime) as i64,
        sudo_until: Some((now + config.session.sudo_lifetime) as i64),
    };
    let token = RememberTokenView {
        id: hashed(tokens.remember_token_id@),
        user_id,
        secret: hashed(tokens.remember_token_secret@),
    };
    let recorded = match totp_step {
        Some(time_step) => store.apply(DbOpView::SetLastTotpTimeStep { user_id, time_step }),
        None => store,
    };
    if let Some(time_step) = totp_step {
        lemma_change_keeps_count(
            store.users,
            user_is(user_id),
            |u: UserView| UserView { last_totp_time_step: Some(time_step), ..u },
        );
    }
    assert(count(recorded.users, user_is(user_id)) == 1);
    assert(recorded.sessions == store.sessions);
    let opened = recorded.apply(writes[writes.len() - 1 - if remember { 1int } else { 0int }].0);
    assert(opened.sessions == store.sessions.push(session));
    lemma_first_of_added(store.sessions, session_is(session.id), session);
    let ended = if remember {
        opened.apply(writes[writes.len() - 1].0)
    } else {
        opened
    };
    if remember {
        lemma_first_of_added(store.remember_tokens, token_is(token.id), token);
        assert(ended.remember_tokens == store.remember_tokens.push(token));
    }
    reveal_with_fuel(StoreView::run, 4);
    if totp_step is Some {
        assert(writes.drop_first()[0] == writes[1]);
        if remember {
            assert(writes.drop_first().drop_first()[0] == writes[2]);
            assert(writes.drop_first().drop_first().drop_first() =~= Seq::empty());
        } else {
            assert(writes.drop_first().drop_first() =~= Seq::empty());
        }
    } else {
        if remember {
            assert(writes.drop_first()[0] == writes[1]);
            assert(writes.drop_first().drop_first() =~= Seq::empty());
        } else {
            assert(writes.drop_first() =~= Seq::empty());
        }
    }
    assert(store.run(writes) == Some(ended));
}

} // verus!
