//! Who is connected, and to which rooms. The sockets themselves, the
//! channels that carry a room's messages and the tasks that forward them are
//! the caller's; this module keeps the books that decide when a channel is
//! made, when it is dropped, and what a connection may do.

use vstd::prelude::*;
use vstd::string::StringExecFns;
use crate::config::Config;
use crate::error::{
    Alert, AlertView, AuthError, AuthErrorKind, ErrorData, ErrorDataView, GeneralError,
    GeneralErrorKind, InternalError, WebSocketError, WebSocketErrorKind,
};
use crate::store::count;
use crate::trusted::{split_first, split_once};
use crate::util::{generate_token, is_token, joined, redis_join, text_eq};

verus! {

/// The entries of a list that are the given name.
pub open spec fn is_name(name: Seq<char>) -> spec_fn(Seq<char>) -> bool {
    |entry: Seq<char>| entry == name
}

/// Taking one entry out of a list lowers by one the number of entries that a
/// predicate selects, if it selects that entry, and else leaves it.
pub proof fn lemma_count_remove<A>(entries: Seq<A>, at: int, selected: spec_fn(A) -> bool)
    requires
        0 <= at < entries.len(),
    ensures
        count(entries.remove(at), selected) == count(entries, selected) - if selected(
            entries[at],
        ) {
            1int
        } else {
            0int
        },
{
    let before = entries.subrange(0, at);
    let one = seq![entries[at]];
    let after = entries.subrange(at + 1, entries.len() as int);
    assert(entries =~= before + one + after);
    Seq::filter_distributes_over_add(before + one, after, selected);
    Seq::filter_distributes_over_add(before, one, selected);
    Seq::filter_distributes_over_add(before, after, selected);
    reveal_with_fuel(Seq::filter, 2);
    assert(one.drop_last() =~= Seq::<A>::empty());
}

/// The place of the first entry of a list that is `name`.
fn find_name(entries: &Vec<String>, name: &str) -> (at: Option<usize>)
    ensures
        at is Some <==> count(entries.deep_view(), is_name(name@)) > 0,
        at is Some <==> entries.deep_view().contains(name@),
        at matches Some(i) ==> i < entries@.len() && entries@[i as int]@ == name@,
{
    let ghost all = entries.deep_view();
    let ghost picked = is_name(name@);
    let mut i: usize = 0;
    proof {
        reveal(Seq::filter);
        assert(all.take(0) =~= Seq::empty());
    }
    while i < entries.len()
        invariant
            i <= entries.len(),
            all == entries.deep_view(),
            picked == is_name(name@),
            count(all.take(i as int), picked) == 0,
            forall|j: int| 0 <= j < i ==> all[j] != name@,
        decreases entries.len() - i,
    {
        proof {
            assert(all.take(i + 1) =~= all.take(i as int).push(all[i as int]));
            all.take(i as int).lemma_filter_push(all[i as int], picked);
        }
        if text_eq(entries[i].as_str(), name) {
            proof {
                assert(all.take(i + 1) + all.skip(i + 1) =~= all);
                Seq::filter_distributes_over_add(all.take(i + 1), all.skip(i + 1), picked);
                assert(all[i as int] == name@);
            }
            return Some(i);
        }
        i = i + 1;
    }
    assert(all.take(entries.len() as int) =~= all);
    None
}

/// The rooms that are open, with one entry for each subscription to a room.
/// A room is there exactly while some connection is subscribed to it.
pub struct AccountRooms {
    pub subscriptions: Vec<String>,
}

impl View for AccountRooms {
    type V = Seq<Seq<char>>;

    open spec fn view(&self) -> Seq<Seq<char>> {
        self.subscriptions.deep_view()
    }
}

impl AccountRooms {
    /// The number of connections that are subscribed to `room`.
    pub open spec fn subscribers(&self, room: Seq<char>) -> nat {
        count(self@, is_name(room))
    }

    /// Whether the room is open.
    pub open spec fn is_open(&self, room: Seq<char>) -> bool {
        self.subscribers(room) > 0
    }

    /// No room.
    pub fn new() -> (rooms: AccountRooms)
        ensures
            rooms@.len() == 0,
            forall|room: Seq<char>| !rooms.is_open(room),
    {
        let rooms = AccountRooms { subscriptions: Vec::new() };
        proof {
            reveal(Seq::filter);
            assert(rooms@ =~= Seq::empty());
        }
        rooms
    }

    /// Whether some connection is subscribed to the room.
    pub fn contains(&self, room: &str) -> (open: bool)
        ensures
            open == self.is_open(room@),
    {
        find_name(&self.subscriptions, room).is_some()
    }

    /// The number of connections that are subscribed to the room.
    pub fn receiver_count(&self, room: &str) -> (subscribers: usize)
        ensures
            subscribers == self.subscribers(room@),
    {
        let ghost all = self@;
        let ghost picked = is_name(room@);
        let mut found: usize = 0;
        let mut i: usize = 0;
        proof {
            reveal(Seq::filter);
            assert(all.take(0) =~= Seq::empty());
        }
        while i < self.subscriptions.len()
            invariant
                i <= self.subscriptions.len(),
                all == self.subscriptions.deep_view(),
                picked == is_name(room@),
                found <= i,
                found == count(all.take(i as int), picked),
            decreases self.subscriptions.len() - i,
        {
            proof {
                assert(all.take(i + 1) =~= all.take(i as int).push(all[i as int]));
                all.take(i as int).lemma_filter_push(all[i as int], picked);
            }
            if text_eq(self.subscriptions[i].as_str(), room) {
                found = found + 1;
            }
            i = i + 1;
        }
        assert(all.take(self.subscriptions.len() as int) =~= all);
        found
    }

    /// Adds a subscription to the room. Says whether the room was opened by
    /// it.
    fn subscribe(&mut self, room: &str) -> (opened: bool)
        ensures
            final(self)@ == old(self)@.push(room@),
            opened == !old(self).is_open(room@),
            forall|other: Seq<char>| #[trigger]
                final(self).subscribers(other) == old(self).subscribers(other) + if other
                    == room@ {
                    1nat
                } else {
                    0nat
                },
    {
        let opened = !self.contains(room);
        let ghost before = self@;
        self.subscriptions.push(room.to_owned());
        proof {
            assert(self@ =~= before.push(room@));
            assert forall|other: Seq<char>| #[trigger]
                self.subscribers(other) == count(before, is_name(other)) + if other == room@ {
                    1nat
                } else {
                    0nat
                } by {
                before.lemma_filter_push(room@, is_name(other));
            }
        }
        opened
    }

    /// Takes one subscription to the room away, if there is one. Says
    /// whether the room is closed after it.
    fn unsubscribe(&mut self, room: &str) -> (closed: bool)
        ensures
            forall|other: Seq<char>| #[trigger]
                final(self).subscribers(other) == if other == room@ && old(self).is_open(other) {
                    (old(self).subscribers(other) - 1) as nat
                } else {
                    old(self).subscribers(other)
                },
            closed == !final(self).is_open(room@),
    {
        let ghost before = self@;
        match find_name(&self.subscriptions, room) {
            Some(at) => {
                self.subscriptions.remove(at);
                proof {
                    assert(self@ =~= before.remove(at as int));
                    assert forall|other: Seq<char>| #[trigger]
                        self.subscribers(other) == if other == room@ && count(
                            before,
                            is_name(other),
                        ) > 0 {
                            (count(before, is_name(other)) - 1) as nat
                        } else {
                            count(before, is_name(other))
                        } by {
                        lemma_count_remove(before, at as int, is_name(other));
                    }
                }
            },
            None => {},
        }
        !self.contains(room)
    }
}

/// What entering a room asks of the caller.
#[derive(Clone, Copy, Debug, PartialEq, Eq, Structural)]
pub enum RoomEntry {
    /// The room was not open: a channel is to be made for it, which holds at
    /// most `capacity` messages for a subscriber that falls behind.
    Created { capacity: usize },
    /// The room is open: its channel is to be subscribed to.
    Joined,
}

/// A room that a connection has left.
pub struct LeftRoom {
    pub room: String,
    /// Nobody is subscribed to the room any more: its channel is to be
    /// dropped.
    pub closed: bool,
}

/// A connection: the rooms it is subscribed to and, once it has
/// authenticated, the user it belongs to.
pub struct WebSocketConnection {
    pub room_handles: Vec<String>,
    pub user_id: Option<String>,
}

/// The larger of a difference and zero.
pub open spec fn minus(a: nat, b: nat) -> nat {
    if a >= b {
        (a - b) as nat
    } else {
        0
    }
}

impl WebSocketConnection {
    /// The rooms that the connection is subscribed to.
    pub open spec fn rooms(&self) -> Seq<Seq<char>> {
        self.room_handles.deep_view()
    }

    /// How often the connection is subscribed to the room: once or not at
    /// all, for a connection that was only changed by the functions here.
    pub open spec fn subscriptions(&self, room: Seq<char>) -> nat {
        count(self.rooms(), is_name(room))
    }

    /// Whether the connection is subscribed to the room.
    pub open spec fn in_room(&self, room: Seq<char>) -> bool {
        self.subscriptions(room) > 0
    }

    /// A connection that has not authenticated and is in no room.
    pub fn new() -> (connection: WebSocketConnection)
        ensures
            connection.rooms().len() == 0,
            connection.user_id is None,
            forall|room: Seq<char>| !connection.in_room(room),
    {
        let connection = WebSocketConnection { room_handles: Vec::new(), user_id: None };
        proof {
            reveal(Seq::filter);
            assert(connection.rooms() =~= Seq::empty());
        }
        connection
    }

    /// Subscribes the connection to a room, unless it is subscribed already.
    /// The room gains a subscriber, and is opened if it had none.
    pub fn enter_room(&mut self, room: String, rooms: &mut AccountRooms, config: &Config) -> (entry:
        Result<RoomEntry, WebSocketError>)
        ensures
            final(self).user_id == old(self).user_id,
            match entry {
                Ok(entered) => {
                    &&& !old(self).in_room(room@)
                    &&& final(self).rooms() == old(self).rooms().push(room@)
                    &&& final(self).subscriptions(room@) == 1
                    &&& final(rooms)@ == old(rooms)@.push(room@)
                    &&& final(rooms).subscribers(room@) == old(rooms).subscribers(room@) + 1
                    &&& entered == if old(rooms).is_open(room@) {
                        RoomEntry::Joined
                    } else {
                        RoomEntry::Created { capacity: config.websocket.channel_capacity }
                    }
                },
                Err(e) => {
                    &&& old(self).in_room(room@)
                    &&& e@ == (WebSocketErrorKind::AlreadyInRoom, None::<ErrorDataView>)
                    &&& final(self).rooms() == old(self).rooms()
                    &&& final(rooms)@ == old(rooms)@
                },
            },
    {
        if find_name(&self.room_handles, room.as_str()).is_some() {
            return Err(WebSocketError::AlreadyInRoom(None));
        }
        let opened = rooms.subscribe(room.as_str());
        let ghost before = self.rooms();
        let ghost name = room@;
        self.room_handles.push(room);
        proof {
            assert(self.rooms() =~= before.push(name));
            before.lemma_filter_push(name, is_name(name));
        }
        Ok(
            if opened {
                RoomEntry::Created { capacity: config.websocket.channel_capacity }
            } else {
                RoomEntry::Joined
            },
        )
    }

    /// Ends the connection's subscription to a room that it is in. The room
    /// loses a subscriber, and is closed with its last one.
    pub fn leave_room(&mut self, room: &str, rooms: &mut AccountRooms) -> (left: Result<
        LeftRoom,
        WebSocketError,
    >)
        ensures
            final(self).user_id == old(self).user_id,
            match left {
                Ok(exit) => {
                    &&& old(self).in_room(room@)
                    &&& forall|other: Seq<char>| #[trigger]
                        final(self).subscriptions(other) == minus(
                            old(self).subscriptions(other),
                            if other == room@ {
                                1
                            } else {
                                0
                            },
                        )
                    &&& forall|other: Seq<char>| #[trigger]
                        final(rooms).subscribers(other) == minus(
                            old(rooms).subscribers(other),
                            if other == room@ {
                                1
                            } else {
                                0
                            },
                        )
                    &&& exit.room@ == room@
                    &&& exit.closed == !final(rooms).is_open(room@)
                },
                Err(e) => {
                    &&& !old(self).in_room(room@)
                    &&& e@ == (WebSocketErrorKind::NotInRoom, None::<ErrorDataView>)
                    &&& final(self).rooms() == old(self).rooms()
                    &&& final(rooms)@ == old(rooms)@
                },
            },
    {
        let at = match find_name(&self.room_handles, room) {
            Some(at) => at,
            None => {
                return Err(WebSocketError::NotInRoom(None));
            },
        };
        let ghost before = self.rooms();
        self.room_handles.remove(at);
        proof {
            assert(self.rooms() =~= before.remove(at as int));
            assert forall|other: Seq<char>| #[trigger]
                self.subscriptions(other) == minus(
                    count(before, is_name(other)),
                    if other == room@ {
                        1
                    } else {
                        0
                    },
                ) by {
                lemma_count_remove(before, at as int, is_name(other));
            }
        }
        let closed = rooms.unsubscribe(room);
        Ok(LeftRoom { room: room.to_owned(), closed })
    }

    /// Ends every subscription of the connection, as when its socket closes.
    /// Each room loses as many subscribers as the connection had
    /// subscriptions to it. Returns the rooms that were left, the last one
    /// entered first, each with the word on whether it was closed by that.
    pub fn disconnect(&mut self, rooms: &mut AccountRooms) -> (left: Vec<LeftRoom>)
        ensures
            final(self).rooms().len() == 0,
            final(self).user_id == old(self).user_id,
            forall|room: Seq<char>| #[trigger]
                final(rooms).subscribers(room) == minus(
                    old(rooms).subscribers(room),
                    old(self).subscriptions(room),
                ),
            left@.len() == old(self).rooms().len(),
            forall|i: int|
                0 <= i < left@.len() ==> (#[trigger] left@[i]).room@ == old(self).rooms()[
                    old(self).rooms().len() - 1 - i
                ],
            forall|i: int|
                0 <= i < left@.len() && (#[trigger] left@[i]).closed ==> !final(rooms).is_open(
                    left@[i].room@,
                ),
    {
        let ghost mine = self.rooms();
        let ghost start = *rooms;
        let mut left: Vec<LeftRoom> = Vec::new();
        proof {
            reveal(Seq::filter);
            assert(mine.skip(mine.len() as int) =~= Seq::empty());
            assert(mine.take(mine.len() as int) =~= mine);
        }
        while self.room_handles.len() > 0
            invariant
                self.rooms() == mine.take(self.room_handles@.len() as int),
                self.room_handles@.len() <= mine.len(),
                self.user_id == old(self).user_id,
                left@.len() == mine.len() - self.room_handles@.len(),
                forall|room: Seq<char>| #[trigger]
                    rooms.subscribers(room) == minus(
                        start.subscribers(room),
                        count(mine.skip(self.room_handles@.len() as int), is_name(room)),
                    ),
                forall|i: int|
                    0 <= i < left@.len() ==> (#[trigger] left@[i]).room@ == mine[mine.len() - 1
                        - i],
                forall|i: int|
                    0 <= i < left@.len() && (#[trigger] left@[i]).closed ==> !rooms.is_open(
                        left@[i].room@,
                    ),
            decreases self.room_handles@.len(),
        {
            let ghost n = self.room_handles@.len() as int;
            let ghost middle = *rooms;
            let ghost listed = self.rooms();
            assert(listed[n - 1] == self.room_handles@[n - 1]@);
            let room = self.room_handles.pop().unwrap();
            assert(room@ == mine[n - 1]);
            let closed = rooms.unsubscribe(room.as_str());
            proof {
                assert(self.rooms() =~= mine.take(n - 1));
                assert(mine.skip(n - 1) =~= seq![room@] + mine.skip(n));
                assert forall|other: Seq<char>| #[trigger]
                    rooms.subscribers(other) == minus(
                        start.subscribers(other),
                        count(mine.skip(n - 1), is_name(other)),
                    ) by {
                    Seq::filter_distributes_over_add(seq![room@], mine.skip(n), is_name(other));
                    reveal_with_fuel(Seq::filter, 2);
                    assert(seq![room@].drop_last() =~= Seq::<Seq<char>>::empty());
                    assert(middle.subscribers(other) == minus(
                        start.subscribers(other),
                        count(mine.skip(n), is_name(other)),
                    ));
                }
                assert forall|i: int| 0 <= i < left@.len() && (
                #[trigger] left@[i]).closed implies !rooms.is_open(left@[i].room@) by {
                    let name = left@[i].room@;
                    assert(!middle.is_open(name));
                }
            }
            left.push(LeftRoom { room, closed });
        }
        proof {
            assert(self.rooms() =~= Seq::empty());
            assert(mine.skip(0) =~= mine);
        }
        left
    }
}

/// The number of subscriptions to a room that a list of connections holds,
/// each connection given by the rooms it is subscribed to.
pub open spec fn booked(connections: Seq<Seq<Seq<char>>>, room: Seq<char>) -> nat
    decreases connections.len(),
{
    if connections.len() == 0 {
        0
    } else {
        booked(connections.drop_last(), room) + count(connections.last(), is_name(room))
    }
}

/// The books agree: each room has as many subscribers as the connections
/// hold subscriptions to it.
pub open spec fn books_agree(connections: Seq<Seq<Seq<char>>>, rooms: Seq<Seq<char>>) -> bool {
    forall|room: Seq<char>| count(rooms, is_name(room)) == #[trigger] booked(connections, room)
}

/// What a change to one connection does to the number of subscriptions.
pub proof fn lemma_booked_update(
    connections: Seq<Seq<Seq<char>>>,
    at: int,
    changed: Seq<Seq<char>>,
    room: Seq<char>,
)
    requires
        0 <= at < connections.len(),
    ensures
        booked(connections.update(at, changed), room) + count(connections[at], is_name(room))
            == booked(connections, room) + count(changed, is_name(room)),
    decreases connections.len(),
{
    let after = connections.update(at, changed);
    if at == connections.len() - 1 {
        assert(after.drop_last() =~= connections.drop_last());
    } else {
        assert(after.drop_last() =~= connections.drop_last().update(at, changed));
        lemma_booked_update(connections.drop_last(), at, changed, room);
    }
}

/// A room has a subscription exactly if some connection is subscribed to it.
pub proof fn lemma_booked_positive(connections: Seq<Seq<Seq<char>>>, room: Seq<char>)
    ensures
        booked(connections, room) > 0 <==> exists|at: int|
            0 <= at < connections.len() && count(#[trigger] connections[at], is_name(room)) > 0,
    decreases connections.len(),
{
    if connections.len() > 0 {
        let rest = connections.drop_last();
        lemma_booked_positive(rest, room);
        if booked(connections, room) > 0 {
            if count(connections.last(), is_name(room)) > 0 {
                assert(count(connections[connections.len() - 1], is_name(room)) > 0);
            } else {
                let at = choose|at: int|
                    0 <= at < rest.len() && count(#[trigger] rest[at], is_name(room)) > 0;
                assert(connections[at] == rest[at]);
            }
        }
        if exists|at: int|
            0 <= at < connections.len() && count(#[trigger] connections[at], is_name(room)) > 0 {
            let at = choose|at: int|
                0 <= at < connections.len() && count(#[trigger] connections[at], is_name(room))
                    > 0;
            if at < rest.len() {
                assert(rest[at] == connections[at]);
            }
        }
    }
}

/// A room is open exactly while a connection is subscribed to it: where the
/// books agree, the room is among the open ones if and only if some
/// connection holds a subscription to it.
pub proof fn lemma_room_is_open_while_subscribed(
    connections: Seq<Seq<Seq<char>>>,
    rooms: Seq<Seq<char>>,
    room: Seq<char>,
)
    requires
        books_agree(connections, rooms),
    ensures
        count(rooms, is_name(room)) > 0 <==> exists|at: int|
            0 <= at < connections.len() && count(#[trigger] connections[at], is_name(room)) > 0,
{
    lemma_booked_positive(connections, room);
    assert(count(rooms, is_name(room)) == booked(connections, room));
}

/// Entering a room keeps the books: if they agree, they agree again once
/// one of the connections has entered a room and the room has gained the
/// subscriber.
pub proof fn lemma_enter_keeps_books(
    connections: Seq<Seq<Seq<char>>>,
    rooms: Seq<Seq<char>>,
    at: int,
    room: Seq<char>,
)
    requires
        books_agree(connections, rooms),
        0 <= at < connections.len(),
    ensures
        books_agree(connections.update(at, connections[at].push(room)), rooms.push(room)),
{
    assert forall|other: Seq<char>|
        count(rooms.push(room), is_name(other)) == #[trigger] booked(
            connections.update(at, connections[at].push(room)),
            other,
        ) by {
        lemma_booked_update(connections, at, connections[at].push(room), other);
        rooms.lemma_filter_push(room, is_name(other));
        connections[at].lemma_filter_push(room, is_name(other));
        assert(count(rooms, is_name(other)) == booked(connections, other));
    }
}

/// Leaving keeps the books: if they agree, they agree again once one of the
/// connections has given up subscriptions, as many to each room as `left`
/// says, and each room has lost as many subscribers. This covers leaving one
/// room and leaving all of them.
pub proof fn lemma_leave_keeps_books(
    connections: Seq<Seq<Seq<char>>>,
    rooms: Seq<Seq<char>>,
    at: int,
    remaining: Seq<Seq<char>>,
    rooms_after: Seq<Seq<char>>,
    left: spec_fn(Seq<char>) -> nat,
)
    requires
        books_agree(connections, rooms),
        0 <= at < connections.len(),
        forall|room: Seq<char>|
            left(room) <= count(connections[at], is_name(room)) && #[trigger] count(
                remaining,
                is_name(room),
            ) == minus(count(connections[at], is_name(room)), left(room)),
        forall|room: Seq<char>| #[trigger]
            count(rooms_after, is_name(room)) == minus(count(rooms, is_name(room)), left(room)),
    ensures
        books_agree(connections.update(at, remaining), rooms_after),
{
    assert forall|room: Seq<char>|
        count(rooms_after, is_name(room)) == #[trigger] booked(
            connections.update(at, remaining),
            room,
        ) by {
        lemma_booked_update(connections, at, remaining, room);
        lemma_booked_at_least(connections, at, room);
        assert(count(rooms, is_name(room)) == booked(connections, room));
        assert(count(remaining, is_name(room)) == minus(
            count(connections[at], is_name(room)),
            left(room),
        ));
    }
}

/// The connections hold at least the subscriptions that one of them holds.
pub proof fn lemma_booked_at_least(connections: Seq<Seq<Seq<char>>>, at: int, room: Seq<char>)
    requires
        0 <= at < connections.len(),
    ensures
        booked(connections, room) >= count(connections[at], is_name(room)),
    decreases connections.len(),
{
    if at < connections.len() - 1 {
        lemma_booked_at_least(connections.drop_last(), at, room);
    }
}

/// The room of a user: every connection of the user is subscribed to it.
pub open spec fn user_room(user_id: Seq<char>) -> Seq<char> {
    "user:"@ + user_id
}

/// What a client sends to authenticate a socket.
pub struct AuthenticateEvent {
    pub token: String,
}

/// An event that a client sends over a socket.
pub enum AccountEvent {
    Authenticate(AuthenticateEvent),
}

/// What arrives on a socket.
pub enum Incoming {
    /// A text frame: the event it holds, or why it holds none.
    Text(Result<AccountEvent, String>),
    Binary,
    Ping,
    Pong,
    Close,
    /// The stream has ended or failed.
    End,
}

/// The alert that tells a client that only events in text frames are taken.
pub open spec fn invalid_message_type() -> AlertView {
    AlertView { source: "websocket"@, id: "invalid-message-type"@, details: None }
}

/// The alert that tells a client that a text frame held no event.
pub open spec fn invalid_data(details: Seq<char>) -> AlertView {
    AlertView { source: "general"@, id: "invalid-data"@, details: Some(details) }
}

/// The alert of the given kind of refusal, without detail.
pub open spec fn auth_alert(kind: AuthErrorKind) -> AlertView {
    AlertView { source: "auth"@, id: kind.spec_id(), details: None }
}

/// The alert that tells a client that the server failed.
pub open spec fn internal_alert() -> AlertView {
    AlertView { source: "general"@, id: "internal-server-error"@, details: None }
}

/// The key of the cache under which a token for a socket is kept.
pub open spec fn websocket_token_key_view(token: Seq<char>, config: Config) -> Seq<char> {
    joined(seq!["websocket-token"@, "account"@, token], config.redis.key_separator@)
}

/// The key of the cache under which a token for a socket is kept.
pub fn websocket_token_key(token: &str, config: &Config) -> (key: String)
    ensures
        key@ == websocket_token_key_view(token@, *config),
{
    let mut parts: Vec<&str> = Vec::new();
    parts.push("websocket-token");
    parts.push("account");
    parts.push(token);
    assert(parts.deep_view() =~= seq!["websocket-token"@, "account"@, token@]);
    redis_join(parts.as_slice(), config)
}

/// What to do about a message on a socket that has not authenticated.
pub enum HandshakeStep {
    /// The socket is done.
    Close,
    /// Nothing; wait for the next message.
    Ignore,
    /// Send the alert as an error, and wait for the next message.
    Reject(Alert),
    /// Look the token up in the cache, under the given key, and go on with
    /// [`handshake_token`].
    Exchange { token: String, redis_key: String },
}

/// Decides about a message on a socket that has not authenticated. Only an
/// event in a text frame is taken, and the only event is the one that
/// authenticates; anything else that carries data is refused with an error
/// on the socket, which stays open.
pub fn handshake_message(message: Incoming, config: &Config) -> (step: HandshakeStep)
    ensures
        match message {
            Incoming::Text(Ok(AccountEvent::Authenticate(event))) => step matches HandshakeStep::Exchange {
                token,
                redis_key,
            } && token == event.token && redis_key@ == websocket_token_key_view(
                event.token@,
                *config,
            ),
            Incoming::Text(Err(details)) => step matches HandshakeStep::Reject(alert) && alert@
                == invalid_data(details@),
            Incoming::Binary => step matches HandshakeStep::Reject(alert) && alert@
                == invalid_message_type(),
            Incoming::Ping | Incoming::Pong => step is Ignore,
            Incoming::Close | Incoming::End => step is Close,
        },
{
    match message {
        Incoming::Text(Ok(AccountEvent::Authenticate(AuthenticateEvent { token }))) => {
            let redis_key = websocket_token_key(token.as_str(), config);
            HandshakeStep::Exchange { token, redis_key }
        },
        Incoming::Text(Err(details)) => HandshakeStep::Reject(
            GeneralError::InvalidData(
                Some(ErrorData { cookies: Vec::new(), csrf_token: None, details: Some(details) }),
            ).to_alert(),
        ),
        Incoming::Binary => HandshakeStep::Reject(
            WebSocketError::InvalidMessageType(None).to_alert(),
        ),
        Incoming::Ping | Incoming::Pong => HandshakeStep::Ignore,
        Incoming::Close | Incoming::End => HandshakeStep::Close,
    }
}

/// What the cache said about a token.
pub enum TokenExchange {
    /// The token stands for the given user and session.
    Accepted { user_id: String, session_id: String },
    /// Send the alert as an error, and wait for the next message.
    Reject(Alert),
}

/// Decides about the value that the cache holds for a token, if it holds
/// one: the id of a user and that of a session, with a colon between them. A
/// token that the cache does not know gives invalid credentials; a value of
/// another shape is the server's own mistake.
pub fn handshake_token(value: Option<&str>) -> (exchange: TokenExchange)
    ensures
        match value {
            None => exchange matches TokenExchange::Reject(alert) && alert@ == auth_alert(
                AuthErrorKind::InvalidCredentials,
            ),
            Some(data) => match split_first(data@, ":"@) {
                Some((user, session)) => exchange matches TokenExchange::Accepted {
                    user_id,
                    session_id,
                } && user_id@ == user && session_id@ == session,
                None => exchange matches TokenExchange::Reject(alert) && alert@
                    == internal_alert(),
            },
        },
{
    match value {
        None => TokenExchange::Reject(AuthError::InvalidCredentials(None).to_alert()),
        Some(data) => match split_once(data, ":") {
            Some((user_id, session_id)) => TokenExchange::Accepted {
                user_id: user_id.to_owned(),
                session_id: session_id.to_owned(),
            },
            None => TokenExchange::Reject(InternalError.to_alert()),
        },
    }
}

/// Makes a connection that has shown a good token one of the user's: it
/// enters the room of the user and is marked as authenticated. Once this has
/// gone through, the token is to be deleted from the cache and the client
/// told that it is authenticated.
pub fn authenticate(
    connection: &mut WebSocketConnection,
    user_id: String,
    rooms: &mut AccountRooms,
    config: &Config,
) -> (entry: Result<RoomEntry, Alert>)
    ensures
        match entry {
            Ok(entered) => {
                &&& !old(connection).in_room(user_room(user_id@))
                &&& final(connection).rooms() == old(connection).rooms().push(
                    user_room(user_id@),
                )
                &&& final(connection).user_id == Some(user_id)
                &&& final(rooms)@ == old(rooms)@.push(user_room(user_id@))
                &&& final(rooms).subscribers(user_room(user_id@)) == old(rooms).subscribers(
                    user_room(user_id@),
                ) + 1
                &&& entered == if old(rooms).is_open(user_room(user_id@)) {
                    RoomEntry::Joined
                } else {
                    RoomEntry::Created { capacity: config.websocket.channel_capacity }
                }
            },
            Err(alert) => {
                &&& old(connection).in_room(user_room(user_id@))
                &&& alert@ == internal_alert()
                &&& final(connection).rooms() == old(connection).rooms()
                &&& final(connection).user_id == old(connection).user_id
                &&& final(rooms)@ == old(rooms)@
            },
        },
{
    let mut room = "user:".to_owned();
    room.append(user_id.as_str());
    match connection.enter_room(room, rooms, config) {
        Ok(entered) => {
            connection.user_id = Some(user_id);
            Ok(entered)
        },
        Err(_) => Err(InternalError.to_alert()),
    }
}

/// What to do about a message on a socket that has authenticated.
pub enum SessionStep {
    /// The socket is done.
    Close,
    /// Nothing; wait for the next message.
    Ignore,
    /// Send the alert as an error, and wait for the next message.
    Reject(Alert),
}

/// Decides about a message on a socket that has authenticated. To
/// authenticate again is an error, as is anything but an event in a text
/// frame; the socket stays open.
pub fn session_message(message: Incoming) -> (step: SessionStep)
    ensures
        match message {
            Incoming::Text(Ok(AccountEvent::Authenticate(_))) => step matches SessionStep::Reject(
                alert,
            ) && alert@ == auth_alert(AuthErrorKind::AlreadyLoggedIn),
            Incoming::Text(Err(details)) => step matches SessionStep::Reject(alert) && alert@
                == invalid_data(details@),
            Incoming::Binary => step matches SessionStep::Reject(alert) && alert@
                == invalid_message_type(),
            Incoming::Ping | Incoming::Pong => step is Ignore,
            Incoming::Close | Incoming::End => step is Close,
        },
{
    match message {
        Incoming::Text(Ok(AccountEvent::Authenticate(_))) => SessionStep::Reject(
            AuthError::AlreadyLoggedIn(None).to_alert(),
        ),
        Incoming::Text(Err(details)) => SessionStep::Reject(
            GeneralError::InvalidData(
                Some(ErrorData { cookies: Vec::new(), csrf_token: None, details: Some(details) }),
            ).to_alert(),
        ),
        Incoming::Binary => SessionStep::Reject(
            WebSocketError::InvalidMessageType(None).to_alert(),
        ),
        Incoming::Ping | Incoming::Pong => SessionStep::Ignore,
        Incoming::Close | Incoming::End => SessionStep::Close,
    }
}

/// A connection that has authenticated, under the session it belongs to and
/// its own id.
pub struct ConnectionEntry {
    pub session_id: String,
    pub connection_id: String,
    pub connection: WebSocketConnection,
}

/// The connections that have authenticated. A session is there exactly
/// while it has a connection.
pub struct AccountConnections {
    pub entries: Vec<ConnectionEntry>,
}

impl AccountConnections {
    /// The entry at `at` is the given connection of the given session.
    pub open spec fn is_at(&self, session_id: Seq<char>, connection_id: Seq<char>, at: int) -> bool {
        &&& 0 <= at < self.entries@.len()
        &&& self.entries@[at].session_id@ == session_id
        &&& self.entries@[at].connection_id@ == connection_id
    }

    /// `at` is the first place at which the given connection stands.
    pub open spec fn is_first_at(
        &self,
        session_id: Seq<char>,
        connection_id: Seq<char>,
        at: int,
    ) -> bool {
        &&& self.is_at(session_id, connection_id, at)
        &&& forall|earlier: int| earlier < at ==> !self.is_at(session_id, connection_id, earlier)
    }

    /// The given connection of the given session is there.
    pub open spec fn has(&self, session_id: Seq<char>, connection_id: Seq<char>) -> bool {
        exists|at: int| self.is_at(session_id, connection_id, at)
    }

    /// The session has a connection.
    pub open spec fn has_session(&self, session_id: Seq<char>) -> bool {
        exists|at: int|
            0 <= at < self.entries@.len() && (#[trigger] self.entries@[at]).session_id@
                == session_id
    }

    /// No connection.
    pub fn new() -> (connections: AccountConnections)
        ensures
            connections.entries@.len() == 0,
    {
        AccountConnections { entries: Vec::new() }
    }

    fn find(&self, session_id: &str, connection_id: &str) -> (at: Option<usize>)
        ensures
            at is Some <==> self.has(session_id@, connection_id@),
            at matches Some(i) ==> self.is_first_at(session_id@, connection_id@, i as int),
    {
        let mut i: usize = 0;
        while i < self.entries.len()
            invariant
                i <= self.entries.len(),
                forall|j: int| j < i ==> !self.is_at(session_id@, connection_id@, j),
            decreases self.entries.len() - i,
        {
            if text_eq(self.entries[i].session_id.as_str(), session_id) && text_eq(
                self.entries[i].connection_id.as_str(),
                connection_id,
            ) {
                assert(self.is_at(session_id@, connection_id@, i as int));
                return Some(i);
            }
            i = i + 1;
        }
        None
    }

    /// Whether the session has a connection.
    pub fn contains_session(&self, session_id: &str) -> (there: bool)
        ensures
            there == self.has_session(session_id@),
    {
        let mut i: usize = 0;
        while i < self.entries.len()
            invariant
                i <= self.entries.len(),
                forall|j: int| 0 <= j < i ==> (#[trigger] self.entries@[j]).session_id@
                    != session_id@,
            decreases self.entries.len() - i,
        {
            if text_eq(self.entries[i].session_id.as_str(), session_id) {
                return true;
            }
            i = i + 1;
        }
        false
    }

    /// Whether the connection is there and has a user.
    pub fn is_authenticated(&self, session_id: &str, connection_id: &str) -> (authenticated: bool)
        ensures
            authenticated ==> self.has(session_id@, connection_id@),
            authenticated == exists|at: int|
                self.is_first_at(session_id@, connection_id@, at) && (
                #[trigger] self.entries@[at]).connection.user_id is Some,
    {
        match self.find(session_id, connection_id) {
            Some(at) => {
                let authenticated = self.entries[at].connection.user_id.is_some();
                assert forall|other: int|
                    self.is_first_at(session_id@, connection_id@, other) implies other
                    == at as int by {}
                authenticated
            },
            None => false,
        }
    }

    /// Adds a connection under a fresh id, which is returned. Another
    /// connection that stood under the same session and id is replaced, and
    /// returned too.
    pub fn insert(
        &mut self,
        session_id: String,
        connection_id: String,
        connection: WebSocketConnection,
    ) -> (replaced: Option<WebSocketConnection>)
        ensures
            final(self).entries@.last() == (ConnectionEntry {
                session_id,
                connection_id,
                connection,
            }),
            match replaced {
                None => !old(self).has(session_id@, connection_id@) && final(self).entries@
                    == old(self).entries@.push(final(self).entries@.last()),
                Some(other) => exists|at: int|
                    old(self).is_first_at(session_id@, connection_id@, at) && other == (
                    #[trigger] old(self).entries@[at]).connection && final(self).entries@ == old(
                        self,
                    ).entries@.remove(at).push(final(self).entries@.last()),
            },
            final(self).has(session_id@, connection_id@),
            final(self).has_session(session_id@),
    {
        let replaced = match self.find(session_id.as_str(), connection_id.as_str()) {
            Some(at) => Some(self.entries.remove(at).connection),
            None => None,
        };
        self.entries.push(ConnectionEntry { session_id, connection_id, connection });
        assert(self.is_at(session_id@, connection_id@, self.entries@.len() - 1));
        replaced
    }

    /// Takes a connection out, as when its socket has closed. Its session is
    /// gone with its last connection.
    pub fn remove(&mut self, session_id: &str, connection_id: &str) -> (removed: Option<
        WebSocketConnection,
    >)
        ensures
            match removed {
                Some(connection) => exists|at: int|
                    old(self).is_first_at(session_id@, connection_id@, at) && connection == (
                    #[trigger] old(self).entries@[at]).connection && final(self).entries@ == old(
                        self,
                    ).entries@.remove(at),
                None => !old(self).has(session_id@, connection_id@) && final(self).entries@
                    == old(self).entries@,
            },
    {
        match self.find(session_id, connection_id) {
            Some(at) => Some(self.entries.remove(at).connection),
            None => None,
        }
    }

    /// Registers a connection that has authenticated, under an id drawn
    /// afresh, and returns the id.
    pub fn register(&mut self, session_id: String, connection: WebSocketConnection, config: &Config) -> (connection_id:
        String)
        ensures
            is_token(connection_id@, config.websocket.connection_id_length),
            final(self).has(session_id@, connection_id@),
            final(self).has_session(session_id@),
            final(self).entries@.last().connection == connection,
            final(self).entries@.last().session_id == session_id,
            final(self).entries@.last().connection_id@ == connection_id@,
            final(self).entries@.drop_last() == old(self).entries@ || exists|at: int|
                old(self).is_first_at(session_id@, connection_id@, at)
                    && final(self).entries@.drop_last() == #[trigger] old(self).entries@.remove(
                    at,
                ),
    {
        let connection_id = generate_token(config.websocket.connection_id_length);
        let ghost before = self.entries@;
        let replaced = self.insert(session_id, connection_id.clone(), connection);
        proof {
            let last = self.entries@.last();
            match replaced {
                None => {
                    assert(before.push(last).drop_last() =~= before);
                },
                Some(_) => {
                    let at = choose|at: int|
                        old(self).is_first_at(session_id@, connection_id@, at)
                            && self.entries@ == (#[trigger] before.remove(at)).push(last);
                    assert(before.remove(at).push(last).drop_last() =~= before.remove(at));
                },
            }
        }
        connection_id
    }
}

} // verus!
