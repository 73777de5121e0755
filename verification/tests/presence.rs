use dodatok::config::{
    ClientConfigInput, Config, ConfigInput, CookieConfigInput, CsrfConfigInput, DbConfigInput,
    RedisConfigInput, RememberTokenConfigInput, SecurityConfigInput, SessionConfigInput,
    TotpConfigInput, UserConfigInput, WebSocketConfigInput,
};
use dodatok::error::WebSocketErrorKind;
use dodatok::util::TotpAlgorithm;
use dodatok::websocket::{
    authenticate, handshake_message, handshake_token, session_message, websocket_token_key,
    AccountConnections, AccountEvent, AccountRooms, AuthenticateEvent, HandshakeStep, Incoming,
    RoomEntry, SessionStep, TokenExchange, WebSocketConnection,
};

fn config_input() -> ConfigInput {
    ConfigInput {
        client: ClientConfigInput { origin: "https://example.org".to_string() },
        cookie: CookieConfigInput {
            path: "/".to_string(),
            same_site: "Strict".to_string(),
            secure: true,
        },
        csrf: CsrfConfigInput {
            cookie: "csrf".to_string(),
            cookie_lifetime: 3600,
            header: "X-Csrf-Token".to_string(),
            response_field: "csrf_token".to_string(),
            token_bits: 192,
        },
        db: DbConfigInput {
            user: "dodatok".to_string(),
            password: "secret".to_string(),
            dbname: "dodatok".to_string(),
            application_name: None,
            host: Some("localhost".to_string()),
            port: Some(5432),
        },
        dev: None,
        redis: RedisConfigInput {
            url: "redis://localhost".to_string(),
            key_separator: ":".to_string(),
        },
        remember_token: RememberTokenConfigInput {
            cookie: "remember".to_string(),
            cookie_lifetime: 86400,
            id_bits: 128,
            secret_bits: 256,
            separator: ":".to_string(),
        },
        security: SecurityConfigInput {
            aes_key: "000102030405060708090a0b0c0d0e0f101112131415161718191A1B1C1D1E1F".to_string(),
            argon2_time_cost: 1,
            argon2_memory_cost: 8,
            argon2_parallelism: 1,
            password_salt_bits: 128,
        },
        session: SessionConfigInput {
            cookie: "session".to_string(),
            id_bits: 256,
            lifetime: 1800,
            sudo_lifetime: 300,
        },
        totp: TotpConfigInput {
            algorithm: TotpAlgorithm::Sha1,
            digits: 6,
            key_length: 40,
            time_step: 30,
            time_window: 1,
        },
        user: UserConfigInput {
            id_bits: 128,
            icon_id_bits: 64,
            username_min_length: 1,
            username_max_length: 32,
            password_min_length: 8,
            password_max_length: 1024,
        },
        websocket: WebSocketConfigInput {
            channel_capacity: 16,
            connection_id_bits: 128,
            token_bits: 128,
            token_lifetime: 60,
        },
    }
}

fn settings() -> Config {
    let input = config_input();
    assert!(input.is_valid());
    Config::new(&input)
}


fn event(token: &str) -> Incoming {
    Incoming::Text(Ok(AccountEvent::Authenticate(AuthenticateEvent { token: token.to_string() })))
}

#[test]
fn room_lives_while_it_has_a_subscriber() {
    let config = settings();
    let mut rooms = AccountRooms::new();
    let mut first = WebSocketConnection::new();
    let mut second = WebSocketConnection::new();
    assert!(!rooms.contains("user:1"));

    let entered = authenticate(&mut first, "1".to_string(), &mut rooms, &config);
    assert!(matches!(entered, Ok(RoomEntry::Created { capacity: 16 })));
    assert_eq!(first.user_id, Some("1".to_string()));
    let entered = authenticate(&mut second, "1".to_string(), &mut rooms, &config);
    assert!(matches!(entered, Ok(RoomEntry::Joined)));
    assert!(rooms.contains("user:1"));
    assert_eq!(rooms.receiver_count("user:1"), 2);

    let left = first.disconnect(&mut rooms);
    assert_eq!(left.len(), 1);
    assert_eq!(left[0].room, "user:1");
    assert!(!left[0].closed);
    assert!(rooms.contains("user:1"));
    assert_eq!(rooms.receiver_count("user:1"), 1);
    assert!(second.room_handles.contains(&"user:1".to_string()));

    let left = second.disconnect(&mut rooms);
    assert_eq!(left.len(), 1);
    assert!(left[0].closed);
    assert!(!rooms.contains("user:1"));
    assert_eq!(rooms.receiver_count("user:1"), 0);
    assert!(rooms.subscriptions.is_empty());
}

#[test]
fn rooms_are_entered_once_and_left_once() {
    let config = settings();
    let mut rooms = AccountRooms::new();
    let mut connection = WebSocketConnection::new();
    assert!(matches!(
        connection.enter_room("a".to_string(), &mut rooms, &config),
        Ok(RoomEntry::Created { capacity: 16 })
    ));
    let again = connection.enter_room("a".to_string(), &mut rooms, &config).unwrap_err();
    assert_eq!(again.kind(), WebSocketErrorKind::AlreadyInRoom);
    assert_eq!(rooms.receiver_count("a"), 1);
    assert!(connection.enter_room("b".to_string(), &mut rooms, &config).is_ok());

    let absent = connection.leave_room("c", &mut rooms).err().unwrap();
    assert_eq!(absent.kind(), WebSocketErrorKind::NotInRoom);
    let left = connection.leave_room("a", &mut rooms).ok().unwrap();
    assert_eq!(left.room, "a");
    assert!(left.closed);
    assert!(!rooms.contains("a"));
    assert!(rooms.contains("b"));
    assert_eq!(connection.room_handles, vec!["b".to_string()]);
    assert!(connection.leave_room("a", &mut rooms).is_err());
}

#[test]
fn disconnect_leaves_every_room() {
    let config = settings();
    let mut rooms = AccountRooms::new();
    let mut other = WebSocketConnection::new();
    other.enter_room("b".to_string(), &mut rooms, &config).unwrap();
    let mut connection = WebSocketConnection::new();
    for room in ["a", "b", "c"] {
        connection.enter_room(room.to_string(), &mut rooms, &config).unwrap();
    }
    let left = connection.disconnect(&mut rooms);
    let names: Vec<(&str, bool)> = left.iter().map(|l| (l.room.as_str(), l.closed)).collect();
    assert_eq!(names, vec![("c", true), ("b", false), ("a", true)]);
    assert!(connection.room_handles.is_empty());
    assert_eq!(rooms.receiver_count("b"), 1);
    assert!(!rooms.contains("a"));
    assert!(!rooms.contains("c"));
    assert!(connection.disconnect(&mut rooms).is_empty());
}

#[test]
fn handshake_takes_only_the_event_that_authenticates() {
    let config = settings();
    match handshake_message(event("abc"), &config) {
        HandshakeStep::Exchange { token, redis_key } => {
            assert_eq!(token, "abc");
            assert_eq!(redis_key, "websocket-token:account:abc");
            assert_eq!(redis_key, websocket_token_key("abc", &config));
        }
        _ => panic!("no exchange"),
    }
    match handshake_message(Incoming::Binary, &config) {
        HandshakeStep::Reject(alert) => {
            assert_eq!(alert.source, "websocket");
            assert_eq!(alert.id, "invalid-message-type");
            assert_eq!(alert.details, None);
        }
        _ => panic!("no error"),
    }
    match handshake_message(Incoming::Text(Err("expected value".to_string())), &config) {
        HandshakeStep::Reject(alert) => {
            assert_eq!(alert.source, "general");
            assert_eq!(alert.id, "invalid-data");
            assert_eq!(alert.details, Some("expected value".to_string()));
        }
        _ => panic!("no error"),
    }
    assert!(matches!(handshake_message(Incoming::Ping, &config), HandshakeStep::Ignore));
    assert!(matches!(handshake_message(Incoming::Pong, &config), HandshakeStep::Ignore));
    assert!(matches!(handshake_message(Incoming::Close, &config), HandshakeStep::Close));
    assert!(matches!(handshake_message(Incoming::End, &config), HandshakeStep::Close));
}

#[test]
fn token_is_exchanged_for_user_and_session() {
    match handshake_token(Some("user1:c2Vzc2lvbg")) {
        TokenExchange::Accepted { user_id, session_id } => {
            assert_eq!(user_id, "user1");
            assert_eq!(session_id, "c2Vzc2lvbg");
        }
        _ => panic!("not accepted"),
    }
    match handshake_token(Some("a:b:c")) {
        TokenExchange::Accepted { user_id, session_id } => {
            assert_eq!(user_id, "a");
            assert_eq!(session_id, "b:c");
        }
        _ => panic!("not accepted"),
    }
    match handshake_token(None) {
        TokenExchange::Reject(alert) => {
            assert_eq!(alert.source, "auth");
            assert_eq!(alert.id, "invalid-credentials");
        }
        _ => panic!("accepted"),
    }
    match handshake_token(Some("no colon")) {
        TokenExchange::Reject(alert) => {
            assert_eq!(alert.source, "general");
            assert_eq!(alert.id, "internal-server-error");
        }
        _ => panic!("accepted"),
    }
}

#[test]
fn authenticated_socket_refuses_to_authenticate_again() {
    match session_message(event("abc")) {
        SessionStep::Reject(alert) => {
            assert_eq!(alert.source, "auth");
            assert_eq!(alert.id, "already-logged-in");
        }
        _ => panic!("no error"),
    }
    match session_message(Incoming::Binary) {
        SessionStep::Reject(alert) => assert_eq!(alert.id, "invalid-message-type"),
        _ => panic!("no error"),
    }
    match session_message(Incoming::Text(Err("bad".to_string()))) {
        SessionStep::Reject(alert) => {
            assert_eq!(alert.id, "invalid-data");
            assert_eq!(alert.details, Some("bad".to_string()));
        }
        _ => panic!("no error"),
    }
    assert!(matches!(session_message(Incoming::Ping), SessionStep::Ignore));
    assert!(matches!(session_message(Incoming::Pong), SessionStep::Ignore));
    assert!(matches!(session_message(Incoming::Close), SessionStep::Close));
    assert!(matches!(session_message(Incoming::End), SessionStep::Close));
}

#[test]
fn session_is_registered_while_it_has_a_connection() {
    let config = settings();
    let mut rooms = AccountRooms::new();
    let mut connections = AccountConnections::new();
    let mut first = WebSocketConnection::new();
    authenticate(&mut first, "1".to_string(), &mut rooms, &config).unwrap();
    let mut second = WebSocketConnection::new();
    authenticate(&mut second, "1".to_string(), &mut rooms, &config).unwrap();

    let first_id = connections.register("session".to_string(), first, &config);
    let second_id = connections.register("session".to_string(), second, &config);
    assert_eq!(first_id.len(), 22);
    assert_ne!(first_id, second_id);
    assert!(connections.contains_session("session"));
    assert!(!connections.contains_session("other"));
    assert!(connections.is_authenticated("session", &first_id));
    assert!(!connections.is_authenticated("other", &first_id));
    assert!(!connections.is_authenticated("session", "unknown"));

    let mut closed = connections.remove("session", &first_id).unwrap();
    closed.disconnect(&mut rooms);
    assert!(connections.remove("session", &first_id).is_none());
    assert!(connections.contains_session("session"));
    assert!(rooms.contains("user:1"));
    let mut closed = connections.remove("session", &second_id).unwrap();
    closed.disconnect(&mut rooms);
    assert!(!connections.contains_session("session"));
    assert!(!rooms.contains("user:1"));
    assert!(connections.entries.is_empty());
}

#[test]
fn connection_under_a_used_id_is_replaced() {
    let mut connections = AccountConnections::new();
    let mut old = WebSocketConnection::new();
    old.user_id = Some("old".to_string());
    assert!(connections.insert("s".to_string(), "c".to_string(), old).is_none());
    assert!(connections.insert("s".to_string(), "d".to_string(), WebSocketConnection::new()).is_none());
    assert!(!connections.is_authenticated("s", "d"));
    let replaced = connections.insert("s".to_string(), "c".to_string(), WebSocketConnection::new());
    assert_eq!(replaced.unwrap().user_id, Some("old".to_string()));
    assert_eq!(connections.entries.len(), 2);
    assert!(!connections.is_authenticated("s", "c"));
}
