use vstd::prelude::*;
use vstd::string::{StringExecFns, StringSliceAdditionalSpecFns};
use vstd::utf8::encode_utf8;
use crate::config::Config;
use crate::error::{AuthError, AuthErrorKind, ErrorDataView};
use crate::middleware::CurrentUser;
use crate::trusted::base64_url_text;
use crate::util::{base64_urlsafe, bytes_eq, generate_token, is_token};
use crate::websocket::{websocket_token_key, websocket_token_key_view};

verus! {

/// Decides whether a socket may be opened: only for a request that names the
/// configured origin of the client, byte for byte.
pub fn websocket(origin: Option<&[u8]>, config: &Config) -> (allowed: Result<(), AuthError>)
    ensures
        allowed is Ok <==> (origin matches Some(o) && o@ == encode_utf8(config.client.origin@)),
        allowed matches Err(e) ==> e@ == (AuthErrorKind::Forbidden, None::<ErrorDataView>),
{
    match origin {
        Some(o) => {
            if bytes_eq(o, config.client.origin.as_str().as_bytes()) {
                Ok(())
            } else {
                Err(AuthError::Forbidden(None))
            }
        },
        None => Err(AuthError::Forbidden(None)),
    }
}

/// A token that lets its bearer authenticate one socket, and what the cache
/// is to hold for it.
pub struct WebSocketToken {
    /// The token, which goes to the client.
    pub token: String,
    pub redis_key: String,
    pub redis_value: String,
    /// Seconds after which the cache forgets the token.
    pub lifetime: usize,
}

/// What the cache holds for a token: the id of the user and, after a colon,
/// the hash of the session's id in URL-safe base64.
pub open spec fn websocket_token_value(user: CurrentUser) -> Seq<char> {
    user.id@ + ":"@ + base64_url_text(user.session_id_hash@)
}

/// Binds the given token to the user and session of a request.
pub fn websocket_token_with(user: &CurrentUser, token: String, config: &Config) -> (out:
    WebSocketToken)
    requires
        user.session_id_hash@.len() <= usize::MAX / 2,
    ensures
        out.token == token,
        out.redis_key@ == websocket_token_key_view(token@, *config),
        out.redis_value@ == websocket_token_value(*user),
        out.lifetime == config.websocket.token_lifetime,
{
    let redis_key = websocket_token_key(token.as_str(), config);
    let mut redis_value = user.id.clone();
    redis_value.append(":");
    let session = base64_urlsafe(user.session_id_hash.as_slice());
    redis_value.append(session.as_str());
    WebSocketToken { token, redis_key, redis_value, lifetime: config.websocket.token_lifetime }
}

/// Draws a token and binds it to the user and session of a request. See
/// [`websocket_token_with`].
pub fn websocket_token(user: &CurrentUser, config: &Config) -> (out: WebSocketToken)
    requires
        user.session_id_hash@.len() <= usize::MAX / 2,
    ensures
        is_token(out.token@, config.websocket.token_length),
        out.redis_key@ == websocket_token_key_view(out.token@, *config),
        out.redis_value@ == websocket_token_value(*user),
        out.lifetime == config.websocket.token_lifetime,
{
    let token = generate_token(config.websocket.token_length);
    websocket_token_with(user, token, config)
}

} // verus!
