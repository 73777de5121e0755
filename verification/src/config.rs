use vstd::arithmetic::power::{lemma_pow0, pow};
use vstd::arithmetic::power2::{lemma_pow2_pos, lemma_pow2_unfold, pow2};
use vstd::prelude::*;
use vstd::utf8::encode_utf8;
use crate::bigint::{at_least_pow2, lemma_pow_unfold, normal, times_62, value};
use crate::trusted::{
    argon2_params_valid, header_value_accepted, hex_bytes, hex_decode, is_header_value_byte,
    is_hex,
};
use crate::util::{clone_option_text, make_argon2, text_eq, TotpAlgorithm};

verus! {

/// The `SameSite` attribute given to every cookie.
#[derive(Clone, Copy, Debug, PartialEq, Eq, Structural)]
pub enum SameSite {
    Strict,
    Lax,
    /// Sent with every request, whatever site it comes from.
    Unrestricted,
}

/// The web client, as the settings name it.
#[derive(Clone, Debug)]
pub struct ClientConfigInput {
    pub origin: String,
}

/// The web client: the origin from which it is served.
#[derive(Clone, Debug)]
pub struct ClientConfig {
    pub origin: String,
}

/// The attributes of cookies, as the settings name them.
#[derive(Clone, Debug)]
pub struct CookieConfigInput {
    pub path: String,
    pub same_site: String,
    pub secure: bool,
}

/// The attributes that every cookie gets.
#[derive(Clone, Debug)]
pub struct CookieConfig {
    pub path: String,
    pub same_site: SameSite,
    pub secure: bool,
}

/// The CSRF token, as the settings describe it.
#[derive(Clone, Debug)]
pub struct CsrfConfigInput {
    pub cookie: String,
    pub cookie_lifetime: u32,
    pub header: String,
    pub response_field: String,
    pub token_bits: u16,
}

/// Where the CSRF token travels and how long it is.
#[derive(Clone, Debug)]
pub struct CsrfConfig {
    pub cookie: String,
    /// Seconds.
    pub cookie_lifetime: u32,
    pub header: String,
    pub response_field: String,
    pub token_length: u16,
}

/// A connection to the relational store, as the settings describe it.
#[derive(Clone, Debug)]
pub struct DbConfigInput {
    pub user: String,
    pub password: String,
    pub dbname: String,
    pub application_name: Option<String>,
    pub host: Option<String>,
    pub port: Option<u16>,
}

/// Connection settings of the relational store.
#[derive(Clone, Debug)]
pub struct DbConfig {
    pub user: Option<String>,
    pub password: Option<String>,
    pub dbname: Option<String>,
    pub application_name: Option<String>,
    pub host: Option<String>,
    pub port: Option<u16>,
}

/// The switches for development, as the settings set them.
#[derive(Clone, Debug)]
pub struct DevConfigInput {
    pub debug: bool,
    pub init_db: Option<DbConfigInput>,
    pub testing: bool,
}

/// The switches for development.
#[derive(Clone, Debug)]
pub struct DevConfig {
    pub debug: bool,
    pub init_db: Option<DbConfig>,
    pub testing: bool,
}

/// The cache, as the settings describe it.
#[derive(Clone, Debug)]
pub struct RedisConfigInput {
    pub url: String,
    pub key_separator: String,
}

/// Where the cache is, and what separates the parts of its keys.
#[derive(Clone, Debug)]
pub struct RedisConfig {
    pub url: String,
    pub key_separator: String,
}

/// The remember token, as the settings describe it.
#[derive(Clone, Debug)]
pub struct RememberTokenConfigInput {
    pub cookie: String,
    pub cookie_lifetime: u32,
    pub id_bits: u16,
    pub secret_bits: u16,
    pub separator: String,
}

/// The cookie of the remember token and the lengths of its parts.
#[derive(Clone, Debug)]
pub struct RememberTokenConfig {
    pub cookie: String,
    /// Seconds.
    pub cookie_lifetime: u32,
    pub id_length: u16,
    pub secret_length: u16,
    pub separator: String,
}

/// Key and costs of the cryptography, as the settings give them.
#[derive(Clone, Debug)]
pub struct SecurityConfigInput {
    pub aes_key: String,
    pub argon2_time_cost: u32,
    pub argon2_memory_cost: u32,
    pub argon2_parallelism: u32,
    pub password_salt_bits: u16,
}

/// The length of the salt of a password.
#[derive(Clone, Debug)]
pub struct SecurityConfig {
    pub password_salt_bytes: usize,
}

/// The session, as the settings describe it.
#[derive(Clone, Debug)]
pub struct SessionConfigInput {
    pub cookie: String,
    pub id_bits: u16,
    pub lifetime: u32,
    pub sudo_lifetime: u32,
}

/// The cookie of the session, the length of its id, and how long it lasts.
#[derive(Clone, Debug)]
pub struct SessionConfig {
    pub cookie: String,
    pub id_length: u16,
    /// Seconds.
    pub lifetime: u32,
    /// Seconds.
    pub sudo_lifetime: u32,
}

/// The one-time passcodes, as the settings describe them.
#[derive(Clone, Debug)]
pub struct TotpConfigInput {
    pub algorithm: TotpAlgorithm,
    pub digits: u8,
    pub key_length: u16,
    pub time_step: u16,
    pub time_window: u8,
}

/// How one-time passcodes are computed and how far the clocks may differ.
#[derive(Clone, Debug)]
pub struct TotpConfig {
    pub algorithm: TotpAlgorithm,
    pub digits: u32,
    pub key_length: usize,
    /// Seconds in one time step.
    pub time_step: u16,
    /// Steps accepted on either side of the current one.
    pub time_window: u8,
}

/// The limits on users, as the settings give them.
#[derive(Clone, Debug)]
pub struct UserConfigInput {
    pub id_bits: u16,
    pub icon_id_bits: u16,
    pub username_min_length: u8,
    pub username_max_length: u8,
    pub password_min_length: u8,
    pub password_max_length: u16,
}

/// The lengths of the ids of users and the limits on names and passwords.
#[derive(Clone, Debug)]
pub struct UserConfig {
    pub id_length: u16,
    pub icon_id_length: u16,
    pub username_min_length: u8,
    pub username_max_length: u8,
    pub password_min_length: u8,
    pub password_max_length: u16,
}

/// The sockets, as the settings describe them.
#[derive(Clone, Debug)]
pub struct WebSocketConfigInput {
    pub channel_capacity: u16,
    pub connection_id_bits: u16,
    pub token_bits: u16,
    pub token_lifetime: u16,
}

/// The capacity of a room and the tokens of the sockets.
#[derive(Clone, Debug)]
pub struct WebSocketConfig {
    pub channel_capacity: usize,
    pub connection_id_length: u16,
    pub token_length: u16,
    /// Seconds.
    pub token_lifetime: usize,
}

/// The settings as they are written down, before they are checked.
#[derive(Clone, Debug)]
pub struct ConfigInput {
    pub client: ClientConfigInput,
    pub cookie: CookieConfigInput,
    pub csrf: CsrfConfigInput,
    pub db: DbConfigInput,
    pub dev: Option<DevConfigInput>,
    pub redis: RedisConfigInput,
    pub remember_token: RememberTokenConfigInput,
    pub security: SecurityConfigInput,
    pub session: SessionConfigInput,
    pub totp: TotpConfigInput,
    pub user: UserConfigInput,
    pub websocket: WebSocketConfigInput,
}

/// Cost parameters of the Argon2 password hash.
#[derive(Clone, Copy, Debug, PartialEq, Eq, Structural)]
pub struct Argon2Params {
    pub memory_cost: u32,
    pub time_cost: u32,
    pub parallelism: u32,
}

impl Argon2Params {
    /// The parameters are ones the hash accepts.
    pub open spec fn wf(&self) -> bool {
        argon2_params_valid(self.memory_cost, self.time_cost, self.parallelism)
    }
}

/// Number of bytes in an AES-256 key.
pub const AES_KEY_BYTES: usize = 32;

/// Largest digit count for which a passcode can be computed in 64 bits.
pub const TOTP_MAX_DIGITS: u32 = 19;

/// The immutable settings every component reads. They are made once, at
/// startup, and handed to each function that needs them.
#[derive(Clone, Debug)]
pub struct Config {
    /// The AES-256 key that envelopes secrets at rest.
    pub aes: Vec<u8>,
    pub argon2: Argon2Params,
    pub client: ClientConfig,
    pub cookie: CookieConfig,
    pub csrf: CsrfConfig,
    pub db: DbConfig,
    pub dev: DevConfig,
    pub redis: RedisConfig,
    pub remember_token: RememberTokenConfig,
    pub security: SecurityConfig,
    pub session: SessionConfig,
    pub totp: TotpConfig,
    pub user: UserConfig,
    pub websocket: WebSocketConfig,
}

impl Config {
    /// What the cryptographic functions rely on: a key of the right size,
    /// hash parameters the hash accepts, a positive time step and a digit
    /// count that fits.
    pub open spec fn wf(&self) -> bool {
        &&& self.aes@.len() == AES_KEY_BYTES
        &&& self.argon2.wf()
        &&& self.totp.time_step > 0
        &&& self.totp.digits <= TOTP_MAX_DIGITS
    }
}

/// The number of whole bytes in a number of bits that is a multiple of 8.
pub fn bits_to_bytes(bits: u16) -> (bytes: usize)
    requires
        bits % 8 == 0,
    ensures
        bytes * 8 == bits,
{
    (bits / 8) as usize
}

/// Number of letters and digits that a token can be made of.
pub const ALPHABET_SIZE: u64 = 62;

/// `length` is the least number of characters, drawn from an alphabet of 62,
/// that can tell as many tokens apart as `bits` bits can.
pub open spec fn is_token_length(bits: nat, length: nat) -> bool {
    &&& pow(62, length) >= pow2(bits)
    &&& length > 0 ==> pow(62, (length - 1) as nat) < pow2(bits)
}

/// A power of 62 is at least the same power of two.
proof fn lemma_pow62_at_least_pow2(e: nat)
    ensures
        pow(62, e) >= pow2(e),
    decreases e,
{
    if e == 0 {
        lemma_pow0(62);
        lemma_pow0(2);
    } else {
        lemma_pow62_at_least_pow2((e - 1) as nat);
        lemma_pow_unfold(62, e);
        lemma_pow2_unfold(e);
        lemma_pow2_pos((e - 1) as nat);
    }
}

/// The length of an alphanumeric token that holds `bits` bits: the bits
/// divided by the binary logarithm of 62, rounded up.
pub fn alphanum_token_length(bits: u16) -> (length: u16)
    ensures
        is_token_length(bits as nat, length as nat),
{
    let mut digits: Vec<u32> = Vec::new();
    digits.push(1);
    let mut length: u16 = 0;
    proof {
        lemma_pow0(62);
        lemma_pow0(crate::bigint::base());
        assert(digits@.drop_last() =~= Seq::empty());
        assert(value(digits@) == 1) by {
            reveal_with_fuel(value, 2);
        }
    }
    let mut reached = at_least_pow2(&digits, bits);
    while !reached
        invariant
            normal(digits@),
            digits@.len() <= length + 1,
            length <= bits,
            value(digits@) == pow(62, length as nat),
            reached == (value(digits@) >= pow2(bits as nat)),
            length > 0 ==> pow(62, (length - 1) as nat) < pow2(bits as nat),
        decreases bits - length,
    {
        proof {
            lemma_pow62_at_least_pow2(length as nat);
            lemma_pow_unfold(62, (length + 1) as nat);
        }
        digits = times_62(&digits);
        length = length + 1;
        reached = at_least_pow2(&digits, bits);
    }
    length
}

impl DbConfigInput {
    /// `config` holds what the input says.
    pub open spec fn describes(&self, config: DbConfig) -> bool {
        &&& config.user.deep_view() == Some(self.user@)
        &&& config.password.deep_view() == Some(self.password@)
        &&& config.dbname.deep_view() == Some(self.dbname@)
        &&& config.application_name.deep_view() == self.application_name.deep_view()
        &&& config.host.deep_view() == self.host.deep_view()
        &&& config.port == self.port
    }

    /// The settings of a connection as the store takes them.
    pub fn as_db_config(&self) -> (config: DbConfig)
        ensures
            self.describes(config),
    {
        DbConfig {
            user: Some(self.user.clone()),
            password: Some(self.password.clone()),
            dbname: Some(self.dbname.clone()),
            application_name: clone_option_text(&self.application_name),
            host: clone_option_text(&self.host),
            port: self.port,
        }
    }
}

impl Default for DevConfig {
    fn default() -> (config: DevConfig)
        ensures
            !config.debug,
            config.init_db is None,
            !config.testing,
    {
        DevConfig { debug: false, init_db: None, testing: false }
    }
}

impl Default for DevConfigInput {
    fn default() -> (config: DevConfigInput)
        ensures
            !config.debug,
            config.init_db is None,
            !config.testing,
    {
        DevConfigInput { debug: false, init_db: None, testing: false }
    }
}

/// The same-site rule that a word of the settings names.
pub open spec fn same_site_named(word: Seq<char>) -> Option<SameSite> {
    if word == "None"@ {
        Some(SameSite::Unrestricted)
    } else if word == "Lax"@ {
        Some(SameSite::Lax)
    } else if word == "Strict"@ {
        Some(SameSite::Strict)
    } else {
        None
    }
}

/// The same-site rule that a word of the settings names, if it names one.
pub fn parse_same_site(word: &str) -> (rule: Option<SameSite>)
    ensures
        rule == same_site_named(word@),
{
    if text_eq(word, "None") {
        Some(SameSite::Unrestricted)
    } else if text_eq(word, "Lax") {
        Some(SameSite::Lax)
    } else if text_eq(word, "Strict") {
        Some(SameSite::Strict)
    } else {
        None
    }
}

impl ConfigInput {
    /// The settings can be used: the key is 32 bytes in hexadecimal digits,
    /// the costs of the password hash are ones that it accepts, the origin
    /// can stand in a header, the same-site rule is one of the three, the
    /// salt is a whole number of bytes, the time step of the passcodes is
    /// positive and their digits are at most 19.
    pub open spec fn valid(&self) -> bool {
        &&& is_hex(self.security.aes_key@)
        &&& self.security.aes_key@.len() == 2 * AES_KEY_BYTES
        &&& argon2_params_valid(
            self.security.argon2_memory_cost,
            self.security.argon2_time_cost,
            self.security.argon2_parallelism,
        )
        &&& forall|i: int|
            0 <= i < encode_utf8(self.client.origin@).len() ==> is_header_value_byte(
                #[trigger] encode_utf8(self.client.origin@)[i],
            )
        &&& same_site_named(self.cookie.same_site@) is Some
        &&& self.security.password_salt_bits % 8 == 0
        &&& self.totp.time_step > 0
        &&& self.totp.digits <= TOTP_MAX_DIGITS
    }

    /// Whether the settings can be used.
    pub fn is_valid(&self) -> (ok: bool)
        ensures
            ok == self.valid(),
    {
        let key_ok = match hex_decode(self.security.aes_key.as_str()) {
            Some(key) => key.len() == AES_KEY_BYTES,
            None => false,
        };
        assert(key_ok == (is_hex(self.security.aes_key@) && self.security.aes_key@.len() == 2
            * AES_KEY_BYTES));
        key_ok && make_argon2(
            self.security.argon2_memory_cost,
            self.security.argon2_time_cost,
            self.security.argon2_parallelism,
        ).is_ok() && header_value_accepted(self.client.origin.as_str()) && parse_same_site(
            self.cookie.same_site.as_str(),
        ).is_some() && self.security.password_salt_bits % 8 == 0 && self.totp.time_step > 0
            && self.totp.digits as u32 <= TOTP_MAX_DIGITS
    }
}

impl Config {
    /// The settings that the input describes. Lengths in bits become lengths
    /// in characters or bytes, the key is read from its hexadecimal digits,
    /// and everything else is taken over.
    pub fn new(input: &ConfigInput) -> (config: Config)
        requires
            input.valid(),
        ensures
            config.wf(),
            config.aes@ == hex_bytes(input.security.aes_key@),
            config.argon2 == (Argon2Params {
                memory_cost: input.security.argon2_memory_cost,
                time_cost: input.security.argon2_time_cost,
                parallelism: input.security.argon2_parallelism,
            }),
            config.client.origin@ == input.client.origin@,
            config.cookie.path@ == input.cookie.path@,
            Some(config.cookie.same_site) == same_site_named(input.cookie.same_site@),
            config.cookie.secure == input.cookie.secure,
            config.csrf.cookie@ == input.csrf.cookie@,
            config.csrf.cookie_lifetime == input.csrf.cookie_lifetime,
            config.csrf.header@ == input.csrf.header@,
            config.csrf.response_field@ == input.csrf.response_field@,
            is_token_length(input.csrf.token_bits as nat, config.csrf.token_length as nat),
            input.db.describes(config.db),
            match input.dev {
                Some(dev) => config.dev.debug == dev.debug && config.dev.testing == dev.testing
                    && match dev.init_db {
                    Some(init_db) => config.dev.init_db is Some && init_db.describes(
                        config.dev.init_db->0,
                    ),
                    None => config.dev.init_db is None,
                },
                None => !config.dev.debug && !config.dev.testing && config.dev.init_db is None,
            },
            config.redis.url@ == input.redis.url@,
            config.redis.key_separator@ == input.redis.key_separator@,
            config.remember_token.cookie@ == input.remember_token.cookie@,
            config.remember_token.cookie_lifetime == input.remember_token.cookie_lifetime,
            is_token_length(
                input.remember_token.id_bits as nat,
                config.remember_token.id_length as nat,
            ),
            is_token_length(
                input.remember_token.secret_bits as nat,
                config.remember_token.secret_length as nat,
            ),
            config.remember_token.separator@ == input.remember_token.separator@,
            config.security.password_salt_bytes * 8 == input.security.password_salt_bits,
            config.session.cookie@ == input.session.cookie@,
            is_token_length(input.session.id_bits as nat, config.session.id_length as nat),
            config.session.lifetime == input.session.lifetime,
            config.session.sudo_lifetime == input.session.sudo_lifetime,
            config.totp.algorithm == input.totp.algorithm,
            config.totp.digits == input.totp.digits,
            config.totp.key_length == input.totp.key_length,
            config.totp.time_step == input.totp.time_step,
            config.totp.time_window == input.totp.time_window,
            is_token_length(input.user.id_bits as nat, config.user.id_length as nat),
            is_token_length(input.user.icon_id_bits as nat, config.user.icon_id_length as nat),
            config.user.username_min_length == input.user.username_min_length,
            config.user.username_max_length == input.user.username_max_length,
            config.user.password_min_length == input.user.password_min_length,
            config.user.password_max_length == input.user.password_max_length,
            config.websocket.channel_capacity == input.websocket.channel_capacity,
            is_token_length(
                input.websocket.connection_id_bits as nat,
                config.websocket.connection_id_length as nat,
            ),
            is_token_length(
                input.websocket.token_bits as nat,
                config.websocket.token_length as nat,
            ),
            config.websocket.token_lifetime == input.websocket.token_lifetime,
    {
        let aes = match hex_decode(input.security.aes_key.as_str()) {
            Some(key) => key,
            None => Vec::new(),
        };
        let argon2 = match make_argon2(
            input.security.argon2_memory_cost,
            input.security.argon2_time_cost,
            input.security.argon2_parallelism,
        ) {
            Ok(params) => params,
            Err(_) => Argon2Params { memory_cost: 8, time_cost: 1, parallelism: 1 },
        };
        let same_site = match parse_same_site(input.cookie.same_site.as_str()) {
            Some(rule) => rule,
            None => SameSite::Strict,
        };
        Config {
            aes,
            argon2,
            client: ClientConfig { origin: input.client.origin.clone() },
            cookie: CookieConfig {
                path: input.cookie.path.clone(),
                same_site,
                secure: input.cookie.secure,
            },
            csrf: CsrfConfig {
                cookie: input.csrf.cookie.clone(),
                cookie_lifetime: input.csrf.cookie_lifetime,
                header: input.csrf.header.clone(),
                response_field: input.csrf.response_field.clone(),
                token_length: alphanum_token_length(input.csrf.token_bits),
            },
            db: input.db.as_db_config(),
            dev: match &input.dev {
                Some(dev_config) => DevConfig {
                    debug: dev_config.debug,
                    init_db: match &dev_config.init_db {
                        Some(config) => Some(config.as_db_config()),
                        None => None,
                    },
                    testing: dev_config.testing,
                },
                None => DevConfig::default(),
            },
            redis: RedisConfig {
                url: input.redis.url.clone(),
                key_separator: input.redis.key_separator.clone(),
            },
            remember_token: RememberTokenConfig {
                cookie: input.remember_token.cookie.clone(),
                cookie_lifetime: input.remember_token.cookie_lifetime,
                id_length: alphanum_token_length(input.remember_token.id_bits),
                secret_length: alphanum_token_length(input.remember_token.secret_bits),
                separator: input.remember_token.separator.clone(),
            },
            security: SecurityConfig {
                password_salt_bytes: bits_to_bytes(input.security.password_salt_bits),
            },
            session: SessionConfig {
                cookie: input.session.cookie.clone(),
                id_length: alphanum_token_length(input.session.id_bits),
                lifetime: input.session.lifetime,
                sudo_lifetime: input.session.sudo_lifetime,
            },
            totp: TotpConfig {
                algorithm: input.totp.algorithm,
                digits: input.totp.digits as u32,
                key_length: input.totp.key_length as usize,
                time_step: input.totp.time_step,
                time_window: input.totp.time_window,
            },
            user: UserConfig {
                id_length: alphanum_token_length(input.user.id_bits),
                icon_id_length: alphanum_token_length(input.user.icon_id_bits),
                username_min_length: input.user.username_min_length,
                username_max_length: input.user.username_max_length,
                password_min_length: input.user.password_min_length,
                password_max_length: input.user.password_max_length,
            },
            websocket: WebSocketConfig {
                channel_capacity: input.websocket.channel_capacity as usize,
                connection_id_length: alphanum_token_length(input.websocket.connection_id_bits),
                token_length: alphanum_token_length(input.websocket.token_bits),
                token_lifetime: input.websocket.token_lifetime as usize,
            },
        }
    }
}

} // verus!
