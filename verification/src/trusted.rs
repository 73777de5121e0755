//! The calls that leave this crate. Each function here hands its arguments to
//! one function of another crate, or of the standard library, and states
//! without proof what that function is documented to return.

use aes_gcm_siv::aead::Aead;
use aes_gcm_siv::KeyInit;
use argon2::PasswordHasher;
use argon2::PasswordVerifier;
use base64::Engine;
use chrono::SubsecRound;
use rand::Rng;
use vstd::prelude::*;
use vstd::string::StringSliceAdditionalSpecFns;
use vstd::utf8::{encode_utf8, valid_utf8};

verus! {

// ----------------------------------------------------------------------
// Hashing and encoding
// ----------------------------------------------------------------------

/// The BLAKE3 digest of `data`.
pub uninterp spec fn blake3_digest(data: Seq<u8>) -> Seq<u8>;

/// Length of a BLAKE3 digest in bytes.
pub const DIGEST_BYTES: usize = 32;

/// `blake3::hash`: the digest of the input, which is always 32 bytes long.
#[verifier::external_body]
pub(crate) fn blake3_hash(data: &[u8]) -> (digest: Vec<u8>)
    ensures
        digest@ == blake3_digest(data@),
        digest@.len() == DIGEST_BYTES,
{
    blake3::hash(data).as_bytes().to_vec()
}

/// The URL-safe base64 text of `data`, without padding.
pub uninterp spec fn base64_url_text(data: Seq<u8>) -> Seq<char>;

/// `Engine::encode` of base64's `URL_SAFE_NO_PAD` engine. The call panics when
/// the length of its output does not fit a `usize`, which the bound on the
/// input rules out.
#[verifier::external_body]
pub(crate) fn base64_url_encode(data: &[u8]) -> (text: String)
    requires
        data@.len() <= usize::MAX / 2,
    ensures
        text@ == base64_url_text(data@),
{
    base64::engine::general_purpose::URL_SAFE_NO_PAD.encode(data)
}

/// The value of a hexadecimal digit, if `c` is one.
pub open spec fn hex_digit(c: char) -> Option<int> {
    if '0' <= c <= '9' {
        Some(c as int - '0' as int)
    } else if 'a' <= c <= 'f' {
        Some(c as int - 'a' as int + 10)
    } else if 'A' <= c <= 'F' {
        Some(c as int - 'A' as int + 10)
    } else {
        None
    }
}

/// `text` is an even number of hexadecimal digits.
pub open spec fn is_hex(text: Seq<char>) -> bool {
    &&& text.len() % 2 == 0
    &&& forall|i: int| 0 <= i < text.len() ==> (#[trigger] hex_digit(text[i])) is Some
}

/// The bytes that a hexadecimal text spells, two digits a byte.
pub open spec fn hex_bytes(text: Seq<char>) -> Seq<u8> {
    Seq::new(
        text.len() / 2,
        |i: int| (16 * hex_digit(text[2 * i])->0 + hex_digit(text[2 * i + 1])->0) as u8,
    )
}

/// `hex::decode`: the bytes of a text of hexadecimal digits, upper or lower
/// case; nothing for a text of odd length or with any other character.
#[verifier::external_body]
pub(crate) fn hex_decode(text: &str) -> (bytes: Option<Vec<u8>>)
    ensures
        bytes is Some <==> is_hex(text@),
        bytes matches Some(b) ==> b@ == hex_bytes(text@),
{
    hex::decode(text).ok()
}

/// A byte that may stand in the value of an HTTP header: a tab, or anything
/// from the space on but the delete character.
pub open spec fn is_header_value_byte(b: u8) -> bool {
    (b >= 32 && b != 127) || b == 9
}

/// `HeaderValue::from_str` of the http crate, as poem hands it on: whether
/// every byte of the text may stand in the value of a header.
#[verifier::external_body]
pub(crate) fn header_value_accepted(text: &str) -> (ok: bool)
    ensures
        ok == forall|i: int|
            0 <= i < encode_utf8(text@).len() ==> is_header_value_byte(
                #[trigger] encode_utf8(text@)[i],
            ),
{
    poem::http::HeaderValue::from_str(text).is_ok()
}

// ----------------------------------------------------------------------
// Randomness and time
// ----------------------------------------------------------------------

/// Whether `c` is one of `0-9`, `A-Z`, `a-z`.
pub open spec fn is_alphanumeric(c: u8) -> bool {
    ||| 0x30 <= c <= 0x39
    ||| 0x41 <= c <= 0x5a
    ||| 0x61 <= c <= 0x7a
}

/// `Rng::sample_iter` with the `Alphanumeric` distribution on the thread's
/// generator: as many bytes as asked for, each an ASCII letter or digit.
#[verifier::external_body]
pub(crate) fn random_alphanumeric(length: usize) -> (bytes: Vec<u8>)
    ensures
        bytes@.len() == length,
        forall|i: int| 0 <= i < bytes@.len() ==> is_alphanumeric(#[trigger] bytes@[i]),
{
    rand::thread_rng().sample_iter(&rand::distributions::Alphanumeric).take(length).collect()
}

/// `Rng::sample_iter` with the `Standard` distribution on the thread's
/// generator: as many bytes as asked for.
#[verifier::external_body]
pub(crate) fn random_bytes(length: usize) -> (bytes: Vec<u8>)
    ensures
        bytes@.len() == length,
{
    rand::thread_rng().sample_iter(&rand::distributions::Standard).take(length).collect()
}

/// `Rng::try_fill` on the thread's generator: a buffer of the length asked
/// for, filled with random bytes, unless the generator reports a failure.
#[verifier::external_body]
pub(crate) fn random_fill(length: usize) -> (bytes: Option<Vec<u8>>)
    ensures
        bytes matches Some(b) ==> b@.len() == length,
{
    let mut buffer = vec![0u8; length];
    match rand::thread_rng().try_fill(&mut buffer[..]) {
        Ok(()) => Some(buffer),
        Err(_) => None,
    }
}

/// Bound on the magnitude of a timestamp that the clock can report.
pub const TIME_BOUND: i64 = 0x1_0000_0000_0000;

/// `Utc::now` of chrono, cut to whole seconds and read as seconds since the
/// Unix epoch. chrono computes the value from a day number that fits 32 bits,
/// which bounds it.
#[verifier::external_body]
pub(crate) fn unix_time_now() -> (now: i64)
    ensures
        -TIME_BOUND < now < TIME_BOUND,
{
    chrono::Utc::now().trunc_subsecs(0).timestamp()
}

// ----------------------------------------------------------------------
// Secrets
// ----------------------------------------------------------------------

/// Equality of `secstr::SecStr`: compares the contents of two byte strings,
/// in time that does not depend on where they differ.
#[verifier::external_body]
pub(crate) fn secret_eq(a: &[u8], b: &[u8]) -> (same: bool)
    ensures
        same == (a@ == b@),
{
    secstr::SecStr::from(a) == secstr::SecStr::from(b)
}

/// Length of an AES-GCM-SIV nonce in bytes.
pub const NONCE_BYTES: usize = 12;

/// Longest plaintext, in bytes, that AES-GCM-SIV seals.
pub const MAX_PLAINTEXT_BYTES: u64 = 0x10_0000_0000;

/// AES-256-GCM-SIV ciphertext and tag of `plaintext` under `key` and `nonce`,
/// without associated data; nothing where the cipher refuses the input.
pub uninterp spec fn aes_sealed(key: Seq<u8>, nonce: Seq<u8>, plaintext: Seq<u8>) -> Option<
    Seq<u8>,
>;

/// The plaintext that AES-256-GCM-SIV recovers from `ciphertext` under `key`
/// and `nonce`; nothing where authentication fails.
pub uninterp spec fn aes_opened(key: Seq<u8>, nonce: Seq<u8>, ciphertext: Seq<u8>) -> Option<
    Seq<u8>,
>;

/// `Aead::encrypt` of `Aes256GcmSiv`. It refuses only a plaintext beyond the
/// cipher's limit, and what it returns opens, under the same key and nonce,
/// to the plaintext it was given.
#[verifier::external_body]
pub(crate) fn aes_seal(key: &[u8], nonce: &[u8], plaintext: &[u8]) -> (sealed: Option<Vec<u8>>)
    requires
        key@.len() == 32,
        nonce@.len() == NONCE_BYTES,
    ensures
        sealed.deep_view() == aes_sealed(key@, nonce@, plaintext@),
        sealed is Some <==> plaintext@.len() <= MAX_PLAINTEXT_BYTES,
        sealed matches Some(c) ==> aes_opened(key@, nonce@, c@) == Some(plaintext@),
{
    let cipher = aes_gcm_siv::Aes256GcmSiv::new_from_slice(key).ok()?;
    cipher.encrypt(aes_gcm_siv::Nonce::from_slice(nonce), plaintext).ok()
}

/// `Aead::decrypt` of `Aes256GcmSiv`.
#[verifier::external_body]
pub(crate) fn aes_open(key: &[u8], nonce: &[u8], ciphertext: &[u8]) -> (opened: Option<Vec<u8>>)
    requires
        key@.len() == 32,
        nonce@.len() == NONCE_BYTES,
    ensures
        opened.deep_view() == aes_opened(key@, nonce@, ciphertext@),
{
    let cipher = aes_gcm_siv::Aes256GcmSiv::new_from_slice(key).ok()?;
    cipher.decrypt(aes_gcm_siv::Nonce::from_slice(nonce), ciphertext).ok()
}

// ----------------------------------------------------------------------
// Password hashing
// ----------------------------------------------------------------------

/// The cost parameters that Argon2 accepts.
pub open spec fn argon2_params_valid(memory_cost: u32, time_cost: u32, parallelism: u32) -> bool {
    &&& 8 <= memory_cost <= 0x0fff_ffff
    &&& 1 <= time_cost
    &&& 1 <= parallelism <= 0xff_ffff
    &&& 8 * parallelism <= memory_cost
}

/// `ParamsBuilder` of argon2: whether it accepts the three costs, each by its
/// own setter and then together.
#[verifier::external_body]
pub(crate) fn argon2_params_accepted(memory_cost: u32, time_cost: u32, parallelism: u32) -> (ok:
    bool)
    ensures
        ok == argon2_params_valid(memory_cost, time_cost, parallelism),
{
    let mut builder = argon2::ParamsBuilder::new();
    builder.m_cost(memory_cost).is_ok() && builder.t_cost(time_cost).is_ok() && builder.p_cost(
        parallelism,
    ).is_ok() && builder.params().is_ok()
}

/// The Argon2 hash of `password` with `salt` at the given costs, as a PHC
/// string; nothing where the hash refuses the salt or the password.
pub uninterp spec fn argon2_phc(
    memory_cost: u32,
    time_cost: u32,
    parallelism: u32,
    password: Seq<u8>,
    salt: Seq<u8>,
) -> Option<Seq<char>>;

/// Whether the PHC string `phc` is the hash of `password`; nothing where
/// `phc` is no PHC string or names parameters that Argon2 refuses.
pub uninterp spec fn argon2_verdict(password: Seq<u8>, phc: Seq<char>) -> Option<bool>;

/// `PasswordHasher::hash_password` of `Argon2` with the default algorithm and
/// version, on a salt encoded by `SaltString::b64_encode`, written out as a PHC
/// string. A hash that it returns verifies against the password it was made
/// from.
#[verifier::external_body]
pub(crate) fn argon2_hash(
    memory_cost: u32,
    time_cost: u32,
    parallelism: u32,
    password: &[u8],
    salt: &[u8],
) -> (phc: Option<String>)
    requires
        argon2_params_valid(memory_cost, time_cost, parallelism),
    ensures
        phc.deep_view() == argon2_phc(memory_cost, time_cost, parallelism, password@, salt@),
        phc matches Some(text) ==> argon2_verdict(password@, text@) == Some(true),
{
    let params = argon2::Params::new(memory_cost, time_cost, parallelism, None).ok()?;
    let hasher = argon2::Argon2::new(
        argon2::Algorithm::default(),
        argon2::Version::default(),
        params,
    );
    let salt = password_hash::SaltString::b64_encode(salt).ok()?;
    Some(hasher.hash_password(password, &salt).ok()?.to_string())
}

/// `PasswordHash::parse` and then `PasswordVerifier::verify_password` of
/// `Argon2`, which hashes the password with the parameters that the parsed
/// hash names: `true` where the outputs agree, `false` where the verifier
/// reports a wrong password, nothing for any other failure.
#[verifier::external_body]
pub(crate) fn argon2_verify(password: &[u8], phc: &str) -> (verdict: Option<bool>)
    ensures
        verdict == argon2_verdict(password@, phc@),
{
    let parsed = password_hash::PasswordHash::parse(phc, password_hash::Encoding::B64).ok()?;
    match argon2::Argon2::default().verify_password(password, &parsed) {
        Ok(()) => Some(true),
        Err(password_hash::Error::Password) => Some(false),
        Err(_) => None,
    }
}

// ----------------------------------------------------------------------
// One-time passcodes
// ----------------------------------------------------------------------

/// The HMAC-SHA-1 one-time passcode of a counter, in `digits` decimal digits.
pub uninterp spec fn hotp_sha1(digits: u32, key: Seq<u8>, counter: u64) -> Seq<char>;

/// The HMAC-SHA-256 one-time passcode of a counter.
pub uninterp spec fn hotp_sha256(digits: u32, key: Seq<u8>, counter: u64) -> Seq<char>;

/// The HMAC-SHA-512 one-time passcode of a counter.
pub uninterp spec fn hotp_sha512(digits: u32, key: Seq<u8>, counter: u64) -> Seq<char>;

/// `totp_custom::<Sha1>` of totp-lite: the passcode of the counter
/// `time / step`. The call divides by `step` and raises ten to `digits` in 64
/// bits, so it needs a positive step and at most 19 digits.
#[verifier::external_body]
pub(crate) fn totp_sha1(step: u64, digits: u32, key: &[u8], time: u64) -> (code: String)
    requires
        step > 0,
        digits <= 19,
    ensures
        code@ == hotp_sha1(digits, key@, time / step),
{
    totp_lite::totp_custom::<totp_lite::Sha1>(step, digits, key, time)
}

/// `totp_custom::<Sha256>` of totp-lite, as [`totp_sha1`].
#[verifier::external_body]
pub(crate) fn totp_sha256(step: u64, digits: u32, key: &[u8], time: u64) -> (code: String)
    requires
        step > 0,
        digits <= 19,
    ensures
        code@ == hotp_sha256(digits, key@, time / step),
{
    totp_lite::totp_custom::<totp_lite::Sha256>(step, digits, key, time)
}

/// `totp_custom::<Sha512>` of totp-lite, as [`totp_sha1`].
#[verifier::external_body]
pub(crate) fn totp_sha512(step: u64, digits: u32, key: &[u8], time: u64) -> (code: String)
    requires
        step > 0,
        digits <= 19,
    ensures
        code@ == hotp_sha512(digits, key@, time / step),
{
    totp_lite::totp_custom::<totp_lite::Sha512>(step, digits, key, time)
}

// ----------------------------------------------------------------------
// Text
// ----------------------------------------------------------------------

/// `core::str::from_utf8`: the text that the bytes encode, where they are
/// valid UTF-8.
#[verifier::external_body]
pub(crate) fn utf8_text(bytes: &[u8]) -> (text: Option<&str>)
    ensures
        text is Some <==> valid_utf8(bytes@),
        text matches Some(t) ==> t.spec_bytes() == bytes@,
{
    core::str::from_utf8(bytes).ok()
}

/// `String::from_utf8` on bytes that are all ASCII: the text with one
/// character for each byte.
#[verifier::external_body]
pub(crate) fn ascii_string(bytes: Vec<u8>) -> (text: String)
    requires
        forall|i: int| 0 <= i < bytes@.len() ==> #[trigger] bytes@[i] < 0x80,
    ensures
        text@ == bytes@.map_values(|b: u8| b as char),
{
    match String::from_utf8(bytes) {
        Ok(text) => text,
        Err(_) => String::new(),
    }
}

/// `separator` stands in `text` at the position `at`.
pub open spec fn occurs_at(text: Seq<char>, separator: Seq<char>, at: int) -> bool {
    &&& 0 <= at
    &&& at + separator.len() <= text.len()
    &&& text.subrange(at, at + separator.len()) == separator
}

/// `at` is the first position at which `separator` stands in `text`.
pub open spec fn first_occurrence(text: Seq<char>, separator: Seq<char>, at: int) -> bool {
    &&& occurs_at(text, separator, at)
    &&& forall|earlier: int| earlier < at ==> !occurs_at(text, separator, earlier)
}

/// What stands before and after the first occurrence of `separator` in
/// `text`; nothing where it does not occur.
pub open spec fn split_first(text: Seq<char>, separator: Seq<char>) -> Option<
    (Seq<char>, Seq<char>),
> {
    if exists|at: int| first_occurrence(text, separator, at) {
        let at = choose|at: int| first_occurrence(text, separator, at);
        Some((text.take(at), text.skip(at + separator.len())))
    } else {
        None
    }
}

/// `str::split_once` with a text as the pattern.
#[verifier::external_body]
pub(crate) fn split_once<'a>(text: &'a str, separator: &str) -> (parts: Option<(&'a str, &'a str)>)
    ensures
        parts.deep_view() == split_first(text@, separator@),
{
    text.split_once(separator)
}

/// `text` with each occurrence of the character `from` replaced by `to`.
pub open spec fn replaced(text: Seq<char>, from: char, to: Seq<char>) -> Seq<char>
    decreases text.len(),
{
    if text.len() == 0 {
        Seq::empty()
    } else {
        replaced(text.drop_last(), from, to) + if text.last() == from {
            to
        } else {
            seq![text.last()]
        }
    }
}

/// `str::replace` with a character as the pattern.
#[verifier::external_body]
pub(crate) fn replace_char(text: &str, from: char, to: &str) -> (out: String)
    ensures
        out@ == replaced(text@, from, to@),
{
    text.replace(from, to)
}

/// `text` in lower case, as Unicode defines it.
pub uninterp spec fn lowercased(text: Seq<char>) -> Seq<char>;

/// `str::to_lowercase`.
#[verifier::external_body]
pub(crate) fn lowercase(text: &str) -> (out: String)
    ensures
        out@ == lowercased(text@),
{
    text.to_lowercase()
}

} // verus!
