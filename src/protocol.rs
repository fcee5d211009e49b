use vstd::prelude::*;

use duration_human::DurationHuman;

use crate::cipher::{lemma_tags_distinct, tag_of, Cipher, UnknownCipherError};
use crate::envelope::{
    encode_envelope, envelope_of, generate_key, generate_nonce, max_plaintext_len, seal,
    sealed_of, KEY_LEN, NONCE_LEN, TAG_LEN,
};
use crate::error::ShareError;
use crate::url::{
    base64_fits, base64_len, base64_standard_of, create_url, encode_standard, padded_shape,
    share_marker, share_url_of,
};

verus! {

/// Nanoseconds in a second.
pub const NANOS_PER_SEC: u64 = 1000000000;

/// Shortest lifetime the storage service accepts, in seconds (5 minutes).
pub const MIN_EXPIRATION_SECS: u64 = 300;

/// Longest lifetime the storage service accepts, in seconds (4 days).
pub const MAX_EXPIRATION_SECS: u64 = 345600;

/// Lifetime of a secret when none is asked for, in seconds (2 hours).
pub const DEFAULT_EXPIRATION_SECS: u64 = 7200;

/// The error of `DurationHuman::try_from(&str)` (duration-human): the text is
/// no duration, or one too large.
#[verifier::external_type_specification]
#[verifier::external_body]
pub struct ExDurationError(duration_human::DurationError);

/// The duration, in nanoseconds, that a human-readable text such as `2h` or
/// `1 day 30min` stands for; `None` for a text that is no duration.
pub uninterp spec fn human_duration_of(text: Seq<char>) -> Option<u64>;

/// UTC rendering `YYYY-MM-DD HH:MM:SS` of a Unix timestamp in seconds; `None`
/// for a timestamp outside the calendar's range.
pub uninterp spec fn utc_text_of(secs: i64) -> Option<Seq<char>>;

/// Last second of the year 9999, well inside the calendar's range.
pub const LAST_SECOND_OF_9999: i64 = 253402300799;

/// Relies on `DurationHuman::try_from(&str)` of duration-human, read back in
/// nanoseconds through `u64::from(&DurationHuman)`: the result depends on the
/// text alone.
#[verifier::external_body]
fn parse_human_duration(text: &str) -> (r: Result<u64, duration_human::DurationError>)
    ensures
        r matches Ok(nanos) ==> human_duration_of(text@) == Some(nanos),
        r is Err ==> human_duration_of(text@) is None,
{
    match DurationHuman::try_from(text) {
        Ok(d) => Ok(u64::from(&d)),
        Err(e) => Err(e),
    }
}

/// Relies on `DateTime::from_timestamp(secs, 0)` of chrono, rendered with the
/// format `%Y-%m-%d %H:%M:%S`; `None` where the timestamp is out of chrono's
/// range (some 262,000 years either side of the common era).
#[verifier::external_body]
fn format_utc(secs: i64) -> (r: Option<String>)
    ensures
        r is Some <==> utc_text_of(secs) is Some,
        r matches Some(s) ==> utc_text_of(secs) == Some(s@),
        0 <= secs <= LAST_SECOND_OF_9999 ==> r is Some,
{
    match chrono::DateTime::from_timestamp(secs, 0) {
        Some(t) => Some(t.format("%Y-%m-%d %H:%M:%S").to_string()),
        None => None,
    }
}

/// Whether a lifetime in nanoseconds lies in the accepted range, bounds included.
pub open spec fn lifetime_accepted(nanos: u64) -> bool {
    MIN_EXPIRATION_SECS * NANOS_PER_SEC <= nanos <= MAX_EXPIRATION_SECS * NANOS_PER_SEC
}

/// Whether a text reads as a lifetime inside the accepted range.
pub open spec fn duration_text_accepted(text: Seq<char>) -> bool {
    human_duration_of(text) matches Some(nanos) && lifetime_accepted(nanos)
}

/// A secret sealed under a fresh key and nonce.
pub struct SealedSecret {
    pub key: Vec<u8>,
    pub nonce: Vec<u8>,
    pub ciphertext: Vec<u8>,
}

/// Whether `s` is `plaintext` sealed by `cipher` under the key and nonce it holds.
pub open spec fn seals(s: SealedSecret, cipher: Cipher, plaintext: Seq<u8>) -> bool {
    &&& s.key@.len() == KEY_LEN
    &&& s.nonce@.len() == NONCE_LEN
    &&& s.ciphertext@ == sealed_of(cipher, s.key@, s.nonce@, plaintext)
    &&& s.ciphertext@.len() == plaintext.len() + TAG_LEN
}

/// The body of the request that hands a sealed secret to the storage service.
#[derive(Debug, PartialEq, Eq)]
pub struct CreateRequest {
    /// Standard base64 of the envelope: nonce, then ciphertext and tag.
    pub encrypted_bytes: String,
    /// Requested lifetime in seconds.
    pub expires_in: u64,
    /// Identifier of the cipher that sealed the secret.
    pub cipher: String,
}

/// What is kept locally while the request is out: the request itself and the
/// key, which never leaves the machine but in the share URL.
pub struct PreparedShare {
    pub request: CreateRequest,
    pub key: Vec<u8>,
    pub nonce: Vec<u8>,
}

/// What the user is shown once the storage service holds the secret.
#[derive(Debug, PartialEq, Eq)]
pub struct ShareOutcome {
    /// URL that opens the secret once.
    pub url: String,
    /// UTC time after which the secret is gone, as `YYYY-MM-DD HH:MM:SS`.
    pub expires_at: String,
}

/// Checks a requested lifetime, given in nanoseconds, and turns it into whole
/// seconds.
pub fn expiration_from_nanos(nanos: u64) -> (r: Result<u64, ShareError>)
    ensures
        r is Ok <==> lifetime_accepted(nanos),
        r matches Ok(secs) ==> secs == nanos / NANOS_PER_SEC,
        r matches Err(e) ==> e == ShareError::InvalidDuration,
{
    if nanos < MIN_EXPIRATION_SECS * NANOS_PER_SEC || nanos > MAX_EXPIRATION_SECS * NANOS_PER_SEC {
        Err(ShareError::InvalidDuration)
    } else {
        Ok(nanos / NANOS_PER_SEC)
    }
}

/// Reads a human-readable lifetime and checks it against the accepted range.
pub fn get_duration(text: &str) -> (r: Result<u64, ShareError>)
    ensures
        r is Ok <==> duration_text_accepted(text@),
        r matches Ok(secs) ==> secs == human_duration_of(text@)->0 / NANOS_PER_SEC,
        r matches Err(e) ==> e == ShareError::InvalidDuration,
{
    match parse_human_duration(text) {
        Ok(nanos) => expiration_from_nanos(nanos),
        Err(_) => Err(ShareError::InvalidDuration),
    }
}

/// Seals a secret with AES-256-GCM under a fresh key and nonce.
pub fn encrypt_aes(secret: &[u8]) -> (r: Result<SealedSecret, ShareError>)
    ensures
        r is Ok <==> secret@.len() <= max_plaintext_len(Cipher::Aes256gcm),
        r matches Ok(s) ==> seals(s, Cipher::Aes256gcm, secret@),
        r matches Err(e) ==> e == ShareError::CryptoFailure,
{
    let key = generate_key(Cipher::Aes256gcm);
    let nonce = generate_nonce(Cipher::Aes256gcm);
    let ciphertext = seal(Cipher::Aes256gcm, key.as_slice(), nonce.as_slice(), secret)?;
    Ok(SealedSecret { key, nonce, ciphertext })
}

/// Seals a secret with ChaCha20-Poly1305 under a fresh key and nonce.
pub fn encrypt_chapoly(secret: &[u8]) -> (r: Result<SealedSecret, ShareError>)
    ensures
        r is Ok <==> secret@.len() <= max_plaintext_len(Cipher::Chapoly),
        r matches Ok(s) ==> seals(s, Cipher::Chapoly, secret@),
        r matches Err(e) ==> e == ShareError::CryptoFailure,
{
    let key = generate_key(Cipher::Chapoly);
    let nonce = generate_nonce(Cipher::Chapoly);
    let ciphertext = seal(Cipher::Chapoly, key.as_slice(), nonce.as_slice(), secret)?;
    Ok(SealedSecret { key, nonce, ciphertext })
}

/// Seals a secret with the chosen cipher under a fresh key and nonce.
pub fn encrypt(secret: &[u8], cipher: Cipher) -> (r: Result<SealedSecret, ShareError>)
    ensures
        r is Ok <==> secret@.len() <= max_plaintext_len(cipher),
        r matches Ok(s) ==> seals(s, cipher, secret@),
        r matches Err(e) ==> e == ShareError::CryptoFailure,
{
    match cipher {
        Cipher::Chapoly => encrypt_chapoly(secret),
        Cipher::Aes256gcm => encrypt_aes(secret),
    }
}

/// The request body for a sealed secret.
pub fn build_request(sealed: &SealedSecret, cipher: Cipher, expires_in: u64) -> (r: CreateRequest)
    requires
        base64_fits(sealed.nonce@.len() + sealed.ciphertext@.len()),
    ensures
        r.encrypted_bytes@ == base64_standard_of(envelope_of(sealed.nonce@, sealed.ciphertext@)),
        r.encrypted_bytes@.len() == base64_len(sealed.nonce@.len() + sealed.ciphertext@.len()),
        r.expires_in == expires_in,
        r.cipher@ == tag_of(cipher),
{
    let envelope = encode_envelope(sealed.nonce.as_slice(), sealed.ciphertext.as_slice());
    CreateRequest {
        encrypted_bytes: encode_standard(envelope.as_slice()),
        expires_in,
        cipher: cipher.tag(),
    }
}

/// Whether `p` carries `secret` sealed by `cipher` for `lifetime_nanos`.
pub open spec fn prepared_for(
    p: PreparedShare,
    secret: Seq<u8>,
    cipher: Cipher,
    lifetime_nanos: u64,
) -> bool {
    &&& p.key@.len() == KEY_LEN
    &&& p.nonce@.len() == NONCE_LEN
    &&& sealed_of(cipher, p.key@, p.nonce@, secret).len() == secret.len() + TAG_LEN
    &&& p.request.encrypted_bytes@ == base64_standard_of(
        envelope_of(p.nonce@, sealed_of(cipher, p.key@, p.nonce@, secret)),
    )
    &&& p.request.encrypted_bytes@.len() == base64_len((NONCE_LEN + secret.len() + TAG_LEN) as nat)
    &&& p.request.expires_in == lifetime_nanos / NANOS_PER_SEC
    &&& p.request.cipher@ == tag_of(cipher)
}

/// Checks the lifetime, then seals the secret and builds the request for the
/// storage service. Nothing is sealed for a lifetime out of range.
pub fn prepare_request(secret: &[u8], cipher: Cipher, lifetime_nanos: u64) -> (r: Result<
    PreparedShare,
    ShareError,
>)
    requires
        base64_fits((secret@.len() + NONCE_LEN + TAG_LEN) as nat),
    ensures
        r is Ok <==> lifetime_accepted(lifetime_nanos) && secret@.len() <= max_plaintext_len(
            cipher,
        ),
        r matches Ok(p) ==> prepared_for(p, secret@, cipher, lifetime_nanos),
        r matches Err(e) ==> (!lifetime_accepted(lifetime_nanos) && e
            == ShareError::InvalidDuration) || (lifetime_accepted(lifetime_nanos) && e
            == ShareError::CryptoFailure),
{
    let expires_in = expiration_from_nanos(lifetime_nanos)?;
    let sealed = encrypt(secret, cipher)?;
    let request = build_request(&sealed, cipher, expires_in);
    Ok(PreparedShare { request, key: sealed.key, nonce: sealed.nonce })
}

/// The first half of a share, from what the user typed to the request for the
/// storage service: resolves the cipher identifier, reads the lifetime, seals
/// the secret. An unknown cipher stops everything before any key is drawn.
pub fn prepare_share(secret: &[u8], cipher_tag: &str, expiration: &str) -> (r: Result<
    PreparedShare,
    ShareError,
>)
    requires
        base64_fits((secret@.len() + NONCE_LEN + TAG_LEN) as nat),
    ensures
        (r matches Err(ShareError::UnknownCipher(t)) && t@ == cipher_tag@) <==> (forall|c: Cipher|
            tag_of(c) != cipher_tag@),
        r is Ok <==> exists|c: Cipher|
            #[trigger] tag_of(c) == cipher_tag@ && duration_text_accepted(expiration@)
                && secret@.len() <= max_plaintext_len(c),
        r matches Ok(p) ==> exists|c: Cipher|
            tag_of(c) == cipher_tag@ && #[trigger] prepared_for(
                p,
                secret@,
                c,
                human_duration_of(expiration@)->0,
            ),
        r == Err::<PreparedShare, ShareError>(ShareError::InvalidDuration) <==> (exists|c: Cipher|
            #[trigger] tag_of(c) == cipher_tag@) && !duration_text_accepted(expiration@),
        r == Err::<PreparedShare, ShareError>(ShareError::CryptoFailure) <==> exists|c: Cipher|
            #[trigger] tag_of(c) == cipher_tag@ && duration_text_accepted(expiration@)
                && secret@.len() > max_plaintext_len(c),
        r matches Err(e) ==> e is UnknownCipher || e is InvalidDuration || e is CryptoFailure,
{
    let cipher = match Cipher::resolve(cipher_tag) {
        Ok(c) => {
            proof {
                lemma_tags_distinct(c);
            }
            c
        },
        Err(UnknownCipherError { tag }) => {
            return Err(ShareError::UnknownCipher(tag));
        },
    };
    let lifetime_nanos = match parse_human_duration(expiration) {
        Ok(nanos) => nanos,
        Err(_) => {
            return Err(ShareError::InvalidDuration);
        },
    };
    let r = prepare_request(secret, cipher, lifetime_nanos);
    proof {
        lemma_tags_distinct(cipher);
        if r is Ok {
            assert(prepared_for(r->Ok_0, secret@, cipher, human_duration_of(expiration@)->0));
        }
    }
    r
}

/// The second half of a share, from the storage service's answer to what the
/// user is shown: a view URL is required, and so is a readable expiry time.
pub fn assemble_outcome(view_url: Option<String>, expiry_text: Option<String>, key: &[u8]) -> (r:
    Result<ShareOutcome, ShareError>)
    requires
        base64_fits(key@.len()),
    ensures
        view_url is None ==> r == Err::<ShareOutcome, ShareError>(ShareError::MissingViewUrl),
        view_url is Some && expiry_text is None ==> r == Err::<ShareOutcome, ShareError>(
            ShareError::MalformedResponse,
        ),
        view_url is Some && expiry_text is Some ==> r is Ok,
        r matches Ok(o) ==> o.url@ == share_url_of(view_url->0@, key@) && o.expires_at
            == expiry_text->0,
        r matches Ok(o) ==> padded_shape(
            o.url@.subrange((view_url->0@.len() + share_marker().len()) as int, o.url@.len() as int),
            key@.len(),
            true,
        ),
{
    match view_url {
        None => Err(ShareError::MissingViewUrl),
        Some(view) => match expiry_text {
            None => Err(ShareError::MalformedResponse),
            Some(expires_at) => Ok(ShareOutcome { url: create_url(view.as_str(), key), expires_at }),
        },
    }
}

/// Turns the storage service's answer (the view URL it announced, if any, and
/// the expiry timestamp in its body) into the share URL and the expiry time.
pub fn complete_share(view_url: Option<String>, expires_at: i64, key: &[u8]) -> (r: Result<
    ShareOutcome,
    ShareError,
>)
    requires
        base64_fits(key@.len()),
    ensures
        view_url is None ==> r == Err::<ShareOutcome, ShareError>(ShareError::MissingViewUrl),
        view_url is Some && utc_text_of(expires_at) is Some ==> r is Ok,
        view_url is Some && utc_text_of(expires_at) is None ==> r == Err::<
            ShareOutcome,
            ShareError,
        >(ShareError::MalformedResponse),
        r matches Ok(o) ==> o.url@ == share_url_of(view_url->0@, key@) && utc_text_of(expires_at)
            == Some(o.expires_at@),
        r matches Ok(o) ==> padded_shape(
            o.url@.subrange((view_url->0@.len() + share_marker().len()) as int, o.url@.len() as int),
            key@.len(),
            true,
        ),
{
    let expiry_text = format_utc(expires_at);
    assemble_outcome(view_url, expiry_text, key)
}

} // verus!
