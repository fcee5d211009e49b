use std::collections::HashSet;

use aes_gcm::aead::{Aead, KeyInit};
use aes_gcm::Aes256Gcm;
use chacha20poly1305::ChaCha20Poly1305;

use ots::cipher::{Cipher, UnknownCipherError};
use ots::config::{config_file_path, AppConfig};
use ots::envelope::{
    decode_envelope, encode_envelope, generate_key, generate_nonce, seal, wipe, KEY_LEN,
    NONCE_LEN, TAG_LEN,
};
use ots::error::ShareError;
use ots::input::join_input_lines;
use ots::protocol::{
    assemble_outcome, build_request, complete_share, encrypt, encrypt_aes, encrypt_chapoly,
    expiration_from_nanos, get_duration, prepare_request, prepare_share, SealedSecret,
    DEFAULT_EXPIRATION_SECS, MAX_EXPIRATION_SECS, MIN_EXPIRATION_SECS, NANOS_PER_SEC,
};
use ots::url::create_url;

fn open_aes(key: &[u8], nonce: &[u8], sealed: &[u8]) -> Vec<u8> {
    let cipher = Aes256Gcm::new(aes_gcm::Key::<Aes256Gcm>::from_slice(key));
    cipher.decrypt(aes_gcm::Nonce::from_slice(nonce), sealed).unwrap()
}

fn open_chapoly(key: &[u8], nonce: &[u8], sealed: &[u8]) -> Vec<u8> {
    let cipher = ChaCha20Poly1305::new(chacha20poly1305::Key::from_slice(key));
    cipher.decrypt(chacha20poly1305::Nonce::from_slice(nonce), sealed).unwrap()
}

#[test]
fn aes_round_trip_and_length() {
    for secret in [&b""[..], &b"hunter2"[..], &[7u8; 1000][..]] {
        let sealed = encrypt(secret, Cipher::Aes256gcm).unwrap();
        assert_eq!(sealed.key.len(), KEY_LEN);
        assert_eq!(sealed.nonce.len(), NONCE_LEN);
        assert_eq!(sealed.ciphertext.len(), secret.len() + TAG_LEN);
        assert_eq!(open_aes(&sealed.key, &sealed.nonce, &sealed.ciphertext), secret);
    }
}

#[test]
fn chapoly_round_trip_and_length() {
    for secret in [&b""[..], &b"hunter2"[..], &[9u8; 333][..]] {
        let sealed = encrypt(secret, Cipher::Chapoly).unwrap();
        assert_eq!(sealed.ciphertext.len(), secret.len() + TAG_LEN);
        assert_eq!(open_chapoly(&sealed.key, &sealed.nonce, &sealed.ciphertext), secret);
    }
}

#[test]
fn seal_differs_from_plaintext() {
    let key = [1u8; 32];
    let nonce = [2u8; 12];
    let aes = seal(Cipher::Aes256gcm, &key, &nonce, b"hunter2").unwrap();
    let cha = seal(Cipher::Chapoly, &key, &nonce, b"hunter2").unwrap();
    assert_ne!(&aes[..7], b"hunter2");
    assert_ne!(aes, cha);
    assert_eq!(seal(Cipher::Aes256gcm, &key, &nonce, b"hunter2").unwrap(), aes);
    assert_eq!(open_aes(&key, &nonce, &aes), b"hunter2");
    assert_eq!(open_chapoly(&key, &nonce, &cha), b"hunter2");
}

#[test]
fn encrypt_variants_match_dispatch() {
    let a = encrypt_aes(b"x").unwrap();
    assert_eq!(open_aes(&a.key, &a.nonce, &a.ciphertext), b"x");
    let c = encrypt_chapoly(b"y").unwrap();
    assert_eq!(open_chapoly(&c.key, &c.nonce, &c.ciphertext), b"y");
}

#[test]
fn nonces_do_not_repeat() {
    let mut seen = HashSet::new();
    for i in 0..100_000 {
        let cipher = if i % 2 == 0 { Cipher::Aes256gcm } else { Cipher::Chapoly };
        let nonce = generate_nonce(cipher);
        assert_eq!(nonce.len(), NONCE_LEN);
        assert!(seen.insert(nonce));
    }
}

#[test]
fn keys_are_fresh() {
    let a = generate_key(Cipher::Aes256gcm);
    let b = generate_key(Cipher::Aes256gcm);
    let c = generate_key(Cipher::Chapoly);
    assert_eq!(a.len(), KEY_LEN);
    assert_eq!(c.len(), KEY_LEN);
    assert_ne!(a, b);
    assert_ne!(a, c);
}

#[test]
fn envelope_splits_back() {
    let nonce: Vec<u8> = (0u8..12).collect();
    for sealed in [vec![], vec![200u8], (0u8..=255).collect::<Vec<u8>>()] {
        let bytes = encode_envelope(&nonce, &sealed);
        assert_eq!(bytes.len(), 12 + sealed.len());
        assert_eq!(&bytes[..12], &nonce[..]);
        let (n, c) = decode_envelope(&bytes).unwrap();
        assert_eq!(n, nonce);
        assert_eq!(c, sealed);
    }
}

#[test]
fn short_envelope_is_malformed() {
    assert_eq!(decode_envelope(&[0u8; 11]), Err(ShareError::MalformedEnvelope));
    assert_eq!(decode_envelope(&[]), Err(ShareError::MalformedEnvelope));
    let (n, c) = decode_envelope(&[5u8; 12]).unwrap();
    assert_eq!(n, vec![5u8; 12]);
    assert!(c.is_empty());
}

#[test]
fn url_for_zero_key() {
    let url = create_url("https://example.test/view/abc123", &[0u8; 32]);
    assert_eq!(
        url,
        "https://example.test/view/abc123?ref=neots#AAAAAAAAAAAAAAAAAAAAAAAAAAAAAAAAAAAAAAAAAAA="
    );
}

#[test]
fn url_uses_url_safe_alphabet() {
    let url = create_url("https://s/view/q", &[0xfb, 0xff, 0xbf]);
    assert_eq!(url, "https://s/view/q?ref=neots#-_-_");
    let url = create_url("v", &[0xff]);
    assert_eq!(url, "v?ref=neots#_w==");
}

#[test]
fn resolve_known_and_unknown_tags() {
    assert_eq!(Cipher::resolve("aes256gcm"), Ok(Cipher::Aes256gcm));
    assert_eq!(Cipher::resolve("chapoly"), Ok(Cipher::Chapoly));
    assert_eq!(
        Cipher::resolve("bogus"),
        Err(UnknownCipherError { tag: "bogus".to_string() })
    );
    assert!(Cipher::resolve("AES256GCM").is_err());
    assert!(Cipher::resolve("").is_err());
    assert!(Cipher::resolve("aes256gcm ").is_err());
}

#[test]
fn tags_and_default() {
    assert_eq!(Cipher::Aes256gcm.tag(), "aes256gcm");
    assert_eq!(Cipher::Chapoly.tag(), "chapoly");
    assert_eq!(Cipher::default_cipher(), Cipher::Aes256gcm);
    for c in [Cipher::Aes256gcm, Cipher::Chapoly] {
        assert_eq!(Cipher::resolve(&c.tag()), Ok(c));
    }
}

#[test]
fn unknown_cipher_stops_before_sealing() {
    let r = prepare_share(b"hunter2", "bogus", "2h");
    assert!(matches!(r, Err(ShareError::UnknownCipher(ref t)) if t == "bogus"));
}

#[test]
fn one_minute_is_too_short() {
    assert_eq!(expiration_from_nanos(60 * NANOS_PER_SEC), Err(ShareError::InvalidDuration));
    assert_eq!(get_duration("1min"), Err(ShareError::InvalidDuration));
    let r = prepare_request(b"hunter2", Cipher::Aes256gcm, 60 * NANOS_PER_SEC);
    assert!(matches!(r, Err(ShareError::InvalidDuration)));
    let r = prepare_share(b"hunter2", "aes256gcm", "1min");
    assert!(matches!(r, Err(ShareError::InvalidDuration)));
}

#[test]
fn lifetime_bounds() {
    assert_eq!(get_duration("5min"), Ok(MIN_EXPIRATION_SECS));
    assert_eq!(get_duration("4day"), Ok(MAX_EXPIRATION_SECS));
    assert_eq!(get_duration("2h"), Ok(DEFAULT_EXPIRATION_SECS));
    assert_eq!(get_duration("4day 1s"), Err(ShareError::InvalidDuration));
    assert_eq!(get_duration("later"), Err(ShareError::InvalidDuration));
    assert_eq!(expiration_from_nanos(300 * NANOS_PER_SEC - 1), Err(ShareError::InvalidDuration));
    assert_eq!(expiration_from_nanos(300 * NANOS_PER_SEC + 999), Ok(300));
    assert_eq!(expiration_from_nanos(345_600 * NANOS_PER_SEC), Ok(345_600));
    assert_eq!(
        expiration_from_nanos(345_600 * NANOS_PER_SEC + 1),
        Err(ShareError::InvalidDuration)
    );
}

#[test]
fn request_carries_envelope_in_standard_base64() {
    let sealed = SealedSecret { key: vec![0u8; 32], nonce: vec![0xfbu8; 12], ciphertext: vec![0xff; 3] };
    let req = build_request(&sealed, Cipher::Chapoly, 7200);
    assert_eq!(req.encrypted_bytes, "+/v7+/v7+/v7+/v7////");
    assert_eq!(req.expires_in, 7200);
    assert_eq!(req.cipher, "chapoly");
}

#[test]
fn end_to_end_with_mocked_storage() {
    let prepared = prepare_share(b"hunter2", "aes256gcm", "2h").unwrap();
    assert_eq!(prepared.request.cipher, "aes256gcm");
    assert_eq!(prepared.request.expires_in, 7200);
    assert!(!prepared.request.encrypted_bytes.contains("hunter2"));
    assert_eq!(prepared.request.encrypted_bytes.len(), 48);
    let envelope = base64::decode(&prepared.request.encrypted_bytes).unwrap();
    assert_eq!(envelope.len(), 12 + 7 + 16);
    let (nonce, sealed) = decode_envelope(&envelope).unwrap();
    assert_eq!(nonce, prepared.nonce);
    assert_eq!(open_aes(&prepared.key, &nonce, &sealed), b"hunter2");

    let t: i64 = 1_700_000_000;
    let outcome =
        complete_share(Some("https://s/view/xyz".to_string()), t + 7200, &prepared.key).unwrap();
    let prefix = "https://s/view/xyz?ref=neots#";
    assert!(outcome.url.starts_with(prefix));
    let key_text = &outcome.url[prefix.len()..];
    assert_eq!(key_text.len(), 44);
    assert!(key_text.ends_with('='));
    assert!(!key_text[..43].contains('='));
    assert!(key_text
        .chars()
        .all(|c| c.is_ascii_alphanumeric() || c == '-' || c == '_' || c == '='));
    assert_eq!(
        base64::decode_engine(
            key_text,
            &base64::engine::fast_portable::FastPortable::from(
                &base64::alphabet::URL_SAFE,
                base64::engine::fast_portable::PAD
            )
        )
        .unwrap(),
        prepared.key
    );
    assert_eq!(outcome.expires_at, "2023-11-15 00:13:20");
}

#[test]
fn missing_view_url_is_reported() {
    let key = [3u8; 32];
    assert_eq!(complete_share(None, 0, &key), Err(ShareError::MissingViewUrl));
    assert_eq!(assemble_outcome(None, Some("x".to_string()), &key), Err(ShareError::MissingViewUrl));
    assert_eq!(
        assemble_outcome(Some("v".to_string()), None, &key),
        Err(ShareError::MalformedResponse)
    );
    assert_eq!(complete_share(Some("v".to_string()), i64::MAX, &key), Err(ShareError::MalformedResponse));
    let o = assemble_outcome(Some("v".to_string()), Some("when".to_string()), &[0u8; 3]).unwrap();
    assert_eq!(o.url, "v?ref=neots#AAAA");
    assert_eq!(o.expires_at, "when");
}

#[test]
fn epoch_is_formatted_in_utc() {
    let o = complete_share(Some("v".to_string()), 0, &[0u8; 32]).unwrap();
    assert_eq!(o.expires_at, "1970-01-01 00:00:00");
}

#[test]
fn input_lines_stop_at_first_empty() {
    let lines = |v: &[&str]| v.iter().map(|s| s.to_string()).collect::<Vec<String>>();
    assert_eq!(join_input_lines(&lines(&["a", "b", "", "c"])), "a\nb");
    assert_eq!(join_input_lines(&lines(&["only"])), "only");
    assert_eq!(join_input_lines(&lines(&[])), "");
    assert_eq!(join_input_lines(&lines(&["", "x"])), "");
    assert_eq!(join_input_lines(&lines(&["x y", "z"])), "x y\nz");
}

#[test]
fn config_path_under_home() {
    assert_eq!(config_file_path("/home/u"), "/home/u/.ots.yaml");
    assert_eq!(AppConfig::default().api_url, "");
}

#[test]
fn wipe_clears_buffer() {
    let mut buf = vec![1u8, 2, 3, 4];
    wipe(&mut buf);
    assert_eq!(buf, vec![0u8; 4]);
}

#[test]
fn empty_secret_is_sealed() {
    let prepared = prepare_share(b"", "chapoly", "5min").unwrap();
    assert_eq!(prepared.request.expires_in, 300);
    let envelope = base64::decode(&prepared.request.encrypted_bytes).unwrap();
    assert_eq!(envelope.len(), 12 + 16);
    let (nonce, sealed) = decode_envelope(&envelope).unwrap();
    assert_eq!(open_chapoly(&prepared.key, &nonce, &sealed), b"");
}
