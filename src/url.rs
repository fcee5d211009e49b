use vstd::prelude::*;

use base64::engine::fast_portable::{FastPortable, PAD};

verus! {

/// Standard padded base64 of some bytes.
pub uninterp spec fn base64_standard_of(bytes: Seq<u8>) -> Seq<char>;

/// URL-safe padded base64 of some bytes.
pub uninterp spec fn base64_url_safe_of(bytes: Seq<u8>) -> Seq<char>;

/// Length of the padded base64 text of `n` bytes.
pub open spec fn base64_len(n: nat) -> nat {
    4 * ((n + 2) / 3)
}

/// Whether `n` bytes have a base64 text whose length fits in memory.
pub open spec fn base64_fits(n: nat) -> bool {
    base64_len(n) <= usize::MAX
}

/// Number of `=` that close the padded base64 text of `n` bytes.
pub open spec fn base64_padding(n: nat) -> nat {
    if n % 3 == 0 {
        0
    } else {
        (3 - n % 3) as nat
    }
}

/// A letter or a digit, as both base64 alphabets have them.
pub open spec fn is_alphanumeric(c: char) -> bool {
    ('A' <= c && c <= 'Z') || ('a' <= c && c <= 'z') || ('0' <= c && c <= '9')
}

/// A character of the standard base64 alphabet, padding excluded.
pub open spec fn is_standard_digit(c: char) -> bool {
    is_alphanumeric(c) || c == '+' || c == '/'
}

/// A character of the URL-safe base64 alphabet, padding excluded.
pub open spec fn is_url_safe_digit(c: char) -> bool {
    is_alphanumeric(c) || c == '-' || c == '_'
}

/// A character of the URL-safe alphabet where `url_safe` holds, else of the
/// standard one, padding excluded.
pub open spec fn is_base64_digit(c: char, url_safe: bool) -> bool {
    if url_safe {
        is_url_safe_digit(c)
    } else {
        is_standard_digit(c)
    }
}

/// Whether `text` has the shape of the padded base64 text of `n` bytes: its
/// length, digits of the chosen alphabet, then the padding.
pub open spec fn padded_shape(text: Seq<char>, n: nat, url_safe: bool) -> bool {
    &&& text.len() == base64_len(n)
    &&& forall|i: int|
        0 <= i < text.len() - base64_padding(n) ==> #[trigger] is_base64_digit(text[i], url_safe)
    &&& forall|i: int|
        text.len() - base64_padding(n) <= i < text.len() ==> #[trigger] text[i] == '='
}

/// Relies on `base64::encode` (standard alphabet, padded): four characters
/// for every three bytes or part of three, the last group filled up with `=`.
#[verifier::external_body]
pub(crate) fn encode_standard(bytes: &[u8]) -> (r: String)
    requires
        base64_fits(bytes@.len()),
    ensures
        r@ == base64_standard_of(bytes@),
        padded_shape(r@, bytes@.len(), false),
{
    base64::encode(bytes)
}

/// Relies on `base64::encode_engine` with the URL-safe alphabet, padded: four
/// characters of that alphabet for every three bytes or part of three, the
/// last group filled up with `=`.
#[verifier::external_body]
fn encode_url_safe(bytes: &[u8]) -> (r: String)
    requires
        base64_fits(bytes@.len()),
    ensures
        r@ == base64_url_safe_of(bytes@),
        padded_shape(r@, bytes@.len(), true),
{
    base64::encode_engine(bytes, &FastPortable::from(&base64::alphabet::URL_SAFE, PAD))
}

/// What stands between the view URL and the key in a share URL.
pub open spec fn share_marker() -> Seq<char> {
    "?ref=neots#"@
}

/// The share URL: the view URL, the referrer marker, and the key in the fragment.
pub open spec fn share_url_of(view_url: Seq<char>, key: Seq<u8>) -> Seq<char> {
    view_url + share_marker() + base64_url_safe_of(key)
}

/// Builds the URL under which a sealed secret can be opened once.
pub fn create_url(view_url: &str, key: &[u8]) -> (r: String)
    requires
        base64_fits(key@.len()),
    ensures
        r@ == share_url_of(view_url@, key@),
        r@.len() == view_url@.len() + share_marker().len() + base64_len(key@.len()),
        padded_shape(
            r@.subrange((view_url@.len() + share_marker().len()) as int, r@.len() as int),
            key@.len(),
            true,
        ),
{
    let encoded = encode_url_safe(key);
    let mut url = String::from_str(view_url);
    url.append("?ref=neots#");
    url.append(encoded.as_str());
    assert(url@.subrange((view_url@.len() + share_marker().len()) as int, url@.len() as int)
        =~= encoded@);
    url
}

/// In a share URL the key sits after a `#`, and nothing after that `#` is
/// another `#` or a `?`: the key stays in the fragment, never in the query or
/// the path.
pub proof fn lemma_key_only_in_fragment(view_url: Seq<char>, key: Seq<u8>, encoded: Seq<char>)
    requires
        encoded == base64_url_safe_of(key),
        padded_shape(encoded, key.len(), true),
    ensures
        share_url_of(view_url, key)[view_url.len() + share_marker().len() - 1] == '#',
        share_url_of(view_url, key).subrange(
            (view_url.len() + share_marker().len()) as int,
            share_url_of(view_url, key).len() as int,
        ) == encoded,
        forall|i: int|
            0 <= i < encoded.len() ==> #[trigger] encoded[i] != '#' && encoded[i] != '?',
{
    reveal_strlit("?ref=neots#");
    let url = share_url_of(view_url, key);
    assert(url.subrange((view_url.len() + share_marker().len()) as int, url.len() as int) =~= encoded);
    assert forall|i: int| 0 <= i < encoded.len() implies #[trigger] encoded[i] != '#'
        && encoded[i] != '?' by {
        if i < encoded.len() - base64_padding(key.len()) {
            assert(is_base64_digit(encoded[i], true));
        }
    }
}

} // verus!
