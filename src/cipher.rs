use vstd::prelude::*;

use crate::text::same_text;

verus! {

/// The closed set of authenticated ciphers a secret can be sealed with.
#[derive(Debug, Clone, Copy, PartialEq, Eq, Structural)]
pub enum Cipher {
    /// AES-256 in Galois/Counter Mode.
    Aes256gcm,
    /// ChaCha20 with the Poly1305 authenticator.
    Chapoly,
}

/// The stable identifier of a cipher, shared with the storage service.
pub open spec fn tag_of(c: Cipher) -> Seq<char> {
    match c {
        Cipher::Aes256gcm => "aes256gcm"@,
        Cipher::Chapoly => "chapoly"@,
    }
}

/// A cipher identifier that names no supported cipher.
#[derive(Debug, PartialEq, Eq)]
pub struct UnknownCipherError {
    pub tag: String,
}

impl Cipher {
    /// The cipher used when none is asked for.
    pub fn default_cipher() -> (r: Cipher)
        ensures
            r == Cipher::Aes256gcm,
    {
        Cipher::Aes256gcm
    }

    /// The identifier under which the storage service knows this cipher.
    pub fn tag(&self) -> (r: String)
        ensures
            r@ == tag_of(*self),
    {
        match self {
            Cipher::Aes256gcm => String::from_str("aes256gcm"),
            Cipher::Chapoly => String::from_str("chapoly"),
        }
    }

    /// Looks a cipher up by its identifier; the match is exact and case-sensitive.
    pub fn resolve(tag: &str) -> (r: Result<Cipher, UnknownCipherError>)
        ensures
            tag@ == tag_of(Cipher::Aes256gcm) ==> r == Ok::<Cipher, UnknownCipherError>(
                Cipher::Aes256gcm,
            ),
            tag@ == tag_of(Cipher::Chapoly) ==> r == Ok::<Cipher, UnknownCipherError>(
                Cipher::Chapoly,
            ),
            r matches Ok(c) ==> tag_of(c) == tag@,
            r matches Err(e) ==> e.tag@ == tag@,
            r is Err <==> (forall|c: Cipher| tag_of(c) != tag@),
    {
        proof {
            reveal_strlit("aes256gcm");
            reveal_strlit("chapoly");
            assert(tag_of(Cipher::Aes256gcm).len() != tag_of(Cipher::Chapoly).len());
        }
        if same_text(tag, "aes256gcm") {
            assert(tag_of(Cipher::Aes256gcm) == tag@);
            Ok(Cipher::Aes256gcm)
        } else if same_text(tag, "chapoly") {
            assert(tag_of(Cipher::Chapoly) == tag@);
            Ok(Cipher::Chapoly)
        } else {
            proof {
                assert forall|c: Cipher| tag_of(c) != tag@ by {
                    match c {
                        Cipher::Aes256gcm => {},
                        Cipher::Chapoly => {},
                    }
                }
            }
            Err(UnknownCipherError { tag: String::from_str(tag) })
        }
    }
}

/// Distinct ciphers have distinct identifiers, so looking up the identifier of
/// a cipher gives that cipher back.
pub proof fn lemma_tags_distinct(c: Cipher)
    ensures
        forall|d: Cipher| tag_of(d) == tag_of(c) ==> d == c,
{
    reveal_strlit("aes256gcm");
    reveal_strlit("chapoly");
    assert forall|d: Cipher| tag_of(d) == tag_of(c) implies d == c by {
        if d != c {
            assert(tag_of(d).len() != tag_of(c).len());
        }
    }
}

} // verus!
