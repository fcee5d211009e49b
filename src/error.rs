use vstd::prelude::*;

verus! {

/// Every way a share can fail; each one ends the run.
#[derive(Debug, PartialEq, Eq)]
pub enum ShareError {
    /// The requested lifetime is not a duration inside the accepted range.
    InvalidDuration,
    /// The cipher identifier names no supported cipher.
    UnknownCipher(String),
    /// The cipher refused to seal the secret.
    CryptoFailure,
    /// The storage service could not be reached or did not accept the secret.
    TransportFailure(String),
    /// The storage service answered without a view URL.
    MissingViewUrl,
    /// The storage service answered with a body that cannot be used.
    MalformedResponse,
    /// A sealed envelope too short to hold its nonce.
    MalformedEnvelope,
}

} // verus!
