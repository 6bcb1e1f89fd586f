//! The trusted boundary around `secrecy`.
//!
//! The credential secret is kept in a `secrecy` holder, so that nothing
//! reads it by accident (its `Debug` form is redacted and its memory is
//! wiped on drop) and every read is an explicit call.  `secrecy`'s
//! holder is generic over a `zeroize` bound that the verifier cannot
//! take, so the holder sits in a field of an opaque struct here.  The
//! characters it wraps are given a name, and the two functions that move
//! a value in and out are trusted to agree on it.

use vstd::prelude::*;

use secrecy::ExposeSecret;

verus! {

/// An opaque holder for the credential secret, wrapping
/// `secrecy::SecretString`.
#[verifier::external_body]
pub struct SecretHolder {
    inner: secrecy::SecretString,
}

/// The characters a secret holder wraps.
pub uninterp spec fn secret_chars(s: SecretHolder) -> Seq<char>;

/// Relies on `secrecy::Secret::new`: the holder wraps exactly the given
/// value.
#[verifier::external_body]
pub(crate) fn new_secret(s: String) -> (r: SecretHolder)
    ensures
        secret_chars(r) == s@,
{
    SecretHolder { inner: secrecy::Secret::new(s) }
}

/// Relies on `secrecy::ExposeSecret::expose_secret` for `Secret`: the
/// wrapped value comes back exactly, at an explicit point of use.
#[verifier::external_body]
pub(crate) fn expose_secret(s: &SecretHolder) -> (r: &String)
    ensures
        r@ == secret_chars(*s),
{
    s.inner.expose_secret()
}

} // verus!
