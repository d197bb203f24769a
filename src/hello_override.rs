//! A hook that rewrites the cipher-suite and extension lists of a ClientHello
//! just before they are sent.
use vstd::prelude::*;
use crate::extension::ClientExtension;
use crate::ids::CipherSuite;

verus! {

/// Rewrites the lists that the handshake built. Each method takes the built
/// list and returns the one to send; by default the list is left as it is.
/// Nothing here checks that the returned lists are legal.
pub trait ClientHelloOverride: Send + Sync + core::fmt::Debug {
    /// Rewrites the cipher suites.
    fn override_cipher_suites(&self, cipher_suites: Vec<CipherSuite>) -> (r: Vec<CipherSuite>)
        default_ensures
            r@ == cipher_suites@,
    {
        cipher_suites
    }

    /// Rewrites the extensions.
    fn override_extensions(&self, extensions: Vec<ClientExtension>) -> (r: Vec<ClientExtension>)
        default_ensures
            r@ == extensions@,
    {
        extensions
    }
}

} // verus!
