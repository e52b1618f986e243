//! Ciphers that protect what a supervillain tells a sidekick.
use vstd::prelude::*;

verus! {

/// A way to turn a secret and a key into a message that is safe to send.
///
/// Which messages a cipher can make of a secret is for each cipher to say, in
/// `transforms`. Whoever passes a message on states in those terms where it
/// came from.
pub trait Cipher {
    /// Whether `message` is something that `transform` can make of `secret`
    /// under `key`. A cipher that does not say otherwise makes no promise.
    open spec fn transforms(&self, secret: Seq<char>, key: Seq<char>, message: Seq<char>) -> bool {
        true
    }

    /// Enciphers `secret` under `key`.
    fn transform(&self, secret: &str, key: &str) -> (message: String)
        ensures
            self.transforms(secret@, key@, message@),
    ;
}

} // verus!
