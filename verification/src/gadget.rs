//! Gadgets that a sidekick carries.
use vstd::prelude::*;

verus! {

/// A device that a sidekick is equipped with and that helps it to find weak
/// targets.
pub trait Gadget: Send {
    /// Puts the gadget to use.
    fn do_stuff(&self);
}

} // verus!
