//! Supervillains, their sidekicks and the help they enlist.
//!
//! A [`Supervillain`] has a name, a key and at most one [`Sidekick`]. It
//! conspires, which may cost it the sidekick; it sends a [`Henchman`] to
//! build headquarters where the sidekick has found a weak target, and to do
//! the hard things and fight; it tells the sidekick its plans through a
//! [`Cipher`]; and it fires a megaweapon.
//!
//! What a supervillain and a sidekick are is stated over their views, which
//! hold texts in place of strings. Henchmen, ciphers and megaweapons come
//! from whoever uses the crate: each says in one relation of its own what its
//! methods do, and the contracts here are stated over these relations.

pub mod cipher;
pub mod gadget;
pub mod henchman;
pub mod sidekick;
pub mod supervillain;
pub mod text;

pub use cipher::Cipher;
pub use gadget::Gadget;
pub use henchman::Henchman;
pub use sidekick::Sidekick;
pub use supervillain::Supervillain;
