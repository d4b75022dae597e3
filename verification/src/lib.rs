//! A ledger of collectible kitties: who owns which kitty, what it costs,
//! and two dense enumerations (of all kitties, and of each owner's kitties)
//! that stay consistent under minting, transfer and purchase.
//!
//! - [`types`]: the values stored, returned and reported.
//! - [`identifier`]: how the identifier of a new kitty is derived.
//! - [`entity_store`], [`ownership`], [`global_enumeration`],
//!   [`owner_enumeration`]: the four tables that make up the ledger.
//! - [`module`]: the ledger and its operations.
//! - [`model`]: the ledger as a mathematical value, which the contracts of
//!   the operations are stated over.
//! - [`laws`]: what is proved of the model.
//!
//! Two calls leave the verified code, both in [`identifier`]: the encoding of
//! the hash input by `parity-codec`, and the BLAKE2b hash by `blake2-rfc`.

pub mod entity_store;
pub mod global_enumeration;
pub mod identifier;
pub mod laws;
pub mod model;
pub mod module;
pub mod owner_enumeration;
pub mod ownership;
pub mod types;

pub use entity_store::Kitties;
pub use global_enumeration::{AllKitties, AllKittiesView};
pub use model::{Call, ModuleView};
pub use module::Module;
pub use owner_enumeration::{OwnedKitties, OwnedKittiesView};
pub use ownership::KittyOwner;
pub use types::{AccountId, Balance, Error, Event, Kitty, KittyId, Payment};
