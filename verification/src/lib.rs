//! A verified model of a "kitties" pallet: collectible kitties with DNA,
//! ownership, transfer between accounts and breeding of two kitties.
//!
//! The pallet's storage is held in [`pallet::Module`]; each dispatchable call
//! is a verified state transition whose contract is stated over the abstract
//! view [`pallet::KittiesState`].  What a runtime supplies from outside (the
//! outcome of reserving funds, the block number, the random seed) enters the
//! transitions as plain arguments; the runtime performs the reservations
//! between the steps that the calls are split into.
//!
//! - [`dna`]: kitties and the mixing of two parents' DNA.
//! - [`hashing`]: the SCALE-encoded seed and its Blake2 digest.
//! - [`origin`]: call origins and errors.
//! - [`pallet`]: the storage and the calls.
//! - [`runtime`]: what the hosting runtime provides, and the handle that
//!   records every request made of it.
//! - [`consistency`]: every call keeps the storage consistent.
//! - [`laws`]: what holds of the pallet across calls.

pub mod consistency;
pub mod dna;
pub mod hashing;
pub mod laws;
pub mod origin;
pub mod pallet;
pub mod runtime;

pub use dna::{breed_dna, combie_dna, Kitty};
pub use origin::{ensure_signed, DispatchError, Error, Origin};
pub use pallet::{Event, KittiesState, Module};
pub use runtime::{Runtime, RuntimeCall, Trait};
