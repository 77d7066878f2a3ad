//! A container that holds one value for each of a set of key types and hands a
//! value out by naming its key.
//!
//! A key is a marker type that declares which type of value is kept under it.
//! A chain is built by starting from the empty chain [`Empty`] and calling
//! [`RecursiveVariadic::and`] once for each value; the type of the result
//! records the keys in the order in which they were added. A lookup walks the
//! chain from the newest entry to the oldest and stops at the first entry whose
//! key is the one asked for.
//!
//! The contracts speak of a chain through [`RecursiveVariadic::slots`]: the
//! sequence of its entries, newest first, each one an identity of a key paired
//! with the value kept under it, both with their static types forgotten.
//!
//! A chain is searched by the types of its keys, lifetimes included. The
//! identity that the contracts give to a key written outside this crate does
//! not see lifetimes; of such a key they say that what is found is an entry
//! with its identity, and that nothing is found where there is none. The keys
//! of this crate, [`ByType`] and [`Numbered`], are identified by a code that
//! no other key has; of them the contracts say which entry a lookup finds.

pub mod cast;
pub mod code;
pub mod chain;
pub mod erasure;
pub mod key;
pub mod laws;
pub mod lookup;
mod sealed;

pub use chain::{Empty, Entry, RecursiveVariadic};
pub use key::{is_key, ByCode, ByName, ByType, Key, Numbered};
