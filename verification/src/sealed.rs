//! The bound that keeps the traits of `code` and `key` closed.

use vstd::prelude::*;

verus! {

/// Implemented in this crate only. A trait that asks for it cannot be
/// implemented elsewhere.
pub trait Sealed {

}

} // verus!
