//! Shared-memory extension identifier referenced by the Xv module.

use vstd::prelude::*;

verus! {

/// A shared-memory segment identifier: a 32-bit resource id on the wire.
pub type Seg = u32;

} // verus!
