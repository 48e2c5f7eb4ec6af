//! Core-protocol identifier types referenced by the extension modules. On
//! the wire each is a 32-bit resource identifier.

use vstd::prelude::*;

verus! {

pub type Window = u32;

pub type Drawable = u32;

pub type Gcontext = u32;

pub type Atom = u32;

pub type Timestamp = u32;

pub type Visualid = u32;

} // verus!
