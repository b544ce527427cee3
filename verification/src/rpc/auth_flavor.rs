//! Authentication flavors.

use vstd::prelude::*;

verus! {

pub const AUTH_NONE: u32 = 0;

/// Unix-style credentials.
pub const AUTH_SYS: u32 = 1;

pub const AUTH_SHORT: u32 = 2;

pub const AUTH_DES: u32 = 3;

pub const RPCSEC_GSS: u32 = 6;

} // verus!
