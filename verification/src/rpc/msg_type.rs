//! RPC message types.

use vstd::prelude::*;

verus! {

pub const CALL: u32 = 0;

pub const REPLY: u32 = 1;

} // verus!
