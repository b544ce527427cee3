//! RPC program numbers.

use vstd::prelude::*;

verus! {

pub const PORTMAP: u32 = 100000;

pub const NFS: u32 = 100003;

pub const MOUNT: u32 = 100005;

} // verus!
