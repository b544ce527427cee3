//! Wire-format encoding for ONC RPC CALL messages: XDR primitives (RFC 4506),
//! RPC call headers and credentials (RFC 5531), and TCP record marking.
//!
//! Every function that writes bytes states, over `Seq<u8>`, exactly which
//! bytes it writes. Nothing here checks that a message conforms to the
//! protocol: the encoder emits whatever it is asked to.

pub mod buf;
pub mod rpc;
pub mod xdr;
