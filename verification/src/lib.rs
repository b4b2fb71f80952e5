//! Client-side core of the xab wallpaper daemon's binary IPC protocol:
//! wire-format codecs, the version handshake, capability negotiation,
//! and structured-record decoding.

pub mod bytebuf;
pub mod endian;
pub mod ipc;
pub mod ipc_spec;

use vstd::prelude::*;

verus! {

/// Protocol version this client speaks, fixed at build time and
/// negotiated once per connection.
pub const IPC_PROTO_VERSION: i32 = 1;

/// Well-known default socket path of the daemon; an embedding
/// application may connect elsewhere.
pub const IPC_PATH: &'static str = "/tmp/xab/xab_uds";

} // verus!
