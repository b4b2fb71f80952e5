//! Wire types of the protocol: command identifiers, the capability
//! bitmask, the fixed-layout monitor record, and the client's errors.

use vstd::prelude::*;

use crate::bytebuf::{bytes_content, bytes_at, bytes_len};
use crate::endian::{
    be_i32_at, be_u32_at, decode_i32_be, decode_u32_be, encode_i32_be, encode_u32_be,
    i32_be_bytes, lemma_i32_be_roundtrip, lemma_u32_be_roundtrip, u32_be_bytes,
};

verus! {

/// Everything that can go wrong on the client side of the protocol,
/// one variant per kind so that callers can tell them apart.
#[derive(Debug, Clone, Copy, PartialEq, Eq, Structural)]
pub enum IpcError {
    /// The server spoke a different protocol version; both sides are recorded.
    VersionMismatch { server: i32, client: i32 },
    /// A record decode was handed fewer bytes than the layout needs.
    UndersizedRecord,
    /// The server sent an empty reply where its advertised capabilities
    /// oblige it to send data.
    UnexpectedEmptyResponse,
}

/// The operations of the protocol. Each encodes to a 4-byte big-endian
/// signed integer on the wire; the codes are part of the wire contract.
/// `NoneInvalid` is a reserved negative sentinel used only as a default
/// value and never transmitted.
#[derive(Debug, Clone, Copy, PartialEq, Eq, Structural)]
pub enum IpcCommands {
    NoneInvalid,
    NoneCommand,
    Restart,
    Shutdown,
    ClientDisconnect,
    ChangeBackground,
    DeleteBackground,
    PauseVideo,
    UnpauseVideo,
    TogglePauseVideo,
    GetMonitors,
    GetAllBackgrounds,
    GetCapabilities,
}

/// The wire code of each command.
pub open spec fn command_code(c: IpcCommands) -> i32 {
    match c {
        IpcCommands::NoneInvalid => -1i32,
        IpcCommands::NoneCommand => 0,
        IpcCommands::Restart => 1,
        IpcCommands::Shutdown => 2,
        IpcCommands::ClientDisconnect => 3,
        IpcCommands::ChangeBackground => 4,
        IpcCommands::DeleteBackground => 5,
        IpcCommands::PauseVideo => 6,
        IpcCommands::UnpauseVideo => 7,
        IpcCommands::TogglePauseVideo => 8,
        IpcCommands::GetMonitors => 9,
        IpcCommands::GetAllBackgrounds => 10,
        IpcCommands::GetCapabilities => 11,
    }
}

impl IpcCommands {
    /// The signed 32-bit value this command puts on the wire.
    pub fn code(self) -> (r: i32)
        ensures
            r == command_code(self),
    {
        match self {
            IpcCommands::NoneInvalid => -1,
            IpcCommands::NoneCommand => 0,
            IpcCommands::Restart => 1,
            IpcCommands::Shutdown => 2,
            IpcCommands::ClientDisconnect => 3,
            IpcCommands::ChangeBackground => 4,
            IpcCommands::DeleteBackground => 5,
            IpcCommands::PauseVideo => 6,
            IpcCommands::UnpauseVideo => 7,
            IpcCommands::TogglePauseVideo => 8,
            IpcCommands::GetMonitors => 9,
            IpcCommands::GetAllBackgrounds => 10,
            IpcCommands::GetCapabilities => 11,
        }
    }
}

impl Default for IpcCommands {
    /// The non-sent sentinel is the default value.
    fn default() -> (r: Self)
        ensures
            r == IpcCommands::NoneInvalid,
    {
        IpcCommands::NoneInvalid
    }
}

/// The sentinel's code collides with no transmittable command's code.
pub proof fn lemma_sentinel_never_sent(c: IpcCommands)
    requires
        c != IpcCommands::NoneInvalid,
    ensures
        command_code(c) != command_code(IpcCommands::NoneInvalid),
{
}

/// Bit of the capability word that advertises multi-monitor support.
pub const CAPABILITY_MULTIMONITOR: u32 = 1;

/// All capability bits this client knows; the rest are reserved and
/// silently dropped when decoding.
pub const CAPABILITY_KNOWN_MASK: u32 = CAPABILITY_MULTIMONITOR;

/// A capability word reduced to the bits this client knows.
pub open spec fn truncate_to_known(v: u32) -> u32 {
    v & CAPABILITY_KNOWN_MASK
}

/// The server's feature set, read once at handshake time and immutable
/// afterwards: a fixed-width bitmask decoded with truncate-unknown-bits
/// semantics.
#[derive(Debug, Clone, Copy, PartialEq, Eq, PartialOrd, Ord, Hash, Structural)]
pub struct IpcXabCapabilities {
    pub bits: u32,
}

impl IpcXabCapabilities {
    /// Only known capability bits are ever set.
    pub open spec fn wf(self) -> bool {
        self.bits & CAPABILITY_KNOWN_MASK == self.bits
    }

    /// Whether the server advertised multi-monitor support.
    pub open spec fn has_multimonitor(self) -> bool {
        self.bits & CAPABILITY_MULTIMONITOR == CAPABILITY_MULTIMONITOR
    }

    /// The empty capability set.
    pub fn empty() -> (r: Self)
        ensures
            r.bits == 0,
            r.wf(),
            !r.has_multimonitor(),
    {
        proof {
            assert(0u32 & CAPABILITY_KNOWN_MASK == 0u32) by (bit_vector);
            assert(!(0u32 & CAPABILITY_MULTIMONITOR == CAPABILITY_MULTIMONITOR)) by (bit_vector);
        }
        IpcXabCapabilities { bits: 0 }
    }

    /// The set holding exactly the multi-monitor capability.
    pub fn multimonitor() -> (r: Self)
        ensures
            r.bits == CAPABILITY_MULTIMONITOR,
            r.wf(),
            r.has_multimonitor(),
    {
        proof {
            assert(1u32 & 1u32 == 1u32) by (bit_vector);
        }
        IpcXabCapabilities { bits: CAPABILITY_MULTIMONITOR }
    }

    /// Decode a capability word: bits not mapped to a known capability
    /// are silently dropped, never an error.
    pub fn from_bits_truncate(v: u32) -> (r: Self)
        ensures
            r.bits == truncate_to_known(v),
            r.wf(),
    {
        proof {
            assert((v & CAPABILITY_KNOWN_MASK) & CAPABILITY_KNOWN_MASK == v
                & CAPABILITY_KNOWN_MASK) by (bit_vector);
        }
        IpcXabCapabilities { bits: v & CAPABILITY_KNOWN_MASK }
    }

    /// Whether every capability of `other` is present in `self`.
    pub fn contains(&self, other: Self) -> (r: bool)
        ensures
            r == (self.bits & other.bits == other.bits),
    {
        self.bits & other.bits == other.bits
    }

    /// Whether multi-monitor support was advertised.
    pub fn contains_multimonitor(&self) -> (r: bool)
        ensures
            r == self.has_multimonitor(),
    {
        self.bits & CAPABILITY_MULTIMONITOR == CAPABILITY_MULTIMONITOR
    }
}

impl Default for IpcXabCapabilities {
    /// By default no capability is assumed of the server.
    fn default() -> (r: Self)
        ensures
            r.bits == 0,
            r.wf(),
    {
        proof {
            assert(0u32 & CAPABILITY_KNOWN_MASK == 0u32) by (bit_vector);
        }
        IpcXabCapabilities { bits: 0 }
    }
}

/// Decoding a word with unknown bits set equals decoding the same word
/// with those bits already cleared: truncation is idempotent.
pub proof fn lemma_truncate_idempotent(v: u32)
    ensures
        truncate_to_known(truncate_to_known(v)) == truncate_to_known(v),
{
    assert((v & CAPABILITY_KNOWN_MASK) & CAPABILITY_KNOWN_MASK == v & CAPABILITY_KNOWN_MASK)
        by (bit_vector);
}

/// Number of bytes of one monitor record on the wire.
pub const MONITOR_RECORD_LEN: usize = 21;

/// One output of the server: a fixed-layout record of 21 bytes,
/// big-endian for all multi-byte fields. Width and height of zero are a
/// sentinel meaning "fullscreen, no explicit geometry".
#[derive(Debug, Clone, Copy, PartialEq, Eq, Structural)]
pub struct Monitor {
    pub index: i32,
    pub primary: bool,
    pub x: u32,
    pub y: u32,
    pub width: u32,
    pub height: u32,
}

/// The record the first 21 bytes of a sequence describe: index at
/// offset 0 (signed), primary flag at 4 (zero/nonzero), then x, y,
/// width, height (unsigned), all big-endian.
pub open spec fn monitor_of(s: Seq<u8>) -> Monitor
    recommends
        s.len() >= 21,
{
    Monitor {
        index: be_i32_at(s, 0),
        primary: s[4] != 0,
        x: be_u32_at(s, 5),
        y: be_u32_at(s, 9),
        width: be_u32_at(s, 13),
        height: be_u32_at(s, 17),
    }
}

/// The 21 canonical bytes of a record, with the primary flag written
/// as 1 or 0.
pub open spec fn monitor_bytes(m: Monitor) -> Seq<u8> {
    i32_be_bytes(m.index) + seq![if m.primary { 1u8 } else { 0u8 }] + u32_be_bytes(m.x)
        + u32_be_bytes(m.y) + u32_be_bytes(m.width) + u32_be_bytes(m.height)
}

/// The fullscreen sentinel record.
pub open spec fn spec_fullscreen() -> Monitor {
    Monitor { index: 0, primary: true, x: 0, y: 0, width: 0, height: 0 }
}

impl Monitor {
    /// The fullscreen sentinel: index 0, primary, all geometry fields 0,
    /// produced without any byte decoding. It is the sole element of the
    /// fallback result when the server lacks multi-monitor support.
    pub fn fullscreen() -> (r: Self)
        ensures
            r == spec_fullscreen(),
    {
        Monitor { index: 0, primary: true, x: 0, y: 0, width: 0, height: 0 }
    }

    /// Decode one record from the front of a buffer. Fails if and only
    /// if fewer than 21 bytes are available; extra trailing bytes are
    /// never an error and are not consumed.
    pub fn from_bytes(bytes: &bytes::Bytes) -> (r: Result<Self, IpcError>)
        ensures
            bytes_content(*bytes).len() >= 21 ==> r == Ok::<Monitor, IpcError>(
                monitor_of(bytes_content(*bytes)),
            ),
            bytes_content(*bytes).len() < 21 ==> r == Err::<Monitor, IpcError>(
                IpcError::UndersizedRecord,
            ),
    {
        let n = bytes_len(bytes);
        if n < 21 {
            return Err(IpcError::UndersizedRecord);
        }
        let index = decode_i32_be(
            bytes_at(bytes, 0),
            bytes_at(bytes, 1),
            bytes_at(bytes, 2),
            bytes_at(bytes, 3),
        );
        let primary = bytes_at(bytes, 4) != 0;
        let x = decode_u32_be(
            bytes_at(bytes, 5),
            bytes_at(bytes, 6),
            bytes_at(bytes, 7),
            bytes_at(bytes, 8),
        );
        let y = decode_u32_be(
            bytes_at(bytes, 9),
            bytes_at(bytes, 10),
            bytes_at(bytes, 11),
            bytes_at(bytes, 12),
        );
        let width = decode_u32_be(
            bytes_at(bytes, 13),
            bytes_at(bytes, 14),
            bytes_at(bytes, 15),
            bytes_at(bytes, 16),
        );
        let height = decode_u32_be(
            bytes_at(bytes, 17),
            bytes_at(bytes, 18),
            bytes_at(bytes, 19),
            bytes_at(bytes, 20),
        );
        Ok(Monitor { index, primary, x, y, width, height })
    }

    /// The 21 canonical wire bytes of this record.
    pub fn to_bytes(&self) -> (r: Vec<u8>)
        ensures
            r@ == monitor_bytes(*self),
    {
        let mut out = encode_i32_be(self.index);
        out.push(if self.primary { 1u8 } else { 0u8 });
        let mut bx = encode_u32_be(self.x);
        out.append(&mut bx);
        let mut by = encode_u32_be(self.y);
        out.append(&mut by);
        let mut bw = encode_u32_be(self.width);
        out.append(&mut bw);
        let mut bh = encode_u32_be(self.height);
        out.append(&mut bh);
        proof {
            assert(out@ =~= monitor_bytes(*self));
        }
        out
    }
}

impl Default for Monitor {
    /// The all-zero, non-primary record.
    fn default() -> (r: Self)
        ensures
            r == (Monitor { index: 0, primary: false, x: 0, y: 0, width: 0, height: 0 }),
    {
        Monitor { index: 0, primary: false, x: 0, y: 0, width: 0, height: 0 }
    }
}

/// A record survives the trip through its canonical bytes unchanged,
/// for every combination of field values.
pub proof fn lemma_monitor_roundtrip(m: Monitor)
    ensures
        monitor_bytes(m).len() == 21,
        monitor_of(monitor_bytes(m)) == m,
{
    let s = monitor_bytes(m);
    lemma_i32_be_roundtrip(m.index);
    lemma_u32_be_roundtrip(m.x);
    lemma_u32_be_roundtrip(m.y);
    lemma_u32_be_roundtrip(m.width);
    lemma_u32_be_roundtrip(m.height);
    assert(s.subrange(0, 4) =~= i32_be_bytes(m.index));
    assert(s.subrange(5, 9) =~= u32_be_bytes(m.x));
    assert(s.subrange(9, 13) =~= u32_be_bytes(m.y));
    assert(s.subrange(13, 17) =~= u32_be_bytes(m.width));
    assert(s.subrange(17, 21) =~= u32_be_bytes(m.height));
    assert(monitor_of(s).index == m.index);
    assert(monitor_of(s).primary == m.primary);
    assert(monitor_of(s).x == m.x);
    assert(monitor_of(s).y == m.y);
    assert(monitor_of(s).width == m.width);
    assert(monitor_of(s).height == m.height);
}

} // verus!
