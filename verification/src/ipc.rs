//! Connection logic: the version handshake, command framing, and the
//! monitor-list query with its capability fallback.
//!
//! The protocol runs over one byte stream with no message identifiers,
//! so the surrounding application owns the transport and must keep at
//! most one exchange in flight per connection; the functions here decide
//! every byte that is written and give a meaning to every byte that is
//! read.

use vstd::arithmetic::div_mod::lemma_fundamental_div_mod_converse_div;
use vstd::prelude::*;

use crate::bytebuf::{bytes_content, bytes_len, bytes_slice};
use crate::endian::{
    be_i32_at, be_u32_at, decode_i32_be, encode_i32_be, encode_u32_be, i32_be_bytes, u32_be_bytes,
};
use crate::ipc_spec::{
    command_code, monitor_of, spec_fullscreen, truncate_to_known, IpcCommands, IpcError,
    IpcXabCapabilities, Monitor, MONITOR_RECORD_LEN,
};
use crate::IPC_PROTO_VERSION;

verus! {

/// The verdict of the version exchange: accept on an exact match,
/// otherwise a mismatch error carrying both version numbers.
pub open spec fn handshake_verdict(server: i32) -> Result<(), IpcError> {
    if server == IPC_PROTO_VERSION {
        Ok(())
    } else {
        Err(IpcError::VersionMismatch { server, client: IPC_PROTO_VERSION })
    }
}

/// First handshake step. Takes the 4 bytes read from the server
/// (its protocol version, big-endian signed) and returns the 4 bytes the
/// client must write back — its own fixed version, sent unconditionally,
/// whether or not the versions match — together with the verdict. On a
/// mismatch verdict the caller must shut the transport down in both
/// directions and abort construction without reading capabilities.
pub fn handshake_version_reply(server_version: &Vec<u8>) -> (r: (Vec<u8>, Result<(), IpcError>))
    requires
        server_version@.len() == 4,
    ensures
        r.0@ == i32_be_bytes(IPC_PROTO_VERSION),
        r.1 == handshake_verdict(be_i32_at(server_version@, 0)),
{
    let v = decode_i32_be(server_version[0], server_version[1], server_version[2], server_version[3]);
    let reply = encode_i32_be(IPC_PROTO_VERSION);
    if v == IPC_PROTO_VERSION {
        (reply, Ok(()))
    } else {
        (reply, Err(IpcError::VersionMismatch { server: v, client: IPC_PROTO_VERSION }))
    }
}

/// A mismatched server version is always rejected, and the error
/// reports both sides' versions; no handle can be built from it.
pub proof fn lemma_mismatch_rejected(server: i32)
    requires
        server != IPC_PROTO_VERSION,
    ensures
        handshake_verdict(server) == Err::<(), IpcError>(
            IpcError::VersionMismatch { server, client: IPC_PROTO_VERSION },
        ),
{
}

/// A matching server version is always accepted.
pub proof fn lemma_match_accepted()
    ensures
        handshake_verdict(IPC_PROTO_VERSION) == Ok::<(), IpcError>(()),
{
}

/// The 4 bytes that carry a raw command word on the wire.
pub fn encode_command_word(commands: u32) -> (r: Vec<u8>)
    ensures
        r@ == u32_be_bytes(commands),
{
    encode_u32_be(commands)
}

/// The 4 bytes that carry a command identifier on the wire:
/// its signed code, big-endian.
pub fn encode_command(command: IpcCommands) -> (r: Vec<u8>)
    ensures
        r@ == i32_be_bytes(command_code(command)),
{
    encode_i32_be(command.code())
}

/// A query reply as the server's wire behaviour means it: a zero-length
/// payload is "no data for this query", anything else is data.
pub fn classify_response(payload: bytes::Bytes) -> (r: Option<bytes::Bytes>)
    ensures
        bytes_content(payload).len() == 0 ==> r is None,
        bytes_content(payload).len() > 0 ==> (r matches Some(b) && bytes_content(b)
            == bytes_content(payload)),
{
    if bytes_len(&payload) == 0 {
        None
    } else {
        Some(payload)
    }
}

/// The records a payload densely packs at 21-byte strides, stopping at
/// the last full group; a trailing partial group is silently dropped.
pub open spec fn monitor_list_of(s: Seq<u8>) -> Seq<Monitor>
    decreases s.len(),
{
    if s.len() < 21 {
        Seq::empty()
    } else {
        seq![monitor_of(s)] + monitor_list_of(s.skip(21))
    }
}

/// Records are read from the first 21 bytes alone, so equal prefixes
/// decode to equal records.
proof fn lemma_monitor_of_prefix(s1: Seq<u8>, s2: Seq<u8>)
    requires
        s1.len() >= 21,
        s2.len() >= 21,
        forall|j: int| 0 <= j < 21 ==> s1[j] == s2[j],
    ensures
        monitor_of(s1) == monitor_of(s2),
{
}

/// A buffer of length 21 * N + R with 0 <= R < 21 decodes to exactly
/// N records; the trailing R bytes change nothing.
pub proof fn lemma_monitor_list_len(s: Seq<u8>)
    ensures
        monitor_list_of(s).len() == s.len() / 21,
    decreases s.len(),
{
    if s.len() < 21 {
        lemma_fundamental_div_mod_converse_div(s.len() as int, 21, 0, s.len() as int);
    } else {
        lemma_monitor_list_len(s.skip(21));
        let q = (s.len() - 21) / 21;
        lemma_fundamental_div_mod_converse_div(s.len() - 21, 21, q, (s.len() - 21) - q * 21);
        lemma_fundamental_div_mod_converse_div(s.len() as int, 21, q + 1, (s.len() - 21) - q * 21);
    }
}

/// The record at position `i` of the decoded list is the one read from
/// bytes 21 * i up to 21 * i + 21.
pub proof fn lemma_monitor_list_index(s: Seq<u8>, i: int)
    requires
        0 <= i < monitor_list_of(s).len(),
    ensures
        21 * i + 21 <= s.len(),
        monitor_list_of(s)[i] == monitor_of(s.subrange(21 * i, 21 * i + 21)),
    decreases i,
{
    lemma_monitor_list_len(s);
    vstd::arithmetic::div_mod::lemma_fundamental_div_mod(s.len() as int, 21);
    vstd::arithmetic::div_mod::lemma_mod_bound(s.len() as int, 21);
    if i == 0 {
        lemma_monitor_of_prefix(s, s.subrange(0, 21));
    } else {
        lemma_monitor_list_index(s.skip(21), i - 1);
        assert(s.skip(21).subrange(21 * (i - 1), 21 * (i - 1) + 21) =~= s.subrange(
            21 * i,
            21 * i + 21,
        ));
    }
}

/// Decode a payload as a dense sequence of 21-byte records. Never
/// fails: a buffer of length 21 * N + R (0 <= R < 21) yields exactly
/// N records and the trailing R bytes are ignored.
pub fn decode_monitor_list(bytes: &bytes::Bytes) -> (r: Vec<Monitor>)
    ensures
        r@ == monitor_list_of(bytes_content(*bytes)),
        r@.len() == bytes_content(*bytes).len() / 21,
{
    let s = Ghost(bytes_content(*bytes));
    let n = bytes_len(bytes);
    let mut out: Vec<Monitor> = Vec::new();
    let mut i: usize = 0;
    proof {
        assert(s@.skip(0) =~= s@);
        assert(out@ + monitor_list_of(s@) =~= monitor_list_of(s@));
    }
    while n - i >= MONITOR_RECORD_LEN
        invariant
            i <= n,
            n == s@.len(),
            s@ == bytes_content(*bytes),
            monitor_list_of(s@) == out@ + monitor_list_of(s@.skip(i as int)),
        decreases n - i,
    {
        let chunk = bytes_slice(bytes, i, i + MONITOR_RECORD_LEN);
        let m = Monitor::from_bytes(&chunk).unwrap();
        proof {
            let tail = s@.skip(i as int);
            assert forall|j: int| 0 <= j < 21 implies bytes_content(chunk)[j] == tail[j] by {}
            lemma_monitor_of_prefix(bytes_content(chunk), tail);
            assert(tail.skip(21) =~= s@.skip(i + 21));
            assert(out@ + monitor_list_of(tail) =~= (out@ + seq![m]) + monitor_list_of(
                s@.skip(i + 21),
            ));
        }
        out.push(m);
        i = i + MONITOR_RECORD_LEN;
    }
    proof {
        assert(monitor_list_of(s@.skip(i as int)) =~= Seq::<Monitor>::empty());
        assert(out@ =~= out@ + Seq::<Monitor>::empty());
        lemma_monitor_list_len(s@);
    }
    out
}

/// What the monitor-list helper decides from the negotiated
/// capabilities alone, before any transport traffic.
pub enum MonitorsPlan {
    /// The server lacks multi-monitor support: the result is this
    /// synthetic single-record list and nothing is written to the
    /// transport.
    Fallback(Vec<Monitor>),
    /// The server supports it: these command bytes must be sent and the
    /// reply handed to `IpcHandle::monitors_from_payload`.
    Query(Vec<u8>),
}

/// A negotiated connection: the socket path it was opened against and
/// the capability set read once at handshake time, immutable afterward.
/// The handle is usable from construction until `close`; the transport
/// stream itself stays with the caller, which must serialize exchanges.
pub struct IpcHandle {
    pub path: String,
    pub capabilities: IpcXabCapabilities,
    pub connected: bool,
}

impl IpcHandle {
    /// Whether the handle may still send commands.
    pub open spec fn is_open(self) -> bool {
        self.connected
    }

    /// Final handshake step, to be taken only after
    /// `handshake_version_reply` accepted the server's version: decodes
    /// the 4 capability bytes with truncate-unknown-bits semantics and
    /// delivers the open handle. Construction never yields a handle in
    /// any other way, so no partially-negotiated handle exists.
    pub fn new(path: String, capability_bytes: &Vec<u8>) -> (h: IpcHandle)
        requires
            capability_bytes@.len() == 4,
        ensures
            h.path@ == path@,
            h.capabilities.bits == truncate_to_known(be_u32_at(capability_bytes@, 0)),
            h.capabilities.wf(),
            h.is_open(),
    {
        let word = crate::endian::decode_u32_be(
            capability_bytes[0],
            capability_bytes[1],
            capability_bytes[2],
            capability_bytes[3],
        );
        let capabilities = IpcXabCapabilities::from_bits_truncate(word);
        IpcHandle { path, capabilities, connected: true }
    }

    /// Whether the handle is still open; after `close` it refuses use.
    pub fn is_connected(&self) -> (r: bool)
        ensures
            r == self.is_open(),
    {
        self.connected
    }

    /// Close the connection: the handle leaves the open state and the
    /// returned bytes — the ClientDisconnect command word — must be
    /// written to the transport, which is then to be shut down in both
    /// directions. Not idempotent: the handle cannot be closed twice.
    pub fn close(&mut self) -> (r: Vec<u8>)
        requires
            old(self).is_open(),
        ensures
            r@ == i32_be_bytes(command_code(IpcCommands::ClientDisconnect)),
            !final(self).is_open(),
            final(self).path@ == old(self).path@,
            final(self).capabilities == old(self).capabilities,
    {
        self.connected = false;
        encode_command(IpcCommands::ClientDisconnect)
    }

    /// The monitor-list helper's decision. With multi-monitor support
    /// absent the result is exactly one record, the fullscreen sentinel,
    /// and no protocol traffic is called for; with it present, the
    /// GetMonitors command bytes are to be sent.
    pub fn get_monitors(&self) -> (r: MonitorsPlan)
        requires
            self.is_open(),
        ensures
            !self.capabilities.has_multimonitor() ==> (r matches MonitorsPlan::Fallback(ms)
                && ms@ =~= seq![spec_fullscreen()]),
            self.capabilities.has_multimonitor() ==> (r matches MonitorsPlan::Query(cmd) && cmd@
                == i32_be_bytes(command_code(IpcCommands::GetMonitors))),
    {
        if self.capabilities.contains_multimonitor() {
            MonitorsPlan::Query(encode_command(IpcCommands::GetMonitors))
        } else {
            let mut ms: Vec<Monitor> = Vec::new();
            ms.push(Monitor::fullscreen());
            proof {
                assert(ms@ =~= seq![spec_fullscreen()]);
            }
            MonitorsPlan::Fallback(ms)
        }
    }

    /// Interpret the reply to a GetMonitors query. A server that
    /// advertised multi-monitor support owes at least one monitor, so an
    /// empty reply is an unexpected-server-behaviour error; any data is
    /// decoded at 21-byte strides, trailing partial bytes dropped.
    pub fn monitors_from_payload(&self, payload: Option<bytes::Bytes>) -> (r: Result<
        Vec<Monitor>,
        IpcError,
    >)
        requires
            self.is_open(),
        ensures
            payload is None ==> r == Err::<Vec<Monitor>, IpcError>(
                IpcError::UnexpectedEmptyResponse,
            ),
            payload matches Some(b) ==> (r matches Ok(ms) && ms@ == monitor_list_of(
                bytes_content(b),
            )),
    {
        match payload {
            Option::None => Err(IpcError::UnexpectedEmptyResponse),
            Option::Some(b) => Ok(decode_monitor_list(&b)),
        }
    }
}

} // verus!
