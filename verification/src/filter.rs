//! Filter engine: decides, record by record, whether a socket appears in the
//! output. The three gates are independent and a record must clear them all.

use vstd::prelude::*;
use crate::model::{FilterConfig, ProtocolInfo, SocketRecord, TcpState, AddrFamily, Protocol};

verus! {

/// Protocol gate: with neither or both of `tcp` and `udp` requested every
/// protocol passes; with exactly one requested only that protocol passes.
pub open spec fn proto_pass(r: SocketRecord, c: FilterConfig) -> bool {
    match r.protocol_spec() {
        Protocol::Tcp => c.tcp || !c.udp,
        Protocol::Udp => c.udp || !c.tcp,
    }
}

/// Address-family gate, under the same "neither or both means unrestricted"
/// rule as the protocol gate.
pub open spec fn family_pass(r: SocketRecord, c: FilterConfig) -> bool {
    match r.family {
        AddrFamily::V4 => c.ipv4 || !c.ipv6,
        AddrFamily::V6 => c.ipv6 || !c.ipv4,
    }
}

/// Listening gate: when listening-only is requested, only TCP sockets in the
/// LISTEN state pass. UDP sockets have no listening state and are excluded
/// under this mode.
pub open spec fn listen_pass(r: SocketRecord, c: FilterConfig) -> bool {
    !c.listening || (r.info matches ProtocolInfo::Tcp { state, .. } && state == TcpState::Listen)
}

/// Whether `r` survives filtering: all three gates must pass. Filtering never
/// looks at the record's process ids; a record nobody owns is kept.
pub open spec fn keep_spec(r: SocketRecord, c: FilterConfig) -> bool {
    proto_pass(r, c) && family_pass(r, c) && listen_pass(r, c)
}

/// Decides whether `r` survives filtering under `c`.
pub fn keep(r: &SocketRecord, c: &FilterConfig) -> (b: bool)
    ensures
        b == keep_spec(*r, *c),
{
    let proto_ok = match r.info {
        ProtocolInfo::Tcp { .. } => c.tcp || !c.udp,
        ProtocolInfo::Udp => c.udp || !c.tcp,
    };
    let family_ok = match r.family {
        AddrFamily::V4 => c.ipv4 || !c.ipv6,
        AddrFamily::V6 => c.ipv6 || !c.ipv4,
    };
    let listen_ok = !c.listening || match r.info {
        ProtocolInfo::Tcp { state, .. } => state == TcpState::Listen,
        ProtocolInfo::Udp => false,
    };
    proto_ok && family_ok && listen_ok
}

} // verus!
