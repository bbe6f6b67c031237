//! Data model: socket records as delivered by the snapshot source, the filter
//! and render configurations, and the display rows the pipeline produces.

use vstd::prelude::*;

verus! {

/// Transport protocol of a socket record.
#[derive(Clone, Copy, PartialEq, Eq, Structural, Debug)]
pub enum Protocol {
    Tcp,
    Udp,
}

/// Address family of a socket's local endpoint.
#[derive(Clone, Copy, PartialEq, Eq, Structural, Debug)]
pub enum AddrFamily {
    V4,
    V6,
}

/// Connection state of a TCP socket, as reported by the snapshot source.
#[derive(Clone, Copy, PartialEq, Eq, Structural, Debug)]
pub enum TcpState {
    Closed,
    Listen,
    SynSent,
    SynReceived,
    Established,
    FinWait1,
    FinWait2,
    CloseWait,
    Closing,
    LastAck,
    TimeWait,
    DeleteTcb,
    Unknown,
}

/// Protocol-specific part of a socket record. A UDP socket is connectionless:
/// it carries no remote endpoint and no connection state.
#[derive(Clone, Debug)]
pub enum ProtocolInfo {
    Tcp { remote_addr: String, remote_port: u16, state: TcpState },
    Udp,
}

/// One entry of the socket snapshot: local endpoint, protocol-specific data,
/// and the ids of the processes the operating system associates with the
/// socket (possibly none, e.g. for kernel-owned sockets).
#[derive(Clone, Debug)]
pub struct SocketRecord {
    pub family: AddrFamily,
    pub local_addr: String,
    pub local_port: u16,
    pub info: ProtocolInfo,
    pub pids: Vec<u32>,
}

impl SocketRecord {
    /// The record's transport protocol.
    pub open spec fn protocol_spec(&self) -> Protocol {
        match self.info {
            ProtocolInfo::Tcp { .. } => Protocol::Tcp,
            ProtocolInfo::Udp => Protocol::Udp,
        }
    }

    /// The record's transport protocol.
    pub fn protocol(&self) -> (p: Protocol)
        ensures
            p == self.protocol_spec(),
    {
        match self.info {
            ProtocolInfo::Tcp { .. } => Protocol::Tcp,
            ProtocolInfo::Udp => Protocol::Udp,
        }
    }
}

/// Which records to keep. Each selector follows the same rule: requesting
/// neither side of a pair (or both sides) leaves that gate unrestricted;
/// requesting exactly one side keeps only matching records. `listening`
/// additionally keeps only TCP sockets in the LISTEN state; UDP sockets,
/// which have no listening state, are excluded while it is on.
#[derive(Clone, Copy, PartialEq, Eq, Structural, Debug)]
pub struct FilterConfig {
    pub tcp: bool,
    pub udp: bool,
    pub ipv4: bool,
    pub ipv6: bool,
    pub listening: bool,
}

impl FilterConfig {
    /// The default configuration: every gate unrestricted.
    pub fn unrestricted() -> (c: FilterConfig)
        ensures
            c == (FilterConfig { tcp: false, udp: false, ipv4: false, ipv6: false, listening: false }),
    {
        FilterConfig { tcp: false, udp: false, ipv4: false, ipv6: false, listening: false }
    }
}

/// How the table is drawn: `compact` drops internal border lines, `ascii`
/// avoids box-drawing glyphs, `color` enables highlighting when the output
/// goes to a terminal, and `numbers` shows the sequence-number column.
#[derive(Clone, Copy, PartialEq, Eq, Structural, Debug)]
pub struct RenderConfig {
    pub compact: bool,
    pub ascii: bool,
    pub color: bool,
    pub numbers: bool,
}

/// One formatted table row. `no` is the 1-based sequence number among the
/// rows that survived filtering. `highlight` marks an established TCP
/// connection for colored rendering.
#[derive(Clone, Debug)]
pub struct DisplayRow {
    pub no: usize,
    pub protocol: String,
    pub local: String,
    pub remote_addr: String,
    pub remote_port: String,
    pub pid_name: String,
    pub state: String,
    pub highlight: bool,
}

/// Mathematical view of a display row: every text field as a character
/// sequence.
#[verifier::ext_equal]
pub struct RowView {
    pub no: nat,
    pub protocol: Seq<char>,
    pub local: Seq<char>,
    pub remote_addr: Seq<char>,
    pub remote_port: Seq<char>,
    pub pid_name: Seq<char>,
    pub state: Seq<char>,
    pub highlight: bool,
}

impl View for DisplayRow {
    type V = RowView;

    open spec fn view(&self) -> RowView {
        RowView {
            no: self.no as nat,
            protocol: self.protocol@,
            local: self.local@,
            remote_addr: self.remote_addr@,
            remote_port: self.remote_port@,
            pid_name: self.pid_name@,
            state: self.state@,
            highlight: self.highlight,
        }
    }
}

} // verus!
