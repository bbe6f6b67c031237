//! Text building blocks of the row formatter: decimal rendering of numbers,
//! protocol and state labels, and endpoint (`address:port`) text.

use vstd::prelude::*;
use crate::model::{AddrFamily, Protocol, TcpState};

verus! {

/// The decimal digit character for `d` (`0 <= d <= 9`).
pub open spec fn digit_char(d: int) -> char {
    if d == 0 { '0' }
    else if d == 1 { '1' }
    else if d == 2 { '2' }
    else if d == 3 { '3' }
    else if d == 4 { '4' }
    else if d == 5 { '5' }
    else if d == 6 { '6' }
    else if d == 7 { '7' }
    else if d == 8 { '8' }
    else { '9' }
}

/// The usual decimal rendering of `n`, without sign or leading zeros
/// (`dec_str(0) == "0"`).
pub open spec fn dec_str(n: nat) -> Seq<char>
    decreases n,
{
    if n < 10 {
        seq![digit_char(n as int)]
    } else {
        dec_str(n / 10).push(digit_char((n % 10) as int))
    }
}

/// The one-character string for the decimal digit `d`.
fn digit_str(d: u64) -> (s: &'static str)
    requires
        d < 10,
    ensures
        s@ == seq![digit_char(d as int)],
{
    proof {
        reveal_strlit("0");
        reveal_strlit("1");
        reveal_strlit("2");
        reveal_strlit("3");
        reveal_strlit("4");
        reveal_strlit("5");
        reveal_strlit("6");
        reveal_strlit("7");
        reveal_strlit("8");
        reveal_strlit("9");
    }
    match d {
        0 => "0",
        1 => "1",
        2 => "2",
        3 => "3",
        4 => "4",
        5 => "5",
        6 => "6",
        7 => "7",
        8 => "8",
        _ => "9",
    }
}

/// Renders `n` in decimal.
pub fn dec_u64(n: u64) -> (r: String)
    ensures
        r@ == dec_str(n as nat),
    decreases n,
{
    if n < 10 {
        String::from_str(digit_str(n))
    } else {
        let mut r = dec_u64(n / 10);
        r.append(digit_str(n % 10));
        r
    }
}

/// Whether `s` is a single line of text: free of line breaks, so that it
/// stays one table cell line.
pub open spec fn line_ok(s: Seq<char>) -> bool {
    !s.contains('\n') && !s.contains('\r')
}

/// A decimal rendering consists of digit characters only, so it is always a
/// single line.
pub proof fn lemma_dec_str_line_ok(n: nat)
    ensures
        line_ok(dec_str(n)),
    decreases n,
{
    if n < 10 {
        assert forall|k: int| 0 <= k < dec_str(n).len() implies dec_str(n)[k] != '\n'
            && dec_str(n)[k] != '\r' by {
            assert(dec_str(n)[k] == digit_char(n as int));
        }
        assert(!dec_str(n).contains('\n'));
        assert(!dec_str(n).contains('\r'));
    } else {
        lemma_dec_str_line_ok(n / 10);
        let prefix = dec_str(n / 10);
        let whole = dec_str(n);
        assert forall|k: int| 0 <= k < whole.len() implies whole[k] != '\n'
            && whole[k] != '\r' by {
            if k < prefix.len() {
                assert(whole[k] == prefix[k]);
                assert(!prefix.contains('\n') && !prefix.contains('\r'));
                if prefix[k] == '\n' {
                    assert(prefix.contains('\n'));
                }
                if prefix[k] == '\r' {
                    assert(prefix.contains('\r'));
                }
            } else {
                assert(whole[k] == digit_char((n % 10) as int));
            }
        }
        assert(!whole.contains('\n'));
        assert(!whole.contains('\r'));
    }
}

/// Joining single-line texts keeps them a single line.
pub proof fn lemma_line_ok_concat(a: Seq<char>, b: Seq<char>)
    requires
        line_ok(a),
        line_ok(b),
    ensures
        line_ok(a + b),
{
    assert forall|k: int| 0 <= k < (a + b).len() implies (a + b)[k] != '\n'
        && (a + b)[k] != '\r' by {
        if k < a.len() {
            assert((a + b)[k] == a[k]);
            if a[k] == '\n' {
                assert(a.contains('\n'));
            }
            if a[k] == '\r' {
                assert(a.contains('\r'));
            }
        } else {
            assert((a + b)[k] == b[k - a.len()]);
            if b[k - a.len()] == '\n' {
                assert(b.contains('\n'));
            }
            if b[k - a.len()] == '\r' {
                assert(b.contains('\r'));
            }
        }
    }
    assert(!(a + b).contains('\n'));
    assert(!(a + b).contains('\r'));
}

/// The protocol column label: `TCP` or `UDP`, with a `6` suffix exactly when
/// the record's family is IPv6.
pub open spec fn proto_label(p: Protocol, fam: AddrFamily) -> Seq<char> {
    match (p, fam) {
        (Protocol::Tcp, AddrFamily::V4) => "TCP"@,
        (Protocol::Tcp, AddrFamily::V6) => "TCP6"@,
        (Protocol::Udp, AddrFamily::V4) => "UDP"@,
        (Protocol::Udp, AddrFamily::V6) => "UDP6"@,
    }
}

/// Builds the protocol column label.
pub fn proto_label_text(p: Protocol, fam: AddrFamily) -> (r: String)
    ensures
        r@ == proto_label(p, fam),
{
    match (p, fam) {
        (Protocol::Tcp, AddrFamily::V4) => String::from_str("TCP"),
        (Protocol::Tcp, AddrFamily::V6) => String::from_str("TCP6"),
        (Protocol::Udp, AddrFamily::V4) => String::from_str("UDP"),
        (Protocol::Udp, AddrFamily::V6) => String::from_str("UDP6"),
    }
}

/// The textual label of a TCP connection state.
pub open spec fn state_label(s: TcpState) -> Seq<char> {
    match s {
        TcpState::Closed => "CLOSED"@,
        TcpState::Listen => "LISTEN"@,
        TcpState::SynSent => "SYN_SENT"@,
        TcpState::SynReceived => "SYN_RCVD"@,
        TcpState::Established => "ESTABLISHED"@,
        TcpState::FinWait1 => "FIN_WAIT_1"@,
        TcpState::FinWait2 => "FIN_WAIT_2"@,
        TcpState::CloseWait => "CLOSE_WAIT"@,
        TcpState::Closing => "CLOSING"@,
        TcpState::LastAck => "LAST_ACK"@,
        TcpState::TimeWait => "TIME_WAIT"@,
        TcpState::DeleteTcb => "DELETE_TCB"@,
        TcpState::Unknown => "__UNKNOWN"@,
    }
}

/// Builds the textual label of a TCP connection state.
pub fn state_label_text(s: TcpState) -> (r: String)
    ensures
        r@ == state_label(s),
{
    match s {
        TcpState::Closed => String::from_str("CLOSED"),
        TcpState::Listen => String::from_str("LISTEN"),
        TcpState::SynSent => String::from_str("SYN_SENT"),
        TcpState::SynReceived => String::from_str("SYN_RCVD"),
        TcpState::Established => String::from_str("ESTABLISHED"),
        TcpState::FinWait1 => String::from_str("FIN_WAIT_1"),
        TcpState::FinWait2 => String::from_str("FIN_WAIT_2"),
        TcpState::CloseWait => String::from_str("CLOSE_WAIT"),
        TcpState::Closing => String::from_str("CLOSING"),
        TcpState::LastAck => String::from_str("LAST_ACK"),
        TcpState::TimeWait => String::from_str("TIME_WAIT"),
        TcpState::DeleteTcb => String::from_str("DELETE_TCB"),
        TcpState::Unknown => String::from_str("__UNKNOWN"),
    }
}

/// The column labels are single lines.
pub proof fn lemma_labels_line_ok(p: Protocol, fam: AddrFamily, s: TcpState)
    ensures
        line_ok(proto_label(p, fam)),
        line_ok(state_label(s)),
{
    reveal_strlit("TCP");
    reveal_strlit("TCP6");
    reveal_strlit("UDP");
    reveal_strlit("UDP6");
    reveal_strlit("CLOSED");
    reveal_strlit("LISTEN");
    reveal_strlit("SYN_SENT");
    reveal_strlit("SYN_RCVD");
    reveal_strlit("ESTABLISHED");
    reveal_strlit("FIN_WAIT_1");
    reveal_strlit("FIN_WAIT_2");
    reveal_strlit("CLOSE_WAIT");
    reveal_strlit("CLOSING");
    reveal_strlit("LAST_ACK");
    reveal_strlit("TIME_WAIT");
    reveal_strlit("DELETE_TCB");
    reveal_strlit("__UNKNOWN");
}

/// The local-endpoint column text: `address:port`, with the address wrapped
/// in brackets when the family is IPv6, so that the embedded colons of an
/// IPv6 literal cannot be mistaken for the port separator.
pub open spec fn endpoint_text(addr: Seq<char>, port: u16, fam: AddrFamily) -> Seq<char> {
    match fam {
        AddrFamily::V4 => addr + ":"@ + dec_str(port as nat),
        AddrFamily::V6 => "["@ + addr + "]:"@ + dec_str(port as nat),
    }
}

/// Builds the local-endpoint column text.
pub fn endpoint(addr: &String, port: u16, fam: AddrFamily) -> (r: String)
    ensures
        r@ == endpoint_text(addr@, port, fam),
{
    match fam {
        AddrFamily::V4 => {
            let mut r = addr.clone();
            r.append(":");
            r.append(dec_u64(port as u64).as_str());
            r
        },
        AddrFamily::V6 => {
            let mut r = String::from_str("[");
            r.append(addr.as_str());
            r.append("]:");
            r.append(dec_u64(port as u64).as_str());
            r
        },
    }
}

} // verus!
