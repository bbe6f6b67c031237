use nrs::model::{AddrFamily, FilterConfig, ProtocolInfo, RenderConfig, SocketRecord, TcpState};
use nrs::names::ProcessNameIndex;
use nrs::rows::build_rows;
use nrs::render::render_text;

fn tcp_rec(
    family: AddrFamily,
    local: &str,
    lport: u16,
    raddr: &str,
    rport: u16,
    state: TcpState,
    pids: Vec<u32>,
) -> SocketRecord {
    SocketRecord {
        family,
        local_addr: local.to_string(),
        local_port: lport,
        info: ProtocolInfo::Tcp { remote_addr: raddr.to_string(), remote_port: rport, state },
        pids,
    }
}

fn udp_rec(family: AddrFamily, local: &str, lport: u16, pids: Vec<u32>) -> SocketRecord {
    SocketRecord {
        family,
        local_addr: local.to_string(),
        local_port: lport,
        info: ProtocolInfo::Udp,
        pids,
    }
}

#[test]
fn established_tcp_v4_row() {
    let snapshot = vec![tcp_rec(
        AddrFamily::V4,
        "127.0.0.1",
        8080,
        "127.0.0.1",
        55321,
        TcpState::Established,
        vec![100],
    )];
    let idx = ProcessNameIndex::from_pairs(vec![(100, "server".to_string())]);
    let rows = build_rows(&snapshot, &idx, &FilterConfig::unrestricted());
    assert_eq!(rows.len(), 1);
    let r = &rows[0];
    assert_eq!(r.no, 1);
    assert_eq!(r.protocol, "TCP");
    assert_eq!(r.local, "127.0.0.1:8080");
    assert_eq!(r.remote_addr, "127.0.0.1");
    assert_eq!(r.remote_port, "55321");
    assert_eq!(r.pid_name, "100/server");
    assert_eq!(r.state, "ESTABLISHED");
    assert!(r.highlight);
}

#[test]
fn udp_v6_row_unresolved_pid() {
    let snapshot = vec![udp_rec(AddrFamily::V6, "::1", 53, vec![])];
    let idx = ProcessNameIndex::empty();
    let rows = build_rows(&snapshot, &idx, &FilterConfig::unrestricted());
    assert_eq!(rows.len(), 1);
    let r = &rows[0];
    assert_eq!(r.protocol, "UDP6");
    assert_eq!(r.local, "[::1]:53");
    assert_eq!(r.remote_addr, "*");
    assert_eq!(r.remote_port, "*");
    assert_eq!(r.pid_name, "");
    assert_eq!(r.state, "");
    assert!(!r.highlight);
}

#[test]
fn listening_only_keeps_listen_state() {
    let snapshot = vec![
        tcp_rec(AddrFamily::V4, "0.0.0.0", 22, "0.0.0.0", 0, TcpState::Listen, vec![1]),
        tcp_rec(AddrFamily::V4, "10.0.0.2", 43210, "1.2.3.4", 443, TcpState::Established, vec![2]),
    ];
    let idx = ProcessNameIndex::empty();
    let mut c = FilterConfig::unrestricted();
    c.listening = true;
    let rows = build_rows(&snapshot, &idx, &c);
    assert_eq!(rows.len(), 1);
    assert_eq!(rows[0].state, "LISTEN");
    assert_eq!(rows[0].no, 1);
}

#[test]
fn listening_only_excludes_udp() {
    let snapshot = vec![
        udp_rec(AddrFamily::V4, "0.0.0.0", 68, vec![]),
        tcp_rec(AddrFamily::V4, "0.0.0.0", 80, "0.0.0.0", 0, TcpState::Listen, vec![]),
    ];
    let idx = ProcessNameIndex::empty();
    let mut c = FilterConfig::unrestricted();
    c.listening = true;
    let rows = build_rows(&snapshot, &idx, &c);
    assert_eq!(rows.len(), 1);
    assert_eq!(rows[0].protocol, "TCP");
}

#[test]
fn udp_only_filter_drops_tcp() {
    let snapshot = vec![
        tcp_rec(AddrFamily::V4, "10.0.0.2", 4000, "1.2.3.4", 443, TcpState::Established, vec![]),
        udp_rec(AddrFamily::V4, "0.0.0.0", 123, vec![]),
        tcp_rec(AddrFamily::V6, "::1", 8080, "::1", 9090, TcpState::CloseWait, vec![]),
        udp_rec(AddrFamily::V6, "::", 5353, vec![]),
    ];
    let idx = ProcessNameIndex::empty();
    let mut c = FilterConfig::unrestricted();
    c.udp = true;
    let rows = build_rows(&snapshot, &idx, &c);
    assert_eq!(rows.len(), 2);
    assert_eq!(rows[0].protocol, "UDP");
    assert_eq!(rows[1].protocol, "UDP6");
    assert_eq!(rows[0].no, 1);
    assert_eq!(rows[1].no, 2);
}

#[test]
fn family_filter_v6_only() {
    let snapshot = vec![
        udp_rec(AddrFamily::V4, "0.0.0.0", 123, vec![]),
        udp_rec(AddrFamily::V6, "::", 5353, vec![]),
    ];
    let idx = ProcessNameIndex::empty();
    let mut c = FilterConfig::unrestricted();
    c.ipv6 = true;
    let rows = build_rows(&snapshot, &idx, &c);
    assert_eq!(rows.len(), 1);
    assert_eq!(rows[0].protocol, "UDP6");
}

#[test]
fn both_protocol_flags_keep_everything() {
    let snapshot = vec![
        tcp_rec(AddrFamily::V4, "10.0.0.2", 4000, "1.2.3.4", 443, TcpState::TimeWait, vec![]),
        udp_rec(AddrFamily::V6, "::", 5353, vec![]),
    ];
    let idx = ProcessNameIndex::empty();
    let mut c = FilterConfig::unrestricted();
    c.tcp = true;
    c.udp = true;
    let rows = build_rows(&snapshot, &idx, &c);
    assert_eq!(rows.len(), 2);
}

#[test]
fn numbers_skip_no_gap() {
    let snapshot = vec![
        udp_rec(AddrFamily::V4, "0.0.0.0", 1, vec![]),
        tcp_rec(AddrFamily::V4, "0.0.0.0", 2, "0.0.0.0", 0, TcpState::Listen, vec![]),
        udp_rec(AddrFamily::V4, "0.0.0.0", 3, vec![]),
        tcp_rec(AddrFamily::V4, "0.0.0.0", 4, "0.0.0.0", 0, TcpState::Listen, vec![]),
        udp_rec(AddrFamily::V4, "0.0.0.0", 5, vec![]),
    ];
    let idx = ProcessNameIndex::empty();
    let mut c = FilterConfig::unrestricted();
    c.udp = true;
    let rows = build_rows(&snapshot, &idx, &c);
    assert_eq!(rows.len(), 3);
    for (k, r) in rows.iter().enumerate() {
        assert_eq!(r.no, k + 1);
        assert_eq!(r.local, format!("0.0.0.0:{}", 2 * k + 1));
    }
}

#[test]
fn unrestricted_counts_match_snapshot() {
    let snapshot = vec![
        tcp_rec(AddrFamily::V4, "10.0.0.2", 4000, "1.2.3.4", 443, TcpState::SynSent, vec![7]),
        udp_rec(AddrFamily::V6, "::", 5353, vec![7, 8]),
        tcp_rec(AddrFamily::V6, "::1", 631, "::1", 0, TcpState::Listen, vec![]),
    ];
    let idx = ProcessNameIndex::empty();
    let rows = build_rows(&snapshot, &idx, &FilterConfig::unrestricted());
    assert_eq!(rows.len(), snapshot.len());
}

#[test]
fn render_is_idempotent() {
    let snapshot = vec![
        tcp_rec(AddrFamily::V4, "127.0.0.1", 8080, "127.0.0.1", 55321, TcpState::Established,
            vec![100]),
        udp_rec(AddrFamily::V6, "::1", 53, vec![]),
    ];
    let idx = ProcessNameIndex::from_pairs(vec![(100, "server".to_string())]);
    let c = RenderConfig { compact: false, ascii: true, color: true, numbers: true };
    let rows1 = build_rows(&snapshot, &idx, &FilterConfig::unrestricted());
    let rows2 = build_rows(&snapshot, &idx, &FilterConfig::unrestricted());
    let out1 = render_text(&rows1, &c);
    let out2 = render_text(&rows2, &c);
    assert_eq!(out1, out2);
}

#[test]
fn empty_snapshot_renders_header_only() {
    let snapshot: Vec<SocketRecord> = Vec::new();
    let idx = ProcessNameIndex::empty();
    let rows = build_rows(&snapshot, &idx, &FilterConfig::unrestricted());
    assert!(rows.is_empty());
    let c = RenderConfig { compact: false, ascii: true, color: false, numbers: true };
    let out = render_text(&rows, &c);
    assert!(out.contains("Protocol"));
    assert!(out.contains("Local Address:Port"));
    assert!(out.contains("State"));
    assert!(!out.contains("TCP"));
    assert!(!out.contains("UDP"));
}
