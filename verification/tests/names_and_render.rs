use nrs::model::{AddrFamily, FilterConfig, ProtocolInfo, RenderConfig, SocketRecord, TcpState};
use nrs::names::{collect_pids, ProcessNameIndex};
use nrs::rows::build_rows;
use nrs::render::{build_table, render_text};
use prettytable::{Attr, Cell, Row, Table};

fn rec(pids: Vec<u32>) -> SocketRecord {
    SocketRecord {
        family: AddrFamily::V4,
        local_addr: "127.0.0.1".to_string(),
        local_port: 80,
        info: ProtocolInfo::Udp,
        pids,
    }
}

#[test]
fn index_lookup_hit_and_miss() {
    let idx = ProcessNameIndex::from_pairs(vec![
        (100, "server".to_string()),
        (200, "client".to_string()),
    ]);
    assert_eq!(idx.lookup(100), Some("server".to_string()));
    assert_eq!(idx.lookup(200), Some("client".to_string()));
    assert_eq!(idx.lookup(300), None);
}

#[test]
fn index_later_pair_wins() {
    let idx = ProcessNameIndex::from_pairs(vec![
        (100, "first".to_string()),
        (100, "second".to_string()),
    ]);
    assert_eq!(idx.lookup(100), Some("second".to_string()));
}

#[test]
fn collect_pids_deduplicates() {
    let snapshot = vec![rec(vec![5, 7]), rec(vec![7, 5, 9]), rec(vec![])];
    let mut pids = collect_pids(&snapshot);
    pids.sort();
    assert_eq!(pids, vec![5, 7, 9]);
}

#[test]
fn first_pid_decides_name_column() {
    let snapshot = vec![rec(vec![7, 9])];
    let idx = ProcessNameIndex::from_pairs(vec![(9, "other".to_string())]);
    let rows = build_rows(&snapshot, &idx, &FilterConfig::unrestricted());
    // pid 7 is first but unresolved, so the column stays empty
    assert_eq!(rows[0].pid_name, "");
}

#[test]
fn rendered_text_carries_cells_through() {
    let snapshot = vec![SocketRecord {
        family: AddrFamily::V4,
        local_addr: "127.0.0.1".to_string(),
        local_port: 8080,
        info: ProtocolInfo::Tcp {
            remote_addr: "10.1.2.3".to_string(),
            remote_port: 443,
            state: TcpState::Established,
        },
        pids: vec![42],
    }];
    let idx = ProcessNameIndex::from_pairs(vec![(42, "web".to_string())]);
    let rows = build_rows(&snapshot, &idx, &FilterConfig::unrestricted());
    let c = RenderConfig { compact: false, ascii: true, color: false, numbers: true };
    let out = render_text(&rows, &c);
    assert!(out.contains("Protocol"));
    assert!(out.contains("TCP"));
    assert!(out.contains("127.0.0.1:8080"));
    assert!(out.contains("10.1.2.3"));
    assert!(out.contains("443"));
    assert!(out.contains("42/web"));
    assert!(out.contains("ESTABLISHED"));
}

#[test]
fn table_matches_directly_built_table() {
    let snapshot = vec![SocketRecord {
        family: AddrFamily::V6,
        local_addr: "::1".to_string(),
        local_port: 53,
        info: ProtocolInfo::Udp,
        pids: vec![],
    }];
    let idx = ProcessNameIndex::empty();
    let rows = build_rows(&snapshot, &idx, &FilterConfig::unrestricted());
    let c = RenderConfig { compact: false, ascii: true, color: true, numbers: true };
    let ours = build_table(&rows, &c).to_string();

    let mut expected = Table::new();
    expected.set_format(*prettytable::format::consts::FORMAT_NO_LINESEP_WITH_TITLE);
    expected.set_titles(Row::new(vec![
        Cell::new("No.").with_style(Attr::ForegroundColor(prettytable::color::RED)),
        Cell::new("Protocol").with_style(Attr::ForegroundColor(prettytable::color::CYAN)),
        Cell::new("Local Address:Port").with_style(Attr::ForegroundColor(prettytable::color::CYAN)),
        Cell::new("Remote Address").with_style(Attr::ForegroundColor(prettytable::color::CYAN)),
        Cell::new("Remote Port").with_style(Attr::ForegroundColor(prettytable::color::CYAN)),
        Cell::new("PID/Program Name").with_style(Attr::ForegroundColor(prettytable::color::CYAN)),
        Cell::new("State").with_style(Attr::ForegroundColor(prettytable::color::CYAN)),
    ]));
    expected.add_row(Row::new(vec![
        Cell::new("1"),
        Cell::new("UDP6"),
        Cell::new("[::1]:53"),
        Cell::new("*"),
        Cell::new("*"),
        Cell::new(""),
        Cell::new(""),
    ]));
    assert_eq!(ours, expected.to_string());
}

#[test]
fn compact_and_box_formats_differ() {
    let rows = Vec::new();
    let ascii = RenderConfig { compact: false, ascii: true, color: false, numbers: true };
    let boxed = RenderConfig { compact: false, ascii: false, color: false, numbers: true };
    let compact = RenderConfig { compact: true, ascii: true, color: false, numbers: true };
    let a = render_text(&rows, &ascii);
    let b = render_text(&rows, &boxed);
    let c = render_text(&rows, &compact);
    assert_ne!(a, b);
    assert_ne!(a, c);
}

#[test]
fn numbers_column_is_optional() {
    let rows = Vec::new();
    let with = RenderConfig { compact: false, ascii: true, color: false, numbers: true };
    let without = RenderConfig { compact: false, ascii: true, color: false, numbers: false };
    assert!(render_text(&rows, &with).contains("No."));
    assert!(!render_text(&rows, &without).contains("No."));
}
