//! Row formatter and pipeline: turns the records that survive filtering into
//! display rows with contiguous 1-based sequence numbers, and states the laws
//! the pipeline obeys.

use vstd::prelude::*;
use crate::model::{
    AddrFamily, DisplayRow, FilterConfig, ProtocolInfo, RowView, SocketRecord, TcpState,
};
use crate::names::ProcessNameIndex;
use crate::filter::{keep, keep_spec};
use crate::text::{dec_str, dec_u64, endpoint, endpoint_text, proto_label, proto_label_text,
    state_label, state_label_text};

verus! {

/// The `pid/name` column text: empty when the record has no associated
/// process id or the first id resolved to no name; otherwise the first
/// associated id and its name, joined by a slash.
pub open spec fn pid_name_text(pids: Seq<u32>, names: Map<u32, Seq<char>>) -> Seq<char> {
    if pids.len() == 0 {
        Seq::empty()
    } else if !names.contains_key(pids[0]) {
        Seq::empty()
    } else {
        dec_str(pids[0] as nat) + "/"@ + names[pids[0]]
    }
}

/// The state column text: the state's label for TCP, empty for UDP.
pub open spec fn state_text(r: SocketRecord) -> Seq<char> {
    match r.info {
        ProtocolInfo::Tcp { state, .. } => state_label(state),
        ProtocolInfo::Udp => Seq::empty(),
    }
}

/// Whether the record's state cell is highlighted: exactly the established
/// TCP connections.
pub open spec fn highlighted(r: SocketRecord) -> bool {
    r.info matches ProtocolInfo::Tcp { state, .. } && state == TcpState::Established
}

/// The display row for record `r` under name index `names`, carrying sequence
/// number `no`. A UDP record renders the wildcard marker for both remote
/// columns and an empty state.
pub open spec fn row_view(r: SocketRecord, names: Map<u32, Seq<char>>, no: nat) -> RowView {
    RowView {
        no,
        protocol: proto_label(r.protocol_spec(), r.family),
        local: endpoint_text(r.local_addr@, r.local_port, r.family),
        remote_addr: match r.info {
            ProtocolInfo::Tcp { remote_addr, .. } => remote_addr@,
            ProtocolInfo::Udp => "*"@,
        },
        remote_port: match r.info {
            ProtocolInfo::Tcp { remote_port, .. } => dec_str(remote_port as nat),
            ProtocolInfo::Udp => "*"@,
        },
        pid_name: pid_name_text(r.pids@, names),
        state: state_text(r),
        highlight: highlighted(r),
    }
}

/// Builds the `pid/name` column text for `r`.
fn pid_name(r: &SocketRecord, idx: &ProcessNameIndex) -> (s: String)
    ensures
        s@ == pid_name_text(r.pids@, idx@),
{
    if r.pids.len() == 0 {
        String::new()
    } else {
        let p: u32 = r.pids[0];
        match idx.lookup(p) {
            None => String::new(),
            Some(name) => {
                let mut s = dec_u64(p as u64);
                s.append("/");
                s.append(name.as_str());
                s
            },
        }
    }
}

/// Formats one kept record as the row with sequence number `no`.
pub fn format_row(r: &SocketRecord, idx: &ProcessNameIndex, no: usize) -> (row: DisplayRow)
    ensures
        row@ == row_view(*r, idx@, no as nat),
{
    let protocol = proto_label_text(r.protocol(), r.family);
    let local = endpoint(&r.local_addr, r.local_port, r.family);
    let pid_name = pid_name(r, idx);
    match &r.info {
        ProtocolInfo::Tcp { remote_addr, remote_port, state } => DisplayRow {
            no,
            protocol,
            local,
            remote_addr: remote_addr.clone(),
            remote_port: dec_u64(*remote_port as u64),
            pid_name,
            state: state_label_text(*state),
            highlight: *state == TcpState::Established,
        },
        ProtocolInfo::Udp => DisplayRow {
            no,
            protocol,
            local,
            remote_addr: String::from_str("*"),
            remote_port: String::from_str("*"),
            pid_name,
            state: String::new(),
            highlight: false,
        },
    }
}

/// The views of a sequence of display rows.
pub open spec fn views(rows: Seq<DisplayRow>) -> Seq<RowView> {
    rows.map_values(|r: DisplayRow| r@)
}

/// The rows the pipeline produces for snapshot `s`: the records that survive
/// filtering, in snapshot order, numbered contiguously from 1.
pub open spec fn rows_spec(s: Seq<SocketRecord>, names: Map<u32, Seq<char>>, c: FilterConfig)
    -> Seq<RowView>
    decreases s.len(),
{
    if s.len() == 0 {
        Seq::empty()
    } else {
        let rest = rows_spec(s.drop_last(), names, c);
        if keep_spec(s.last(), c) {
            rest.push(row_view(s.last(), names, rest.len() + 1))
        } else {
            rest
        }
    }
}

/// Runs the pipeline: filters the snapshot and formats the survivors, with
/// sequence numbers assigned only to rows that appear.
pub fn build_rows(snapshot: &Vec<SocketRecord>, idx: &ProcessNameIndex, c: &FilterConfig)
    -> (rows: Vec<DisplayRow>)
    ensures
        views(rows@) == rows_spec(snapshot@, idx@, *c),
        rows@.len() <= snapshot@.len(),
{
    let mut rows: Vec<DisplayRow> = Vec::new();
    let mut i: usize = 0;
    while i < snapshot.len()
        invariant
            i <= snapshot@.len(),
            rows@.len() <= i,
            views(rows@) == rows_spec(snapshot@.take(i as int), idx@, *c),
        decreases snapshot@.len() - i,
    {
        let rec = &snapshot[i];
        proof {
            assert(snapshot@.take(i + 1).drop_last() =~= snapshot@.take(i as int));
            assert(snapshot@.take(i + 1).last() == snapshot@[i as int]);
        }
        if keep(rec, c) {
            let no: usize = rows.len() + 1;
            let row = format_row(rec, idx, no);
            rows.push(row);
            proof {
                assert(views(rows@) =~= rows_spec(snapshot@.take(i + 1), idx@, *c));
            }
        } else {
            proof {
                assert(views(rows@) =~= rows_spec(snapshot@.take(i + 1), idx@, *c));
            }
        }
        i = i + 1;
    }
    proof {
        assert(snapshot@.take(snapshot@.len() as int) =~= snapshot@);
    }
    rows
}

/// Whether the record's address texts are single lines, as every rendered IP
/// address is.
pub open spec fn record_line_ok(r: SocketRecord) -> bool {
    &&& crate::text::line_ok(r.local_addr@)
    &&& (r.info matches ProtocolInfo::Tcp { remote_addr, .. }
        ==> crate::text::line_ok(remote_addr@))
}

/// Whether every name of the index is a single line, as every process name
/// is.
pub open spec fn names_line_ok(names: Map<u32, Seq<char>>) -> bool {
    forall|p: u32| names.contains_key(p) ==> crate::text::line_ok(#[trigger] names[p])
}

/// Law: sequence numbers are exactly 1, 2, 3, ... across the rows that pass
/// filtering — position `k` always carries number `k + 1`, so filtered-out
/// records leave no gap.
pub proof fn lemma_row_numbers(s: Seq<SocketRecord>, names: Map<u32, Seq<char>>, c: FilterConfig)
    ensures
        forall|k: int| 0 <= k < rows_spec(s, names, c).len()
            ==> (#[trigger] rows_spec(s, names, c)[k]).no == k + 1,
    decreases s.len(),
{
    if s.len() == 0 {
    } else {
        lemma_row_numbers(s.drop_last(), names, c);
        let rest = rows_spec(s.drop_last(), names, c);
        assert forall|k: int| 0 <= k < rows_spec(s, names, c).len()
            implies (#[trigger] rows_spec(s, names, c)[k]).no == k + 1 by {
            if k < rest.len() {
                assert(rows_spec(s, names, c)[k] == rest[k]);
            }
        }
    }
}

/// Law: with every selector unrestricted, no record is dropped — the row
/// count equals the snapshot's record count.
pub proof fn lemma_unrestricted_keeps_all(
    s: Seq<SocketRecord>,
    names: Map<u32, Seq<char>>,
    c: FilterConfig,
)
    requires
        c.tcp == c.udp,
        c.ipv4 == c.ipv6,
        !c.listening,
    ensures
        rows_spec(s, names, c).len() == s.len(),
    decreases s.len(),
{
    if s.len() == 0 {
    } else {
        lemma_unrestricted_keeps_all(s.drop_last(), names, c);
    }
}

/// Law: a UDP record's row renders the wildcard marker for the remote address
/// and port and an empty, never-highlighted state, whatever the name index
/// and sequence number; filtering plays no part in the row's content.
pub proof fn lemma_udp_row(r: SocketRecord, names: Map<u32, Seq<char>>, no: nat)
    requires
        r.info is Udp,
    ensures
        row_view(r, names, no).remote_addr == "*"@,
        row_view(r, names, no).remote_port == "*"@,
        row_view(r, names, no).state == Seq::<char>::empty(),
        !row_view(r, names, no).highlight,
{
}

/// Law: the local endpoint of an IPv6 record is bracketed — the text opens
/// with `[` and the address is followed by `]:` and the port — while an IPv4
/// record's text is the bare address, `:`, and the port.
pub proof fn lemma_local_endpoint(r: SocketRecord, names: Map<u32, Seq<char>>, no: nat)
    ensures
        r.family == AddrFamily::V6 ==> row_view(r, names, no).local
            == "["@ + r.local_addr@ + "]:"@ + dec_str(r.local_port as nat),
        r.family == AddrFamily::V6 ==> row_view(r, names, no).local[0] == '[',
        r.family == AddrFamily::V4 ==> row_view(r, names, no).local
            == r.local_addr@ + ":"@ + dec_str(r.local_port as nat),
{
    reveal_strlit("[");
}

/// Law: every row of the pipeline's output is the formatted view of some
/// record of the snapshot that passed filtering, carrying its position in the
/// output as its sequence number.
pub proof fn lemma_rows_from_records(
    s: Seq<SocketRecord>,
    names: Map<u32, Seq<char>>,
    c: FilterConfig,
)
    ensures
        forall|k: int| 0 <= k < rows_spec(s, names, c).len()
            ==> exists|i: int| 0 <= i < s.len() && #[trigger] keep_spec(s[i], c)
                && #[trigger] rows_spec(s, names, c)[k]
                    == row_view(s[i], names, (k + 1) as nat),
    decreases s.len(),
{
    if s.len() == 0 {
    } else {
        lemma_rows_from_records(s.drop_last(), names, c);
        lemma_row_numbers(s, names, c);
        let rest = rows_spec(s.drop_last(), names, c);
        assert forall|k: int| 0 <= k < rows_spec(s, names, c).len()
            implies exists|i: int| 0 <= i < s.len() && #[trigger] keep_spec(s[i], c)
                && #[trigger] rows_spec(s, names, c)[k]
                    == row_view(s[i], names, (k + 1) as nat) by {
            if k < rest.len() {
                let i = choose|i: int| 0 <= i < s.drop_last().len()
                    && #[trigger] keep_spec(s.drop_last()[i], c)
                    && rest[k] == row_view(s.drop_last()[i], names, (k + 1) as nat);
                assert(s.drop_last()[i] == s[i]);
                assert(rows_spec(s, names, c)[k] == rest[k]);
                assert(keep_spec(s[i], c));
            } else {
                let i = s.len() - 1;
                assert(keep_spec(s[i], c));
                assert(rows_spec(s, names, c)[k] == row_view(s[i], names, (k + 1) as nat));
            }
        }
    }
}

/// Law: the pipeline is a function of the snapshot, the name index and the
/// configuration alone — two runs over the same inputs produce the same rows.
pub proof fn lemma_rows_deterministic(
    s: Seq<SocketRecord>,
    names: Map<u32, Seq<char>>,
    c: FilterConfig,
    r1: Seq<RowView>,
    r2: Seq<RowView>,
)
    requires
        r1 == rows_spec(s, names, c),
        r2 == rows_spec(s, names, c),
    ensures
        r1 == r2,
{
}

} // verus!
