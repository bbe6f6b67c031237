//! Table rendering through the `prettytable` crate. The table's contents are
//! tracked abstractly: each cell as its text, its list of style attributes,
//! its alignment and its horizontal span, each row as its sequence of cells.
//! Style codes: 1 green foreground, 2 red foreground, 3 cyan foreground;
//! alignment code 0 is left. Format codes: 0 the crate's default, 1 title
//! separator only, 2 compact (no internal border lines), 3 unicode box
//! drawing. The plain-text rendering ignores styles, so the rendered text is
//! a function of the abstract contents and the format.

use vstd::prelude::*;
use crate::model::{AddrFamily, DisplayRow, FilterConfig, ProtocolInfo, RenderConfig, RowView,
    SocketRecord, TcpState};
use crate::filter::keep_spec;
use crate::rows::{names_line_ok, record_line_ok, row_view, rows_spec, views};
use crate::text::{dec_str, dec_u64, lemma_dec_str_line_ok, lemma_line_ok_concat, line_ok};

verus! {

#[verifier::external_type_specification]
#[verifier::external_body]
pub struct ExTable(prettytable::Table);

#[verifier::external_type_specification]
#[verifier::external_body]
pub struct ExRow(prettytable::Row);

#[verifier::external_type_specification]
#[verifier::external_body]
pub struct ExCell(prettytable::Cell);

/// The contents of a cell: its text (lines joined by a line break), its style
/// attributes as codes, its alignment code, and its horizontal span.
pub uninterp spec fn cell_m(c: prettytable::Cell) -> (Seq<char>, Seq<int>, int, nat);

/// The contents of a row: its cells.
pub uninterp spec fn row_m(r: prettytable::Row) -> Seq<(Seq<char>, Seq<int>, int, nat)>;

/// The body rows a table holds.
pub uninterp spec fn table_rows(t: prettytable::Table) -> Seq<Seq<(Seq<char>, Seq<int>, int, nat)>>;

/// Whether a table has a title row.
pub uninterp spec fn table_has_title(t: prettytable::Table) -> bool;

/// The cells of a table's title row.
pub uninterp spec fn table_title(t: prettytable::Table) -> Seq<(Seq<char>, Seq<int>, int, nat)>;

/// The format a table was given, as a code.
pub uninterp spec fn table_format(t: prettytable::Table) -> int;

/// The text that the plain-text rendering produces for a table with the given
/// title, body rows and format.
pub uninterp spec fn rendered(
    has_title: bool,
    title: Seq<(Seq<char>, Seq<int>, int, nat)>,
    rows: Seq<Seq<(Seq<char>, Seq<int>, int, nat)>>,
    fmt: int,
) -> Seq<char>;

/// A freshly made cell holding `text`, unstyled, left-aligned, single-span.
pub open spec fn plain_cell(text: Seq<char>) -> (Seq<char>, Seq<int>, int, nat) {
    (text, Seq::empty(), 0, 1)
}

/// As `plain_cell`, with one style attribute when `color` is on.
pub open spec fn styled_cell(text: Seq<char>, color: bool, style: int)
    -> (Seq<char>, Seq<int>, int, nat) {
    if color {
        (text, seq![style], 0, 1)
    } else {
        plain_cell(text)
    }
}

/// Relies on prettytable::Cell::new: a left-aligned, single-span, unstyled
/// cell whose content is the text split into lines; for a single-line text
/// the content is the text itself.
#[verifier::external_body]
fn cell_new(s: &str) -> (c: prettytable::Cell)
    ensures
        line_ok(s@) ==> cell_m(c) == plain_cell(s@),
{
    prettytable::Cell::new(s)
}

/// Relies on prettytable::Cell::with_style: appends the attribute to the
/// cell's style list and changes nothing else. Code 1: green foreground.
#[verifier::external_body]
fn cell_green_fg(c: prettytable::Cell) -> (r: prettytable::Cell)
    ensures
        cell_m(r) == (cell_m(c).0, cell_m(c).1.push(1int), cell_m(c).2, cell_m(c).3),
{
    c.with_style(prettytable::Attr::ForegroundColor(prettytable::color::GREEN))
}

/// Relies on prettytable::Cell::with_style, as `cell_green_fg`. Code 2: red
/// foreground.
#[verifier::external_body]
fn cell_red_fg(c: prettytable::Cell) -> (r: prettytable::Cell)
    ensures
        cell_m(r) == (cell_m(c).0, cell_m(c).1.push(2int), cell_m(c).2, cell_m(c).3),
{
    c.with_style(prettytable::Attr::ForegroundColor(prettytable::color::RED))
}

/// Relies on prettytable::Cell::with_style, as `cell_green_fg`. Code 3: cyan
/// foreground.
#[verifier::external_body]
fn cell_cyan_fg(c: prettytable::Cell) -> (r: prettytable::Cell)
    ensures
        cell_m(r) == (cell_m(c).0, cell_m(c).1.push(3int), cell_m(c).2, cell_m(c).3),
{
    c.with_style(prettytable::Attr::ForegroundColor(prettytable::color::CYAN))
}

/// Relies on prettytable::Row::new: a row holding exactly the given cells, in
/// order.
#[verifier::external_body]
fn row_new(cells: Vec<prettytable::Cell>) -> (r: prettytable::Row)
    ensures
        row_m(r) == cells@.map_values(|c: prettytable::Cell| cell_m(c)),
{
    prettytable::Row::new(cells)
}

/// Relies on prettytable::Table::new: an empty table with no title and the
/// crate's default format (code 0).
#[verifier::external_body]
fn table_new() -> (t: prettytable::Table)
    ensures
        table_rows(t) == Seq::<Seq<(Seq<char>, Seq<int>, int, nat)>>::empty(),
        !table_has_title(t),
        table_format(t) == 0int,
{
    prettytable::Table::new()
}

/// Relies on prettytable::Table::set_format with the crate's
/// FORMAT_NO_LINESEP_WITH_TITLE constant (code 1): changes only the format.
#[verifier::external_body]
fn table_format_title_sep(t: &mut prettytable::Table)
    ensures
        table_rows(*final(t)) == table_rows(*old(t)),
        table_has_title(*final(t)) == table_has_title(*old(t)),
        table_title(*final(t)) == table_title(*old(t)),
        table_format(*final(t)) == 1int,
{
    t.set_format(*prettytable::format::consts::FORMAT_NO_LINESEP_WITH_TITLE);
}

/// Relies on prettytable::Table::set_format with the crate's
/// FORMAT_NO_BORDER_LINE_SEPARATOR constant (code 2): changes only the
/// format.
#[verifier::external_body]
fn table_format_compact(t: &mut prettytable::Table)
    ensures
        table_rows(*final(t)) == table_rows(*old(t)),
        table_has_title(*final(t)) == table_has_title(*old(t)),
        table_title(*final(t)) == table_title(*old(t)),
        table_format(*final(t)) == 2int,
{
    t.set_format(*prettytable::format::consts::FORMAT_NO_BORDER_LINE_SEPARATOR);
}

/// Relies on prettytable::Table::set_format with the crate's
/// FORMAT_BOX_CHARS constant (code 3): changes only the format.
#[verifier::external_body]
fn table_format_box(t: &mut prettytable::Table)
    ensures
        table_rows(*final(t)) == table_rows(*old(t)),
        table_has_title(*final(t)) == table_has_title(*old(t)),
        table_title(*final(t)) == table_title(*old(t)),
        table_format(*final(t)) == 3int,
{
    t.set_format(*prettytable::format::consts::FORMAT_BOX_CHARS);
}

/// Relies on prettytable::Table::set_titles: replaces the title row and
/// changes nothing else.
#[verifier::external_body]
fn table_set_titles(t: &mut prettytable::Table, r: prettytable::Row)
    ensures
        table_rows(*final(t)) == table_rows(*old(t)),
        table_has_title(*final(t)),
        table_title(*final(t)) == row_m(r),
        table_format(*final(t)) == table_format(*old(t)),
{
    t.set_titles(r);
}

/// Relies on prettytable::Table::add_row: appends the row to the body and
/// changes nothing else.
#[verifier::external_body]
fn table_add_row(t: &mut prettytable::Table, r: prettytable::Row)
    ensures
        table_rows(*final(t)) == table_rows(*old(t)).push(row_m(r)),
        table_has_title(*final(t)) == table_has_title(*old(t)),
        table_title(*final(t)) == table_title(*old(t)),
        table_format(*final(t)) == table_format(*old(t)),
{
    t.add_row(r);
}

/// Relies on prettytable's Display impl for Table (to_string): the plain-text
/// rendering of the table's title and rows under its format; cell styles are
/// not emitted in this form.
#[verifier::external_body]
fn table_text(t: &prettytable::Table) -> (s: String)
    ensures
        s@ == rendered(table_has_title(*t), table_title(*t), table_rows(*t), table_format(*t)),
{
    t.to_string()
}

/// The title row: the seven column headers, with the sequence-number column
/// present only when `numbers` is on; the number header is red, the others
/// cyan, when `color` is on.
pub open spec fn title_model(c: RenderConfig) -> Seq<(Seq<char>, Seq<int>, int, nat)> {
    let tail = seq![
        styled_cell("Protocol"@, c.color, 3),
        styled_cell("Local Address:Port"@, c.color, 3),
        styled_cell("Remote Address"@, c.color, 3),
        styled_cell("Remote Port"@, c.color, 3),
        styled_cell("PID/Program Name"@, c.color, 3),
        styled_cell("State"@, c.color, 3),
    ];
    if c.numbers {
        seq![styled_cell("No."@, c.color, 2)] + tail
    } else {
        tail
    }
}

/// The cells of one body row: the row's texts in column order, the state cell
/// green when the row is highlighted and `color` is on, the number cell
/// present only when `numbers` is on.
pub open spec fn row_model(v: RowView, c: RenderConfig) -> Seq<(Seq<char>, Seq<int>, int, nat)> {
    let tail = seq![
        plain_cell(v.protocol),
        plain_cell(v.local),
        plain_cell(v.remote_addr),
        plain_cell(v.remote_port),
        plain_cell(v.pid_name),
        styled_cell(v.state, v.highlight && c.color, 1),
    ];
    if c.numbers {
        seq![plain_cell(dec_str(v.no))] + tail
    } else {
        tail
    }
}

/// The body of the table for the pipeline's rows.
pub open spec fn rows_model(rows: Seq<RowView>, c: RenderConfig) -> Seq<Seq<(Seq<char>, Seq<int>, int, nat)>> {
    rows.map_values(|v: RowView| row_model(v, c))
}

/// The format the configuration selects: compact wins, otherwise box drawing
/// unless plain ASCII was asked for.
pub open spec fn fmt_code(c: RenderConfig) -> int {
    if c.compact {
        2
    } else if !c.ascii {
        3
    } else {
        1
    }
}

/// Whether every text of the row is a single line, so that the table model
/// describes its cells exactly.
pub open spec fn row_wf(v: RowView) -> bool {
    line_ok(v.protocol) && line_ok(v.local) && line_ok(v.remote_addr) && line_ok(v.remote_port)
        && line_ok(v.pid_name) && line_ok(v.state)
}

/// Whether every row is well formed.
pub open spec fn rows_wf(rows: Seq<RowView>) -> bool {
    forall|k: int| 0 <= k < rows.len() ==> row_wf(#[trigger] rows[k])
}

/// The full output text for the pipeline's rows under configuration `c`.
pub open spec fn output_text(rows: Seq<RowView>, c: RenderConfig) -> Seq<char> {
    rendered(true, title_model(c), rows_model(rows, c), fmt_code(c))
}

/// Law: the rendering is a function of the rows and the configuration alone —
/// two renderings of the same rows under the same configuration are
/// byte-identical.
pub proof fn lemma_output_deterministic(
    rows: Seq<RowView>,
    c: RenderConfig,
    s1: Seq<char>,
    s2: Seq<char>,
)
    requires
        s1 == output_text(rows, c),
        s2 == output_text(rows, c),
    ensures
        s1 == s2,
{
}

/// A row formatted from a record with single-line address texts under an
/// index of single-line names is well formed: labels, decimal numbers and the
/// wildcard marker are single lines by construction.
pub proof fn lemma_row_view_wf(r: SocketRecord, names: Map<u32, Seq<char>>, no: nat)
    requires
        record_line_ok(r),
        names_line_ok(names),
    ensures
        row_wf(row_view(r, names, no)),
{
    crate::text::lemma_labels_line_ok(r.protocol_spec(), r.family, TcpState::Established);
    lemma_dec_str_line_ok(r.local_port as nat);
    reveal_strlit("[");
    reveal_strlit("]:");
    reveal_strlit(":");
    reveal_strlit("*");
    reveal_strlit("/");
    match r.family {
        AddrFamily::V4 => {
            lemma_line_ok_concat(r.local_addr@, ":"@);
            lemma_line_ok_concat(r.local_addr@ + ":"@, dec_str(r.local_port as nat));
        },
        AddrFamily::V6 => {
            lemma_line_ok_concat("["@, r.local_addr@);
            lemma_line_ok_concat("["@ + r.local_addr@, "]:"@);
            lemma_line_ok_concat("["@ + r.local_addr@ + "]:"@, dec_str(r.local_port as nat));
        },
    }
    match r.info {
        ProtocolInfo::Tcp { remote_port, state, .. } => {
            crate::text::lemma_labels_line_ok(r.protocol_spec(), r.family, state);
            lemma_dec_str_line_ok(remote_port as nat);
        },
        ProtocolInfo::Udp => {},
    }
    let pids = r.pids@;
    if pids.len() > 0 && names.contains_key(pids[0]) {
        lemma_dec_str_line_ok(pids[0] as nat);
        lemma_line_ok_concat(dec_str(pids[0] as nat), "/"@);
        lemma_line_ok_concat(dec_str(pids[0] as nat) + "/"@, names[pids[0]]);
    }
}

/// The whole pipeline output is well formed whenever every record's address
/// texts and every resolved name are single lines, so the rendering contract
/// applies exactly.
pub proof fn lemma_rows_spec_wf(
    s: Seq<SocketRecord>,
    names: Map<u32, Seq<char>>,
    c: FilterConfig,
)
    requires
        forall|i: int| 0 <= i < s.len() ==> record_line_ok(#[trigger] s[i]),
        names_line_ok(names),
    ensures
        rows_wf(rows_spec(s, names, c)),
    decreases s.len(),
{
    if s.len() == 0 {
    } else {
        lemma_rows_spec_wf(s.drop_last(), names, c);
        let rest = rows_spec(s.drop_last(), names, c);
        if keep_spec(s.last(), c) {
            lemma_row_view_wf(s.last(), names, rest.len() + 1);
            assert forall|k: int| 0 <= k < rows_spec(s, names, c).len()
                implies row_wf(#[trigger] rows_spec(s, names, c)[k]) by {
                if k < rest.len() {
                    assert(rows_spec(s, names, c)[k] == rest[k]);
                }
            }
        }
    }
}

/// Builds one styled or plain cell.
fn make_cell(text: &String, styled: bool, style: u8) -> (c: prettytable::Cell)
    requires
        1 <= style <= 3,
    ensures
        line_ok(text@) ==> cell_m(c) == styled_cell(text@, styled, style as int),
{
    let base = cell_new(text.as_str());
    if styled {
        if style == 1 {
            cell_green_fg(base)
        } else if style == 2 {
            cell_red_fg(base)
        } else {
            cell_cyan_fg(base)
        }
    } else {
        base
    }
}

/// Builds the title row.
fn make_title(c: &RenderConfig) -> (r: prettytable::Row)
    ensures
        row_m(r) == title_model(*c),
{
    proof {
        reveal_strlit("No.");
        reveal_strlit("Protocol");
        reveal_strlit("Local Address:Port");
        reveal_strlit("Remote Address");
        reveal_strlit("Remote Port");
        reveal_strlit("PID/Program Name");
        reveal_strlit("State");
    }
    let mut cells: Vec<prettytable::Cell> = Vec::new();
    if c.numbers {
        cells.push(make_cell(&String::from_str("No."), c.color, 2));
    }
    cells.push(make_cell(&String::from_str("Protocol"), c.color, 3));
    cells.push(make_cell(&String::from_str("Local Address:Port"), c.color, 3));
    cells.push(make_cell(&String::from_str("Remote Address"), c.color, 3));
    cells.push(make_cell(&String::from_str("Remote Port"), c.color, 3));
    cells.push(make_cell(&String::from_str("PID/Program Name"), c.color, 3));
    cells.push(make_cell(&String::from_str("State"), c.color, 3));
    proof {
        assert(cells@.map_values(|c: prettytable::Cell| cell_m(c)) =~= title_model(*c));
    }
    row_new(cells)
}

/// Builds the table row for one display row.
fn make_row(row: &DisplayRow, c: &RenderConfig) -> (r: prettytable::Row)
    ensures
        row_wf(row@) ==> row_m(r) == row_model(row@, *c),
{
    proof {
        lemma_dec_str_line_ok(row.no as nat);
    }
    let mut cells: Vec<prettytable::Cell> = Vec::new();
    if c.numbers {
        cells.push(cell_new(dec_u64(row.no as u64).as_str()));
    }
    cells.push(cell_new(row.protocol.as_str()));
    cells.push(cell_new(row.local.as_str()));
    cells.push(cell_new(row.remote_addr.as_str()));
    cells.push(cell_new(row.remote_port.as_str()));
    cells.push(cell_new(row.pid_name.as_str()));
    cells.push(make_cell(&row.state, row.highlight && c.color, 1));
    proof {
        if row_wf(row@) {
            assert(cells@.map_values(|c: prettytable::Cell| cell_m(c)) =~= row_model(row@, *c));
        }
    }
    row_new(cells)
}

/// Builds the full table: title, format, and one body row per display row, in
/// order. The body's abstract contents are exact when every text is a single
/// line, which always holds of rows the pipeline built from single-line
/// addresses and names.
pub fn build_table(rows: &Vec<DisplayRow>, c: &RenderConfig) -> (t: prettytable::Table)
    ensures
        table_has_title(t),
        table_title(t) == title_model(*c),
        table_format(t) == fmt_code(*c),
        rows_wf(views(rows@)) ==> table_rows(t) == rows_model(views(rows@), *c),
{
    let mut t = table_new();
    if c.compact {
        table_format_compact(&mut t);
    } else if !c.ascii {
        table_format_box(&mut t);
    } else {
        table_format_title_sep(&mut t);
    }
    table_set_titles(&mut t, make_title(c));
    let mut i: usize = 0;
    while i < rows.len()
        invariant
            i <= rows@.len(),
            table_has_title(t),
            table_title(t) == title_model(*c),
            table_format(t) == fmt_code(*c),
            rows_wf(views(rows@).take(i as int))
                ==> table_rows(t) == rows_model(views(rows@).take(i as int), *c),
        decreases rows@.len() - i,
    {
        let r = make_row(&rows[i], c);
        table_add_row(&mut t, r);
        proof {
            if rows_wf(views(rows@).take(i + 1)) {
                assert(views(rows@).take(i + 1)[i as int] == rows[i as int]@);
                assert(rows_wf(views(rows@).take(i as int))) by {
                    assert forall|k: int| 0 <= k < i implies
                        row_wf(#[trigger] views(rows@).take(i as int)[k]) by {
                        assert(views(rows@).take(i as int)[k] == views(rows@).take(i + 1)[k]);
                    }
                }
                assert(table_rows(t) =~= rows_model(views(rows@).take(i + 1), *c));
            }
        }
        i = i + 1;
    }
    proof {
        assert(views(rows@).take(rows@.len() as int) =~= views(rows@));
    }
    t
}

/// Renders the pipeline's rows as the final text block.
pub fn render_text(rows: &Vec<DisplayRow>, c: &RenderConfig) -> (s: String)
    ensures
        rows_wf(views(rows@)) ==> s@ == output_text(views(rows@), *c),
{
    let t = build_table(rows, c);
    table_text(&t)
}

} // verus!
