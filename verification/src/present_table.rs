//! The tabular presenter: one row per record with columns for the core
//! attributes and, when interface statistics were requested, the
//! interface count and the summed byte counters.
//!
//! A record whose interfaces were not collected renders empty-string
//! cells for the interface-derived columns, not zeros: this
//! distinguishes "not collected" from "collected and zero".
//!
//! The cell texts are computed by verified code; the table layout
//! itself is drawn by the `prettytable` crate behind trusted wrappers.

use vstd::prelude::*;
use vstd::string::StringExecFns;
use crate::numfmt::spec_i_dec;
use crate::numfmt::spec_u_dec;
use crate::numfmt::i128_dec;
use crate::numfmt::u64_dec;
use crate::records::DomainOutput;
use crate::records::IfaceStats;

verus! {

/// The sum of the received-byte counters of the collected interfaces.
pub open spec fn spec_rx_sum(fs: Seq<IfaceStats>) -> int
    decreases fs.len(),
{
    if fs.len() == 0 {
        0
    } else {
        spec_rx_sum(fs.drop_last()) + fs.last().rx_bytes
    }
}

/// The sum of the sent-byte counters of the collected interfaces.
pub open spec fn spec_tx_sum(fs: Seq<IfaceStats>) -> int
    decreases fs.len(),
{
    if fs.len() == 0 {
        0
    } else {
        spec_tx_sum(fs.drop_last()) + fs.last().tx_bytes
    }
}

/// The three interface-derived cells of one record: count, summed Rx
/// bytes and summed Tx bytes, or empty strings when the interfaces were
/// not collected.
pub open spec fn spec_iface_cells(o: Option<Vec<IfaceStats>>) -> Seq<Seq<char>> {
    match o {
        Option::None => seq![Seq::empty(), Seq::empty(), Seq::empty()],
        Option::Some(fs) => seq![
            spec_u_dec(fs@.len()),
            spec_i_dec(spec_rx_sum(fs@)),
            spec_i_dec(spec_tx_sum(fs@)),
        ],
    }
}

/// The cells of one record's row, in column order.
pub open spec fn spec_record_cells(r: DomainOutput, want_ifaces: bool) -> Seq<Seq<char>> {
    let core = seq![
        r.name@,
        r.state.spec_label(),
        spec_u_dec(r.memory as nat),
        spec_u_dec(r.max_mem as nat),
        spec_u_dec(r.num_virt_cpus as nat),
        spec_u_dec(r.cpu_time as nat),
    ];
    if want_ifaces {
        core + spec_iface_cells(r.ifaces)
    } else {
        core
    }
}

/// The header row's cells.
pub open spec fn spec_header_cells(want_ifaces: bool) -> Seq<Seq<char>> {
    let core = seq!["Name"@, "State"@, "Memory"@, "Max Memory"@, "Virt. CPUs"@, "CPU Time"@];
    if want_ifaces {
        core + seq!["Interfaces"@, "Bytes Rx"@, "Bytes Tx"@]
    } else {
        core
    }
}

/// The whole table: the header row followed by one row per record, in
/// order.
pub open spec fn spec_table_rows(rs: Seq<DomainOutput>, want_ifaces: bool) -> Seq<Seq<Seq<char>>> {
    seq![spec_header_cells(want_ifaces)] + rs.map_values(
        |r: DomainOutput| spec_record_cells(r, want_ifaces),
    )
}

/// Law: a record whose interfaces were not collected renders
/// empty-string cells for the interface count and the byte totals.
pub proof fn lemma_not_collected_renders_empty(r: DomainOutput)
    requires
        r.ifaces is None,
    ensures
        spec_record_cells(r, true).len() == 9,
        spec_record_cells(r, true)[6] == Seq::<char>::empty(),
        spec_record_cells(r, true)[7] == Seq::<char>::empty(),
        spec_record_cells(r, true)[8] == Seq::<char>::empty(),
{
}

/// Law: a record with collected interfaces renders the interface count
/// and the summed Rx and Tx byte counters.
pub proof fn lemma_collected_renders_totals(r: DomainOutput)
    requires
        r.ifaces is Some,
    ensures
        spec_record_cells(r, true).len() == 9,
        spec_record_cells(r, true)[6] == spec_u_dec(r.ifaces->0@.len()),
        spec_record_cells(r, true)[7] == spec_i_dec(spec_rx_sum(r.ifaces->0@)),
        spec_record_cells(r, true)[8] == spec_i_dec(spec_tx_sum(r.ifaces->0@)),
{
}

/// Sums the received-byte counters. The accumulator is wide enough that
/// no sequence of 64-bit counters can overflow it.
pub fn rx_sum(fs: &Vec<IfaceStats>) -> (s: i128)
    ensures
        s as int == spec_rx_sum(fs@),
{
    let mut sum: i128 = 0;
    let n = fs.len();
    for i in 0..n
        invariant
            n == fs@.len(),
            sum as int == spec_rx_sum(fs@.take(i as int)),
            -((i as int) * 0x8000000000000000) <= sum as int,
            sum as int <= (i as int) * 0x8000000000000000,
    {
        sum = sum + fs[i].rx_bytes as i128;
        proof {
            assert(fs@.take((i + 1) as int).drop_last() =~= fs@.take(i as int));
            assert(fs@.take((i + 1) as int).last() == fs@[i as int]);
        }
    }
    proof {
        assert(fs@.take(n as int) =~= fs@);
    }
    sum
}

/// Sums the sent-byte counters.
pub fn tx_sum(fs: &Vec<IfaceStats>) -> (s: i128)
    ensures
        s as int == spec_tx_sum(fs@),
{
    let mut sum: i128 = 0;
    let n = fs.len();
    for i in 0..n
        invariant
            n == fs@.len(),
            sum as int == spec_tx_sum(fs@.take(i as int)),
            -((i as int) * 0x8000000000000000) <= sum as int,
            sum as int <= (i as int) * 0x8000000000000000,
    {
        sum = sum + fs[i].tx_bytes as i128;
        proof {
            assert(fs@.take((i + 1) as int).drop_last() =~= fs@.take(i as int));
            assert(fs@.take((i + 1) as int).last() == fs@[i as int]);
        }
    }
    proof {
        assert(fs@.take(n as int) =~= fs@);
    }
    sum
}

/// Computes the cells of one record's row.
pub fn record_cells(r: &DomainOutput, want_ifaces: bool) -> (cells: Vec<String>)
    ensures
        cells.deep_view() == spec_record_cells(*r, want_ifaces),
{
    let mut cells: Vec<String> = Vec::new();
    cells.push(r.name.clone());
    cells.push(String::from_str(r.state.label()));
    cells.push(u64_dec(r.memory));
    cells.push(u64_dec(r.max_mem));
    cells.push(u64_dec(r.num_virt_cpus as u64));
    cells.push(u64_dec(r.cpu_time));
    if want_ifaces {
        match &r.ifaces {
            Option::None => {
                cells.push(String::new());
                cells.push(String::new());
                cells.push(String::new());
            },
            Option::Some(fs) => {
                cells.push(u64_dec(fs.len() as u64));
                cells.push(i128_dec(rx_sum(fs)));
                cells.push(i128_dec(tx_sum(fs)));
            },
        }
    }
    proof {
        assert(cells.deep_view() =~= spec_record_cells(*r, want_ifaces));
    }
    cells
}

/// Computes the header row's cells.
pub fn header_cells(want_ifaces: bool) -> (cells: Vec<String>)
    ensures
        cells.deep_view() == spec_header_cells(want_ifaces),
{
    let mut cells: Vec<String> = Vec::new();
    cells.push(String::from_str("Name"));
    cells.push(String::from_str("State"));
    cells.push(String::from_str("Memory"));
    cells.push(String::from_str("Max Memory"));
    cells.push(String::from_str("Virt. CPUs"));
    cells.push(String::from_str("CPU Time"));
    if want_ifaces {
        cells.push(String::from_str("Interfaces"));
        cells.push(String::from_str("Bytes Rx"));
        cells.push(String::from_str("Bytes Tx"));
    }
    proof {
        assert(cells.deep_view() =~= spec_header_cells(want_ifaces));
    }
    cells
}

/// A character sequence with every `"\r\n"` pair replaced by `'\n'`.
pub open spec fn normalize_newlines(s: Seq<char>) -> Seq<char>
    decreases s.len(),
{
    if s.len() == 0 {
        Seq::empty()
    } else if s.len() >= 2 && s[0] == '\r' && s[1] == '\n' {
        seq!['\n'] + normalize_newlines(s.skip(2))
    } else {
        seq![s[0]] + normalize_newlines(s.skip(1))
    }
}

/// The text a table cell stores for a given input: `str::lines` of the
/// input, rejoined with `'\n'`. That is: every `"\r\n"` becomes `'\n'`,
/// and one final line break, if any, is dropped. For the texts this
/// module produces — names, labels and decimal numbers — this is the
/// identity unless the text itself holds a line break.
pub open spec fn cell_display_text(s: Seq<char>) -> Seq<char> {
    let t = normalize_newlines(s);
    if t.len() > 0 && t.last() == '\n' {
        t.drop_last()
    } else {
        t
    }
}

/// One row's cell texts as the table stores them.
pub open spec fn spec_drawn_row(cells: Seq<Seq<char>>) -> Seq<Seq<char>> {
    cells.map_values(|t: Seq<char>| cell_display_text(t))
}

/// The rows' cell texts as the table stores them.
pub open spec fn spec_drawn_rows(rows: Seq<Seq<Seq<char>>>) -> Seq<Seq<Seq<char>>> {
    rows.map_values(|r: Seq<Seq<char>>| spec_drawn_row(r))
}

#[verifier::external_type_specification]
#[verifier::external_body]
pub struct ExTable(prettytable::Table);

#[verifier::external_type_specification]
#[verifier::external_body]
pub struct ExRow(prettytable::Row);

#[verifier::external_type_specification]
#[verifier::external_body]
pub struct ExCell(prettytable::Cell);

/// The text a cell was built to show.
pub uninterp spec fn cell_text(c: prettytable::Cell) -> Seq<char>;

/// The texts of a row's cells, in column order.
pub uninterp spec fn row_cells(r: prettytable::Row) -> Seq<Seq<char>>;

/// The cell texts of a table's rows, in insertion order.
pub uninterp spec fn table_rows(t: prettytable::Table) -> Seq<Seq<Seq<char>>>;

/// The drawn text of a table with the given rows of cell texts. The
/// tables this module builds all use the crate's default format, so
/// their drawn text is a function of the cell texts alone.
pub uninterp spec fn table_text(rows: Seq<Seq<Seq<char>>>) -> Seq<char>;

/// Relies on prettytable::Cell::new: a default-style cell storing
/// `str::lines` of the given text — so the cell's text is the input
/// with `"\r\n"` turned into `'\n'` and one final line break dropped.
#[verifier::external_body]
fn new_cell(s: &str) -> (c: prettytable::Cell)
    ensures
        cell_text(c) == cell_display_text(s@),
{
    prettytable::Cell::new(s)
}

/// Relies on prettytable::Row::empty: a row with no cells.
#[verifier::external_body]
fn new_row() -> (r: prettytable::Row)
    ensures
        row_cells(r) == Seq::<Seq<char>>::empty(),
{
    prettytable::Row::empty()
}

/// Relies on prettytable::Row::add_cell: appends one cell to the row.
#[verifier::external_body]
fn row_add_cell(r: &mut prettytable::Row, c: prettytable::Cell)
    ensures
        row_cells(*final(r)) == row_cells(*old(r)).push(cell_text(c)),
{
    r.add_cell(c)
}

/// Relies on prettytable::Table::new: a table with no rows, using the
/// crate's default format.
#[verifier::external_body]
fn new_table() -> (t: prettytable::Table)
    ensures
        table_rows(t) == Seq::<Seq<Seq<char>>>::empty(),
{
    prettytable::Table::new()
}

/// Relies on prettytable::Table::add_row: appends one row to the table.
#[verifier::external_body]
fn table_add_row(t: &mut prettytable::Table, r: prettytable::Row)
    ensures
        table_rows(*final(t)) == table_rows(*old(t)).push(row_cells(r)),
{
    t.add_row(r);
}

/// Relies on prettytable's Display impl for Table: drawing a table
/// built with the default format, no titles and default-style cells
/// depends on its cell texts alone. Every table this module builds is
/// of that shape, through `new_table` and `table_add_row` only; were a
/// format- or style-changing call ever wrapped as well, this clause
/// would no longer hold as stated.
#[verifier::external_body]
fn table_to_string(t: &prettytable::Table) -> (s: String)
    ensures
        s@ == table_text(table_rows(*t)),
{
    t.to_string()
}

/// Builds a table row from the given cell texts; the table stores each
/// text in its line-split form.
fn row_from_cells(cells: &Vec<String>) -> (r: prettytable::Row)
    ensures
        row_cells(r) == spec_drawn_row(cells.deep_view()),
{
    let mut row = new_row();
    let n = cells.len();
    for i in 0..n
        invariant
            n == cells@.len(),
            row_cells(row) =~= spec_drawn_row(cells.deep_view().take(i as int)),
    {
        let c = new_cell(cells[i].as_str());
        row_add_cell(&mut row, c);
        proof {
            assert(row_cells(row) =~= spec_drawn_row(cells.deep_view().take((i + 1) as int)));
        }
    }
    proof {
        assert(cells.deep_view().take(n as int) =~= cells.deep_view());
    }
    row
}

/// Renders the record set as a drawn table: the header row, then one
/// row per record in order, each cell holding its text in the table's
/// stored (line-split) form.
pub fn render_table(records: &Vec<DomainOutput>, want_ifaces: bool) -> (s: String)
    ensures
        s@ == table_text(spec_drawn_rows(spec_table_rows(records@, want_ifaces))),
{
    let mut t = new_table();
    let hdr = header_cells(want_ifaces);
    let hdr_row = row_from_cells(&hdr);
    table_add_row(&mut t, hdr_row);
    proof {
        assert(table_rows(t) =~= spec_drawn_rows(
            seq![spec_header_cells(want_ifaces)] + records@.take(0int).map_values(
                |r: DomainOutput| spec_record_cells(r, want_ifaces),
            ),
        ));
    }
    let n = records.len();
    for i in 0..n
        invariant
            n == records@.len(),
            table_rows(t) =~= spec_drawn_rows(
                seq![spec_header_cells(want_ifaces)] + records@.take(i as int).map_values(
                    |r: DomainOutput| spec_record_cells(r, want_ifaces),
                ),
            ),
    {
        let cells = record_cells(&records[i], want_ifaces);
        let row = row_from_cells(&cells);
        table_add_row(&mut t, row);
        proof {
            assert(table_rows(t) =~= spec_drawn_rows(
                seq![spec_header_cells(want_ifaces)] + records@.take((i + 1) as int).map_values(
                    |r: DomainOutput| spec_record_cells(r, want_ifaces),
                ),
            ));
        }
    }
    proof {
        assert(records@.take(n as int) =~= records@);
        assert(spec_table_rows(records@, want_ifaces) =~= seq![spec_header_cells(want_ifaces)]
            + records@.map_values(|r: DomainOutput| spec_record_cells(r, want_ifaces)));
    }
    table_to_string(&t)
}

} // verus!
