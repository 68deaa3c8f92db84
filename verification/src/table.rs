//! The table: its records, and its layout with rounded borders.

use crate::container::{row_views, DisplayRow, DisplayRowView};
use vstd::prelude::*;
use vstd::string::StringExecFns;

verus! {

/// The heading of the table: one cell for each column, in display order.
pub open spec fn header_cells() -> Seq<Seq<char>> {
    seq!["id"@, "image"@, "name"@, "command"@, "created"@, "status"@, "ports"@]
}

/// The cells of one row, in the order of the heading.
pub open spec fn row_cells(row: DisplayRowView) -> Seq<Seq<char>> {
    seq![row.id, row.image, row.name, row.command, row.created, row.status, row.ports]
}

/// The records of the table: the heading, then one record for each row, in
/// the order of the rows.
pub open spec fn table_records(rows: Seq<DisplayRowView>) -> Seq<Seq<Seq<char>>> {
    seq![header_cells()] + Seq::new(rows.len(), |i: int| row_cells(rows[i]))
}

/// A table has one record more than it has rows: the heading comes first,
/// and each row follows at its own place.
pub proof fn lemma_table_records_shape(rows: Seq<DisplayRowView>)
    ensures
        table_records(rows).len() == rows.len() + 1,
        table_records(rows)[0] == header_cells(),
        forall|i: int| 0 <= i < rows.len() ==> #[trigger] table_records(rows)[i + 1] == row_cells(rows[i]),
        forall|k: int| 0 <= k < table_records(rows).len() ==> #[trigger] table_records(rows)[k].len() == 7,
{
    assert forall|k: int| 0 <= k < table_records(rows).len() implies #[trigger] table_records(
        rows,
    )[k].len() == 7 by {}
}

/// The text that `tabled` lays out for a list of records, the first of which
/// is the heading, in its rounded style.
pub uninterp spec fn rounded_table(records: Seq<Seq<Seq<char>>>) -> Seq<char>;

/// Builds a `tabled::Table` from the records with `tabled::builder::Builder`,
/// gives it `tabled::settings::Style::rounded` and writes it out. The text is
/// a function of the records alone; it is known here only by its name.
#[verifier::external_body]
fn render_rounded(records: Vec<Vec<String>>) -> (text: String)
    ensures
        text@ == rounded_table(records.deep_view()),
{
    let mut table = tabled::builder::Builder::from(records).build();
    table.with(tabled::settings::Style::rounded());
    table.to_string()
}

fn header_record() -> (record: Vec<String>)
    ensures
        record.deep_view() == header_cells(),
{
    let mut record: Vec<String> = Vec::new();
    record.push(String::from_str("id"));
    record.push(String::from_str("image"));
    record.push(String::from_str("name"));
    record.push(String::from_str("command"));
    record.push(String::from_str("created"));
    record.push(String::from_str("status"));
    record.push(String::from_str("ports"));
    record
}

fn row_record(row: &DisplayRow) -> (record: Vec<String>)
    ensures
        record.deep_view() == row_cells(row@),
{
    let mut record: Vec<String> = Vec::new();
    record.push(row.id.clone());
    record.push(row.image.clone());
    record.push(row.name.clone());
    record.push(row.command.clone());
    record.push(row.created.clone());
    record.push(row.status.clone());
    record.push(row.ports.clone());
    record
}

/// Lists the records of the table for the given rows: the heading first,
/// then every row in order.
pub fn records_of(rows: &Vec<DisplayRow>) -> (records: Vec<Vec<String>>)
    ensures
        records.deep_view() == table_records(row_views(rows@)),
{
    let ghost views = row_views(rows@);
    let mut records: Vec<Vec<String>> = Vec::new();
    records.push(header_record());
    let mut i: usize = 0;
    while i < rows.len()
        invariant
            i <= rows.len(),
            views == row_views(rows@),
            records.deep_view() =~= table_records(views.take(i as int)),
        decreases rows.len() - i,
    {
        let ghost before = records.deep_view();
        records.push(row_record(&rows[i]));
        assert(records.deep_view() =~= before.push(row_cells(rows@[i as int]@)));
        i += 1;
    }
    assert(views.take(i as int) =~= views);
    records
}

/// Lays the rows out as a table with rounded borders under the heading
/// `id, image, name, command, created, status, ports`.
pub fn render_table(rows: &Vec<DisplayRow>) -> (text: String)
    ensures
        text@ == rounded_table(table_records(row_views(rows@))),
{
    render_rounded(records_of(rows))
}

} // verus!
