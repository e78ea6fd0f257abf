//! Entries drawn as a table. The password has no column.

use crate::entry::{AccountEntry, EntryView, ACCOUNT, EMAIL, USERNAME};
use crate::text::owned;
use vstd::prelude::*;

verus! {

/// The text that `tabled` draws for rows of cells, the first row being the
/// header: a grid in the crate's default style.
pub uninterp spec fn table_text(rows: Seq<Seq<Seq<char>>>) -> Seq<char>;

/// `tabled::builder::Builder::from` on rows of cells, `Builder::build` and the
/// table's `to_string`: the drawing is determined by the cells alone.
#[verifier::external_body]
fn draw_table(rows: Vec<Vec<String>>) -> (text: String)
    ensures
        text@ == table_text(rows.deep_view()),
{
    tabled::builder::Builder::from(rows).build().to_string()
}

/// The header of the table: the names of the fields that are shown.
pub open spec fn header_row() -> Seq<Seq<char>> {
    seq![ACCOUNT@, USERNAME@, EMAIL@]
}

/// The cells of one entry: every field but the password.
pub open spec fn entry_row(entry: EntryView) -> Seq<Seq<char>> {
    seq![entry.account, entry.username, entry.email]
}

/// The rows of the table of some entries: the header, then one row for each
/// entry, in order.
pub open spec fn table_rows(entries: Seq<EntryView>) -> Seq<Seq<Seq<char>>> {
    Seq::new(
        entries.len() + 1,
        |i: int|
            if i == 0 {
                header_row()
            } else {
                entry_row(entries[i - 1])
            },
    )
}

/// The table of some entries as text.
pub open spec fn table_of(entries: Seq<EntryView>) -> Seq<char> {
    table_text(table_rows(entries))
}

fn header_cells() -> (cells: Vec<String>)
    ensures
        cells.deep_view() == header_row(),
{
    let mut cells: Vec<String> = Vec::new();
    cells.push(owned(ACCOUNT));
    cells.push(owned(USERNAME));
    cells.push(owned(EMAIL));
    assert(cells.deep_view() =~= header_row());
    cells
}

fn entry_cells(entry: &AccountEntry) -> (cells: Vec<String>)
    ensures
        cells.deep_view() == entry_row(entry@),
{
    let mut cells: Vec<String> = Vec::new();
    cells.push(entry.account.clone());
    cells.push(entry.username.clone());
    cells.push(entry.email.clone());
    assert(cells.deep_view() =~= entry_row(entry@));
    cells
}

/// The table of the entries: a header and one row for each entry, with the
/// account, the user name and the e-mail address.
pub fn render_table(entries: &Vec<AccountEntry>) -> (text: String)
    ensures
        text@ == table_of(entries.deep_view()),
{
    let mut rows: Vec<Vec<String>> = Vec::new();
    rows.push(header_cells());
    let mut i: usize = 0;
    while i < entries.len()
        invariant
            i <= entries.len(),
            rows.len() == i + 1,
            rows@[0].deep_view() == header_row(),
            forall|j: int| 0 < j <= i ==> (#[trigger] rows@[j]).deep_view() == entry_row(
                entries@[j - 1]@,
            ),
        decreases entries.len() - i,
    {
        rows.push(entry_cells(&entries[i]));
        i += 1;
    }
    assert(rows.deep_view() =~= table_rows(entries.deep_view()));
    draw_table(rows)
}

/// The table of a single entry.
pub fn render_entry(entry: &AccountEntry) -> (text: String)
    ensures
        text@ == table_of(seq![entry@]),
{
    let mut rows: Vec<Vec<String>> = Vec::new();
    rows.push(header_cells());
    rows.push(entry_cells(entry));
    assert(rows.deep_view() =~= table_rows(seq![entry@]));
    draw_table(rows)
}

} // verus!
