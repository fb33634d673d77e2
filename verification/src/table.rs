//! Tables of text, laid out by the `tabled` crate.

use tabled::builder::Builder;
use tabled::settings::Style;
use vstd::prelude::*;

use crate::lines::{joined_lines, lines};
use crate::text::blanks;

verus! {

/// `tabled`'s builder, which collects the records of a table.
#[verifier::external_type_specification]
#[verifier::external_body]
pub struct ExBuilder(tabled::builder::Builder);

/// The records that a builder has collected, each a sequence of cells.
pub uninterp spec fn table_records(builder: Builder) -> Seq<Seq<Seq<char>>>;

/// The number of cells to which a builder fills up a shorter record.
pub uninterp spec fn table_columns(builder: Builder) -> nat;

/// What `tabled` displays for a table of the given records in the style that
/// draws no lines.
pub uninterp spec fn table_text(records: Seq<Seq<Seq<char>>>) -> Seq<char>;

/// Whether all records have as many cells as `columns` says.
pub open spec fn uniform(records: Seq<Seq<Seq<char>>>, columns: nat) -> bool {
    forall|i: int| 0 <= i < records.len() ==> (#[trigger] records[i]).len() == columns
}

/// One line of a cell, empty where the cell has fewer lines.
pub open spec fn line_of(cell: Seq<char>, k: int) -> Seq<char> {
    if 0 <= k < lines(cell).len() {
        lines(cell)[k]
    } else {
        Seq::empty()
    }
}

/// The number of lines that a record of two cells takes up.
pub open spec fn height(record: Seq<Seq<char>>) -> nat {
    if lines(record[0]).len() > lines(record[1]).len() {
        lines(record[0]).len()
    } else {
        lines(record[1]).len()
    }
}

/// What the lines of a record of two cells hold of either cell.
pub open spec fn record_lines(record: Seq<Seq<char>>) -> Seq<(Seq<char>, Seq<char>)> {
    Seq::new(height(record), |k: int| (line_of(record[0], k), line_of(record[1], k)))
}

/// What the lines of a table of two columns hold of either column.
pub open spec fn table_lines(records: Seq<Seq<Seq<char>>>) -> Seq<(Seq<char>, Seq<char>)>
    decreases records.len(),
{
    if records.len() == 0 {
        Seq::empty()
    } else {
        table_lines(records.drop_last()) + record_lines(records.last())
    }
}

/// A table of two columns: each line is a space, what it holds of the first
/// column, spaces, what it holds of the last column, and spaces.
pub open spec fn laid_out(
    cells: Seq<(Seq<char>, Seq<char>)>,
    gaps: Seq<int>,
    tails: Seq<int>,
) -> Seq<char> {
    joined_lines(
        Seq::new(
            cells.len(),
            |k: int| blanks(1) + cells[k].0 + blanks(gaps[k]) + cells[k].1 + blanks(tails[k]),
        ),
    )
}

/// Whether a text shows the records of two cells, one below the other in their
/// order: each of their lines between spaces, and nothing besides.
pub open spec fn shows(records: Seq<Seq<Seq<char>>>, text: Seq<char>) -> bool {
    exists|gaps: Seq<int>, tails: Seq<int>|
        text == #[trigger] laid_out(table_lines(records), gaps, tails)
}

/// Whether two tables of two columns have the same first column, and last columns
/// whose cells have as many lines in one as in the other.
pub open spec fn same_first_column(a: Seq<Seq<Seq<char>>>, b: Seq<Seq<Seq<char>>>) -> bool {
    &&& uniform(a, 2)
    &&& uniform(b, 2)
    &&& a.len() == b.len()
    &&& forall|i: int|
        0 <= i < a.len() ==> (#[trigger] a[i])[0] == b[i][0] && lines(a[i][1]).len() == lines(
            b[i][1],
        ).len()
}

/// Whether the texts of two tables of two columns have the same first column,
/// and so the same spaces behind it.
pub open spec fn first_column_alike(
    a: Seq<Seq<Seq<char>>>,
    text_a: Seq<char>,
    b: Seq<Seq<Seq<char>>>,
    text_b: Seq<char>,
) -> bool {
    exists|gaps: Seq<int>, tails_a: Seq<int>, tails_b: Seq<int>|
        text_a == #[trigger] laid_out(table_lines(a), gaps, tails_a) && text_b
            == #[trigger] laid_out(table_lines(b), gaps, tails_b)
}

/// `Builder::default` makes a builder that has neither records nor columns.
#[verifier::external_body]
fn new_builder() -> (builder: Builder)
    ensures
        table_records(builder) == Seq::<Seq<Seq<char>>>::empty(),
        table_columns(builder) == 0,
{
    Builder::default()
}

/// `Builder::push_record` adds a record behind the others. A record of the
/// builder's own width changes nothing else, and neither does the first record
/// of a builder without columns, which sets the width.
#[verifier::external_body]
fn push_record(builder: &mut Builder, record: Vec<String>)
    requires
        record@.len() == table_columns(*old(builder)) || (table_columns(*old(builder)) == 0
            && table_records(*old(builder)).len() == 0),
    ensures
        table_records(*final(builder)) == table_records(*old(builder)).push(record.deep_view()),
        table_columns(*final(builder)) == record@.len(),
{
    builder.push_record(record);
}

/// `Builder::build`, then `Table::with` the style `Style::empty()`, then the
/// table's `Display`, in a `tabled` built without its feature `ansi`: the text
/// depends on the records alone. Of a table of two
/// columns it is known that a cell's lines are shown as they are, from the top and
/// from the left, with a space before each column and filled up with spaces
/// behind it, and that the first column is filled up to a width that the last
/// column has no part in. How many spaces that takes, by the display width of the
/// cells, is left to the name.
#[verifier::external_body]
fn render(builder: Builder) -> (text: String)
    requires
        uniform(table_records(builder), table_columns(builder)),
    ensures
        text@ == table_text(table_records(builder)),
        forall|other: Seq<Seq<Seq<char>>>|
            same_first_column(table_records(builder), other) ==> first_column_alike(
                table_records(builder),
                text@,
                other,
                #[trigger] table_text(other),
            ),
{
    let mut table = builder.build();
    table.with(Style::empty());
    table.to_string()
}

/// Lays out `rows` as a table without lines.
pub(crate) fn layout(rows: Vec<Vec<String>>, columns: usize) -> (text: String)
    requires
        uniform(rows.deep_view(), columns as nat),
    ensures
        text@ == table_text(rows.deep_view()),
        forall|other: Seq<Seq<Seq<char>>>|
            same_first_column(rows.deep_view(), other) ==> first_column_alike(
                rows.deep_view(),
                text@,
                other,
                #[trigger] table_text(other),
            ),
{
    let ghost all = rows.deep_view();
    let mut builder = new_builder();
    assert(all.take(0) =~= Seq::<Seq<Seq<char>>>::empty());
    for row in iter: rows
        invariant
            iter.seq() == rows@,
            all == rows.deep_view(),
            uniform(all, columns as nat),
            table_records(builder) == all.take(iter.index()),
            table_columns(builder) == if iter.index() == 0 {
                0
            } else {
                columns as nat
            },
    {
        assert(row.deep_view() == all[iter.index()]);
        assert(all.take(iter.index() + 1) =~= all.take(iter.index()).push(all[iter.index()]));
        push_record(&mut builder, row);
    }
    assert(all.take(all.len() as int) =~= all);
    render(builder)
}

} // verus!
