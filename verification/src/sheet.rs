//! Sheets and the two blocks of rows that a report shows of each.

use vstd::prelude::*;
use vstd::slice::slice_subrange;
use crate::text::rows_text;

verus! {

/// A named grid of cell texts: rows in sheet order, cells in column order.
#[derive(Debug, PartialEq, Eq)]
pub struct Sheet {
    pub name: String,
    pub rows: Vec<Vec<String>>,
}

impl Sheet {
    /// The text of every cell, row by row.
    pub open spec fn cells(&self) -> Seq<Seq<Seq<char>>> {
        rows_text(self.rows@)
    }

    /// A sheet called `name` that holds `rows`.
    pub fn new(name: String, rows: Vec<Vec<String>>) -> (sheet: Sheet)
        ensures
            sheet.name == name,
            sheet.rows == rows,
    {
        Sheet { name, rows }
    }

    /// The number of rows.
    pub fn row_count(&self) -> (n: usize)
        ensures
            n == self.cells().len(),
    {
        self.rows.len()
    }
}

/// Where the header block ends: after `header_rows` rows, or at the end of a
/// sheet that has fewer.
pub open spec fn header_end(row_count: nat, header_rows: nat) -> nat {
    if header_rows <= row_count {
        header_rows
    } else {
        row_count
    }
}

/// Where the sample block ends: `sample_rows` rows after the header block, or
/// at the end of a sheet that has fewer.
pub open spec fn sample_end(row_count: nat, header_rows: nat, sample_rows: nat) -> nat {
    if header_rows + sample_rows <= row_count {
        header_rows + sample_rows
    } else {
        row_count
    }
}

/// The header block: the leading `header_rows` rows, all rows where the sheet
/// has fewer.
pub open spec fn header_block(rows: Seq<Seq<Seq<char>>>, header_rows: nat) -> Seq<Seq<Seq<char>>> {
    rows.take(header_end(rows.len(), header_rows) as int)
}

/// The sample block: up to `sample_rows` rows that follow the header block
/// immediately.
pub open spec fn sample_block(rows: Seq<Seq<Seq<char>>>, header_rows: nat, sample_rows: nat) -> Seq<
    Seq<Seq<char>>,
> {
    rows.subrange(
        header_end(rows.len(), header_rows) as int,
        sample_end(rows.len(), header_rows, sample_rows) as int,
    )
}

/// The row indices at which the header block and the sample block end.
pub fn block_ends(row_count: usize, header_rows: usize, sample_rows: usize) -> (ends: (usize, usize))
    ensures
        ends.0 == header_end(row_count as nat, header_rows as nat),
        ends.1 == sample_end(row_count as nat, header_rows as nat, sample_rows as nat),
        ends.0 <= ends.1 <= row_count,
{
    let first: usize = if header_rows <= row_count {
        header_rows
    } else {
        row_count
    };
    let second: usize = if sample_rows <= row_count - first {
        first + sample_rows
    } else {
        row_count
    };
    (first, second)
}

/// The header block of `rows`.
pub fn header_rows_of(rows: &[Vec<String>], header_rows: usize) -> (block: &[Vec<String>])
    ensures
        rows_text(block@) == header_block(rows_text(rows@), header_rows as nat),
{
    let ends = block_ends(rows.len(), header_rows, 0);
    let block = slice_subrange(rows, 0, ends.0);
    block
}

/// The sample block of `rows`.
pub fn sample_rows_of(rows: &[Vec<String>], header_rows: usize, sample_rows: usize) -> (block: &[Vec<
    String,
>])
    ensures
        rows_text(block@) == sample_block(
            rows_text(rows@),
            header_rows as nat,
            sample_rows as nat,
        ),
{
    let ends = block_ends(rows.len(), header_rows, sample_rows);
    let block = slice_subrange(rows, ends.0, ends.1);
    block
}

/// A sheet with at least `header_rows + sample_rows` rows shows exactly
/// `sample_rows` sample rows, and the `k`-th of them is the sheet's row
/// `header_rows + k`, cell for cell.
pub proof fn lemma_full_sample_block(rows: Seq<Seq<Seq<char>>>, header_rows: nat, sample_rows: nat)
    requires
        rows.len() >= header_rows + sample_rows,
    ensures
        sample_block(rows, header_rows, sample_rows).len() == sample_rows,
        forall|k: int|
            0 <= k < sample_rows ==> #[trigger] sample_block(rows, header_rows, sample_rows)[k]
                == rows[header_rows + k],
{
}

/// Whatever the sheet's size, the sample block holds the rows that follow the
/// header block, in order, and as many of them as there are, up to `sample_rows`.
pub proof fn lemma_sample_block_rows(rows: Seq<Seq<Seq<char>>>, header_rows: nat, sample_rows: nat)
    ensures
        header_block(rows, header_rows).len() == header_end(rows.len(), header_rows),
        sample_block(rows, header_rows, sample_rows).len() == sample_end(
            rows.len(),
            header_rows,
            sample_rows,
        ) - header_end(rows.len(), header_rows),
        sample_block(rows, header_rows, sample_rows).len() <= sample_rows,
        forall|k: int|
            0 <= k < header_block(rows, header_rows).len() ==> #[trigger] header_block(
                rows,
                header_rows,
            )[k] == rows[k],
        forall|k: int|
            0 <= k < sample_block(rows, header_rows, sample_rows).len() ==> #[trigger] sample_block(
                rows,
                header_rows,
                sample_rows,
            )[k] == rows[header_end(rows.len(), header_rows) + k],
{
}

/// A sheet without rows has an empty header block and an empty sample block.
pub proof fn lemma_blocks_of_empty_sheet(header_rows: nat, sample_rows: nat)
    ensures
        header_block(Seq::empty(), header_rows) == Seq::<Seq<Seq<char>>>::empty(),
        sample_block(Seq::empty(), header_rows, sample_rows) == Seq::<Seq<Seq<char>>>::empty(),
{
    let rows = Seq::<Seq<Seq<char>>>::empty();
}

} // verus!
