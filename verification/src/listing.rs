//! The listing of the header block: each header row by number, and under it
//! each of its cells by column number.

use vstd::prelude::*;
use vstd::string::*;
use crate::numeral::{decimal_text, push_decimal};
use crate::text::{concat, lemma_concat_ends, lemma_concat_step, texts, rows_text};

verus! {

/// The line for one header cell: `bullet`, then `Column k: value`, where `k`
/// is the cell's column number, counted from 1.
pub open spec fn column_line(bullet: Seq<char>, column: nat, cell: Seq<char>) -> Seq<char> {
    bullet + "Column "@ + decimal_text(column) + ": "@ + cell + "\n"@
}

/// The lines of all cells of one header row, in column order.
pub open spec fn column_lines(bullet: Seq<char>, row: Seq<Seq<char>>) -> Seq<char> {
    concat(Seq::new(row.len(), |j: int| column_line(bullet, (j + 1) as nat, row[j])))
}

/// One header row in the listing: `Row n:`, the lines of its cells, and a
/// blank line.
pub open spec fn listed_row(bullet: Seq<char>, number: nat, row: Seq<Seq<char>>) -> Seq<char> {
    "Row "@ + decimal_text(number) + ":\n"@ + column_lines(bullet, row) + "\n"@
}

/// The listing of a header block: its rows in order, numbered from 1.
pub open spec fn header_listing(bullet: Seq<char>, headers: Seq<Seq<Seq<char>>>) -> Seq<char> {
    concat(Seq::new(headers.len(), |i: int| listed_row(bullet, (i + 1) as nat, headers[i])))
}

/// Appends the lines of the cells of `row`.
pub fn push_column_lines(out: &mut String, bullet: &str, row: &Vec<String>)
    ensures
        final(out)@ == old(out)@ + column_lines(bullet@, texts(row@)),
{
    let ghost start = out@;
    let ghost cells = texts(row@);
    let ghost pieces = Seq::new(
        cells.len(),
        |j: int| column_line(bullet@, (j + 1) as nat, cells[j]),
    );
    let mut j: usize = 0;
    while j < row.len()
        invariant
            j <= row.len(),
            cells == texts(row@),
            pieces == Seq::new(
                cells.len(),
                |j: int| column_line(bullet@, (j + 1) as nat, cells[j]),
            ),
            out@ == start + concat(pieces.take(j as int)),
        decreases row.len() - j,
    {
        out.append(bullet);
        out.append("Column ");
        push_decimal(out, j + 1);
        out.append(": ");
        out.append(row[j].as_str());
        out.append("\n");
        proof {
            lemma_concat_step(pieces, j as int);
        }
        j += 1;
    }
    proof {
        lemma_concat_ends(pieces);
    }
}

/// Appends the listing of the header block `headers`.
pub fn push_header_listing(out: &mut String, bullet: &str, headers: &[Vec<String>])
    ensures
        final(out)@ == old(out)@ + header_listing(bullet@, rows_text(headers@)),
{
    let ghost start = out@;
    let ghost block = rows_text(headers@);
    let ghost pieces = Seq::new(block.len(), |i: int| listed_row(bullet@, (i + 1) as nat, block[i]));
    let mut i: usize = 0;
    while i < headers.len()
        invariant
            i <= headers.len(),
            block == rows_text(headers@),
            pieces == Seq::new(
                block.len(),
                |i: int| listed_row(bullet@, (i + 1) as nat, block[i]),
            ),
            out@ == start + concat(pieces.take(i as int)),
        decreases headers.len() - i,
    {
        let ghost before = out@;
        out.append("Row ");
        push_decimal(out, i + 1);
        out.append(":\n");
        push_column_lines(out, bullet, &headers[i]);
        out.append("\n");
        proof {
            lemma_concat_step(pieces, i as int);
            assert(out@ =~= before + pieces[i as int]);
        }
        i += 1;
    }
    proof {
        lemma_concat_ends(pieces);
    }
}

} // verus!
