//! The plain-text section of a sheet.

use vstd::prelude::*;
use vstd::string::*;
use crate::listing::{header_listing, push_header_listing};
use crate::numeral::{decimal_text, push_decimal};
use crate::sheet::{header_block, header_rows_of, sample_block, sample_rows_of};
use crate::text::{concat, lemma_concat_ends, lemma_concat_step, texts, rows_text};

verus! {

/// A cell within its line: every cell but the first follows a tab.
pub open spec fn tab_cell(j: int, cell: Seq<char>) -> Seq<char> {
    if j == 0 {
        cell
    } else {
        "\t"@ + cell
    }
}

/// One row as a line: its cells separated by tabs, then a line break.
pub open spec fn tab_line(row: Seq<Seq<char>>) -> Seq<char> {
    concat(Seq::new(row.len(), |j: int| tab_cell(j, row[j]))) + "\n"@
}

/// The lines of the rows, in order.
pub open spec fn tab_lines(rows: Seq<Seq<Seq<char>>>) -> Seq<char> {
    concat(Seq::new(rows.len(), |i: int| tab_line(rows[i])))
}

/// The plain-text section of the sheet that is number `ordinal` of the
/// workbook `file`: file name, sheet number and name, the listing of the header
/// block, then the header rows and the sample rows as tab-separated lines.
pub open spec fn plain_section(
    file: Seq<char>,
    ordinal: nat,
    name: Seq<char>,
    rows: Seq<Seq<Seq<char>>>,
    header_rows: nat,
    sample_rows: nat,
) -> Seq<char> {
    "Excel File Name: "@ + file + "\n\n"@ + "Sheet "@ + decimal_text(ordinal) + ":\n"@
        + "Sheet Name: "@ + name + "\n\n"@ + "Headers:\n"@ + header_listing(
        Seq::empty(),
        header_block(rows, header_rows),
    ) + "Sample Data:\n\n"@ + tab_lines(header_block(rows, header_rows)) + tab_lines(
        sample_block(rows, header_rows, sample_rows),
    ) + "\n"@
}

/// Appends `row` as a tab-separated line.
pub fn push_tab_line(out: &mut String, row: &Vec<String>)
    ensures
        final(out)@ == old(out)@ + tab_line(texts(row@)),
{
    let ghost start = out@;
    let ghost cells = texts(row@);
    let ghost pieces = Seq::new(cells.len(), |j: int| tab_cell(j, cells[j]));
    let mut j: usize = 0;
    while j < row.len()
        invariant
            j <= row.len(),
            cells == texts(row@),
            pieces == Seq::new(cells.len(), |j: int| tab_cell(j, cells[j])),
            out@ == start + concat(pieces.take(j as int)),
        decreases row.len() - j,
    {
        if j > 0 {
            out.append("\t");
        }
        out.append(row[j].as_str());
        proof {
            lemma_concat_step(pieces, j as int);
        }
        j += 1;
    }
    out.append("\n");
    proof {
        lemma_concat_ends(pieces);
    }
}

/// Appends each of `rows` as a tab-separated line.
pub fn push_tab_lines(out: &mut String, rows: &[Vec<String>])
    ensures
        final(out)@ == old(out)@ + tab_lines(rows_text(rows@)),
{
    let ghost start = out@;
    let ghost block = rows_text(rows@);
    let ghost pieces = Seq::new(block.len(), |i: int| tab_line(block[i]));
    let mut i: usize = 0;
    while i < rows.len()
        invariant
            i <= rows.len(),
            block == rows_text(rows@),
            pieces == Seq::new(block.len(), |i: int| tab_line(block[i])),
            out@ == start + concat(pieces.take(i as int)),
        decreases rows.len() - i,
    {
        push_tab_line(out, &rows[i]);
        proof {
            lemma_concat_step(pieces, i as int);
        }
        i += 1;
    }
    proof {
        lemma_concat_ends(pieces);
    }
}

/// The plain-text section of a sheet as a text of its own.
pub fn render_plain_section(
    file: &str,
    ordinal: usize,
    name: &str,
    rows: &[Vec<String>],
    header_rows: usize,
    sample_rows: usize,
) -> (text: String)
    ensures
        text@ == plain_section(
            file@,
            ordinal as nat,
            name@,
            rows_text(rows@),
            header_rows as nat,
            sample_rows as nat,
        ),
{
    let headers = header_rows_of(rows, header_rows);
    let sample = sample_rows_of(rows, header_rows, sample_rows);
    proof {
        reveal_strlit("");
        assert(""@ =~= Seq::<char>::empty());
    }
    let mut out = String::new();
    out.append("Excel File Name: ");
    out.append(file);
    out.append("\n\n");
    out.append("Sheet ");
    push_decimal(&mut out, ordinal);
    out.append(":\n");
    out.append("Sheet Name: ");
    out.append(name);
    out.append("\n\n");
    out.append("Headers:\n");
    push_header_listing(&mut out, "", headers);
    out.append("Sample Data:\n\n");
    push_tab_lines(&mut out, headers);
    push_tab_lines(&mut out, sample);
    out.append("\n");
    out
}

} // verus!
