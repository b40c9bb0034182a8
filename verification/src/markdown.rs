//! The Markdown section of a sheet.

use vstd::prelude::*;
use vstd::string::*;
use crate::listing::{header_listing, push_header_listing};
use crate::numeral::{decimal_text, push_decimal};
use crate::sheet::{header_block, header_rows_of, sample_block, sample_rows_of};
use crate::text::{concat, lemma_concat_ends, lemma_concat_step, texts, rows_text};

verus! {

/// A cell of a table row, closed by the bar that separates it from the next.
pub open spec fn table_cell(cell: Seq<char>) -> Seq<char> {
    " "@ + cell + " |"@
}

/// One table row: a bar, the cells of `row` in order, a line break.
pub open spec fn table_row(row: Seq<Seq<char>>) -> Seq<char> {
    "|"@ + concat(Seq::new(row.len(), |j: int| table_cell(row[j]))) + "\n"@
}

/// The table rows of `rows`, in order.
pub open spec fn table_rows(rows: Seq<Seq<Seq<char>>>) -> Seq<char> {
    concat(Seq::new(rows.len(), |i: int| table_row(rows[i])))
}

/// The cells of the separator row: one `---` for each cell of the first
/// header row, none where the header block is empty.
pub open spec fn separator_cells(headers: Seq<Seq<Seq<char>>>) -> Seq<Seq<char>> {
    if headers.len() == 0 {
        Seq::empty()
    } else {
        Seq::new(headers[0].len(), |j: int| "---"@)
    }
}

/// The Markdown section of the sheet that is number `ordinal` of the workbook
/// `file`: headings for the file and the sheet, the header block as a bulleted
/// listing, then a table of the header rows, the separator row and the sample
/// rows.
pub open spec fn markdown_section(
    file: Seq<char>,
    ordinal: nat,
    name: Seq<char>,
    rows: Seq<Seq<Seq<char>>>,
    header_rows: nat,
    sample_rows: nat,
) -> Seq<char> {
    "# Excel File Name: "@ + file + "\n\n"@ + "## Sheet "@ + decimal_text(ordinal) + ":\n\n"@
        + "### Sheet Name: "@ + name + "\n\n"@ + "### Headers:\n"@ + header_listing(
        "- "@,
        header_block(rows, header_rows),
    ) + "### Sample Data:\n\n"@ + table_rows(header_block(rows, header_rows)) + table_row(
        separator_cells(header_block(rows, header_rows)),
    ) + table_rows(sample_block(rows, header_rows, sample_rows)) + "\n"@
}

/// The separator row has as many cells as the first header row, and each of
/// them is `---`.
pub proof fn lemma_separator_matches_first_header(rows: Seq<Seq<Seq<char>>>, header_rows: nat)
    requires
        header_rows > 0,
        rows.len() > 0,
    ensures
        header_block(rows, header_rows).len() > 0,
        header_block(rows, header_rows)[0] == rows[0],
        separator_cells(header_block(rows, header_rows)).len() == rows[0].len(),
        forall|j: int|
            0 <= j < rows[0].len() ==> #[trigger] separator_cells(
                header_block(rows, header_rows),
            )[j] == "---"@,
{
}

/// Appends `row` as a table row.
pub fn push_table_row(out: &mut String, row: &Vec<String>)
    ensures
        final(out)@ == old(out)@ + table_row(texts(row@)),
{
    let ghost start = out@;
    let ghost cells = texts(row@);
    let ghost pieces = Seq::new(cells.len(), |j: int| table_cell(cells[j]));
    out.append("|");
    let mut j: usize = 0;
    while j < row.len()
        invariant
            j <= row.len(),
            cells == texts(row@),
            pieces == Seq::new(cells.len(), |j: int| table_cell(cells[j])),
            out@ == start + "|"@ + concat(pieces.take(j as int)),
        decreases row.len() - j,
    {
        out.append(" ");
        out.append(row[j].as_str());
        out.append(" |");
        proof {
            lemma_concat_step(pieces, j as int);
        }
        j += 1;
    }
    out.append("\n");
    proof {
        lemma_concat_ends(pieces);
    }
}

/// Appends each of `rows` as a table row.
pub fn push_table_rows(out: &mut String, rows: &[Vec<String>])
    ensures
        final(out)@ == old(out)@ + table_rows(rows_text(rows@)),
{
    let ghost start = out@;
    let ghost block = rows_text(rows@);
    let ghost pieces = Seq::new(block.len(), |i: int| table_row(block[i]));
    let mut i: usize = 0;
    while i < rows.len()
        invariant
            i <= rows.len(),
            block == rows_text(rows@),
            pieces == Seq::new(block.len(), |i: int| table_row(block[i])),
            out@ == start + concat(pieces.take(i as int)),
        decreases rows.len() - i,
    {
        push_table_row(out, &rows[i]);
        proof {
            lemma_concat_step(pieces, i as int);
        }
        i += 1;
    }
    proof {
        lemma_concat_ends(pieces);
    }
}

/// Appends the separator row under the header block `headers`.
pub fn push_separator_row(out: &mut String, headers: &[Vec<String>])
    ensures
        final(out)@ == old(out)@ + table_row(separator_cells(rows_text(headers@))),
{
    let ghost start = out@;
    let ghost marks = separator_cells(rows_text(headers@));
    let ghost pieces = Seq::new(marks.len(), |j: int| table_cell(marks[j]));
    let width: usize = if headers.len() == 0 {
        0
    } else {
        headers[0].len()
    };
    out.append("|");
    let mut j: usize = 0;
    while j < width
        invariant
            j <= width == marks.len(),
            forall|k: int| 0 <= k < marks.len() ==> #[trigger] marks[k] == "---"@,
            pieces == Seq::new(marks.len(), |j: int| table_cell(marks[j])),
            out@ == start + "|"@ + concat(pieces.take(j as int)),
        decreases width - j,
    {
        out.append(" --- |");
        proof {
            reveal_strlit(" --- |");
            reveal_strlit(" ");
            reveal_strlit("---");
            reveal_strlit(" |");
            lemma_concat_step(pieces, j as int);
        }
        j += 1;
    }
    out.append("\n");
    proof {
        lemma_concat_ends(pieces);
    }
}

/// The Markdown section of a sheet as a text of its own.
pub fn render_markdown_section(
    file: &str,
    ordinal: usize,
    name: &str,
    rows: &[Vec<String>],
    header_rows: usize,
    sample_rows: usize,
) -> (text: String)
    ensures
        text@ == markdown_section(
            file@,
            ordinal as nat,
            name@,
            rows_text(rows@),
            header_rows as nat,
            sample_rows as nat,
        ),
{
    let headers = header_rows_of(rows, header_rows);
    let sample = sample_rows_of(rows, header_rows, sample_rows);
    let mut out = String::new();
    out.append("# Excel File Name: ");
    out.append(file);
    out.append("\n\n");
    out.append("## Sheet ");
    push_decimal(&mut out, ordinal);
    out.append(":\n\n");
    out.append("### Sheet Name: ");
    out.append(name);
    out.append("\n\n");
    out.append("### Headers:\n");
    push_header_listing(&mut out, "- ", headers);
    out.append("### Sample Data:\n\n");
    push_table_rows(&mut out, headers);
    push_separator_row(&mut out, headers);
    push_table_rows(&mut out, sample);
    out.append("\n");
    out
}

} // verus!
