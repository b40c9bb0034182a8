//! The XML section of a sheet.

use vstd::math::min;
use vstd::prelude::*;
use vstd::slice::slice_subrange;
use vstd::string::*;
use crate::numeral::{decimal_text, push_decimal};
use crate::sheet::{block_ends, header_block, header_rows_of, sample_block};
use crate::text::{concat, lemma_concat_ends, lemma_concat_step, texts, rows_text};

verus! {

/// One cell of a header row, with its column number, counted from 1.
pub open spec fn header_element(column: nat, cell: Seq<char>) -> Seq<char> {
    "        <header column=\""@ + decimal_text(column) + "\">"@ + cell + "</header>\n"@
}

/// One header row, with its row number, counted from 1, and its cells in order.
pub open spec fn header_row_element(number: nat, row: Seq<Seq<char>>) -> Seq<char> {
    "      <row index=\""@ + decimal_text(number) + "\">\n"@ + concat(
        Seq::new(row.len(), |j: int| header_element((j + 1) as nat, row[j])),
    ) + "      </row>\n"@
}

/// The rows of the header block, in order.
pub open spec fn header_row_elements(headers: Seq<Seq<Seq<char>>>) -> Seq<char> {
    concat(Seq::new(headers.len(), |i: int| header_row_element((i + 1) as nat, headers[i])))
}

/// One cell of a sample-data row.
pub open spec fn cell_element(cell: Seq<char>) -> Seq<char> {
    "        <cell>"@ + cell + "</cell>\n"@
}

/// One sample-data row, with its cells in order.
pub open spec fn row_element(row: Seq<Seq<char>>) -> Seq<char> {
    "      <row>\n"@ + concat(Seq::new(row.len(), |j: int| cell_element(row[j])))
        + "      </row>\n"@
}

/// One row element for each of `rows`, in order.
pub open spec fn row_elements(rows: Seq<Seq<Seq<char>>>) -> Seq<char> {
    concat(Seq::new(rows.len(), |i: int| row_element(rows[i])))
}

/// The rows that `<sample-data>` holds: the header block, then the sample block.
pub open spec fn sample_data_rows(
    rows: Seq<Seq<Seq<char>>>,
    header_rows: nat,
    sample_rows: nat,
) -> Seq<Seq<Seq<char>>> {
    header_block(rows, header_rows) + sample_block(rows, header_rows, sample_rows)
}

/// The `headers` element: the header block, row by row.
pub open spec fn headers_element(headers: Seq<Seq<Seq<char>>>) -> Seq<char> {
    "    <headers>\n"@ + header_row_elements(headers) + "    </headers>\n"@
}

/// The `sample-data` element: one `row` element for each of `shown`.
pub open spec fn sample_data_element(shown: Seq<Seq<Seq<char>>>) -> Seq<char> {
    "    <sample-data>\n"@ + row_elements(shown) + "    </sample-data>\n"@
}

/// The `sheet` element: the sheet's number and name, and under them the
/// `headers` and the `sample-data` element.
pub open spec fn sheet_element(
    ordinal: nat,
    name: Seq<char>,
    rows: Seq<Seq<Seq<char>>>,
    header_rows: nat,
    sample_rows: nat,
) -> Seq<char> {
    "  <sheet index=\""@ + decimal_text(ordinal) + "\" name=\""@ + name + "\">\n"@
        + headers_element(header_block(rows, header_rows)) + sample_data_element(
        sample_data_rows(rows, header_rows, sample_rows),
    ) + "  </sheet>\n"@
}

/// The XML section of the sheet that is number `ordinal` of the workbook
/// `file`: an `excel-file` element that holds the `sheet` element, and a blank
/// line. Texts are written as they are, without escaping.
pub open spec fn xml_section(
    file: Seq<char>,
    ordinal: nat,
    name: Seq<char>,
    rows: Seq<Seq<Seq<char>>>,
    header_rows: nat,
    sample_rows: nat,
) -> Seq<char> {
    "<excel-file name=\""@ + file + "\">\n"@ + sheet_element(
        ordinal,
        name,
        rows,
        header_rows,
        sample_rows,
    ) + "</excel-file>\n\n"@
}

/// `<sample-data>` holds the header block and then the sample block, row for
/// row: on a sheet with at least `header_rows` rows that is `header_rows` rows
/// and then as many of the remaining rows as there are, up to `sample_rows`.
pub proof fn lemma_sample_data_row_count(
    rows: Seq<Seq<Seq<char>>>,
    header_rows: nat,
    sample_rows: nat,
)
    requires
        rows.len() >= header_rows,
    ensures
        sample_data_rows(rows, header_rows, sample_rows).len() == header_rows + min(
            sample_rows as int,
            rows.len() - header_rows,
        ),
        sample_data_rows(rows, header_rows, sample_rows) == rows.take(
            sample_data_rows(rows, header_rows, sample_rows).len() as int,
        ),
{
}

/// Appends the cells of a header row as `header` elements.
pub fn push_header_elements(out: &mut String, row: &Vec<String>)
    ensures
        final(out)@ == old(out)@ + concat(
            Seq::new(
                texts(row@).len(),
                |j: int| header_element((j + 1) as nat, texts(row@)[j]),
            ),
        ),
{
    let ghost start = out@;
    let ghost cells = texts(row@);
    let ghost pieces = Seq::new(cells.len(), |j: int| header_element((j + 1) as nat, cells[j]));
    let mut j: usize = 0;
    while j < row.len()
        invariant
            j <= row.len(),
            cells == texts(row@),
            pieces == Seq::new(cells.len(), |j: int| header_element((j + 1) as nat, cells[j])),
            out@ == start + concat(pieces.take(j as int)),
        decreases row.len() - j,
    {
        out.append("        <header column=\"");
        push_decimal(out, j + 1);
        out.append("\">");
        out.append(row[j].as_str());
        out.append("</header>\n");
        proof {
            lemma_concat_step(pieces, j as int);
        }
        j += 1;
    }
    proof {
        lemma_concat_ends(pieces);
    }
}

/// Appends the rows of the header block `headers` as the content of `<headers>`.
pub fn push_header_row_elements(out: &mut String, headers: &[Vec<String>])
    ensures
        final(out)@ == old(out)@ + header_row_elements(rows_text(headers@)),
{
    let ghost start = out@;
    let ghost block = rows_text(headers@);
    let ghost pieces = Seq::new(
        block.len(),
        |i: int| header_row_element((i + 1) as nat, block[i]),
    );
    let mut i: usize = 0;
    while i < headers.len()
        invariant
            i <= headers.len(),
            block == rows_text(headers@),
            pieces == Seq::new(
                block.len(),
                |i: int| header_row_element((i + 1) as nat, block[i]),
            ),
            out@ == start + concat(pieces.take(i as int)),
        decreases headers.len() - i,
    {
        out.append("      <row index=\"");
        push_decimal(out, i + 1);
        out.append("\">\n");
        push_header_elements(out, &headers[i]);
        out.append("      </row>\n");
        proof {
            lemma_concat_step(pieces, i as int);
        }
        i += 1;
    }
    proof {
        lemma_concat_ends(pieces);
    }
}

/// Appends `row` as a `row` element of `<sample-data>`.
pub fn push_row_element(out: &mut String, row: &Vec<String>)
    ensures
        final(out)@ == old(out)@ + row_element(texts(row@)),
{
    let ghost start = out@;
    let ghost cells = texts(row@);
    let ghost pieces = Seq::new(cells.len(), |j: int| cell_element(cells[j]));
    out.append("      <row>\n");
    let mut j: usize = 0;
    while j < row.len()
        invariant
            j <= row.len(),
            cells == texts(row@),
            pieces == Seq::new(cells.len(), |j: int| cell_element(cells[j])),
            out@ == start + "      <row>\n"@ + concat(pieces.take(j as int)),
        decreases row.len() - j,
    {
        out.append("        <cell>");
        out.append(row[j].as_str());
        out.append("</cell>\n");
        proof {
            lemma_concat_step(pieces, j as int);
        }
        j += 1;
    }
    out.append("      </row>\n");
    proof {
        lemma_concat_ends(pieces);
    }
}

/// Appends each of `rows` as a `row` element.
pub fn push_row_elements(out: &mut String, rows: &[Vec<String>])
    ensures
        final(out)@ == old(out)@ + row_elements(rows_text(rows@)),
{
    let ghost start = out@;
    let ghost block = rows_text(rows@);
    let ghost pieces = Seq::new(block.len(), |i: int| row_element(block[i]));
    let mut i: usize = 0;
    while i < rows.len()
        invariant
            i <= rows.len(),
            block == rows_text(rows@),
            pieces == Seq::new(block.len(), |i: int| row_element(block[i])),
            out@ == start + concat(pieces.take(i as int)),
        decreases rows.len() - i,
    {
        push_row_element(out, &rows[i]);
        proof {
            lemma_concat_step(pieces, i as int);
        }
        i += 1;
    }
    proof {
        lemma_concat_ends(pieces);
    }
}

/// Appends the `sheet` element of a sheet.
pub fn push_sheet_element(
    out: &mut String,
    ordinal: usize,
    name: &str,
    rows: &[Vec<String>],
    header_rows: usize,
    sample_rows: usize,
)
    ensures
        final(out)@ == old(out)@ + sheet_element(
            ordinal as nat,
            name@,
            rows_text(rows@),
            header_rows as nat,
            sample_rows as nat,
        ),
{
    let ghost cells = rows_text(rows@);
    let headers = header_rows_of(rows, header_rows);
    let ends = block_ends(rows.len(), header_rows, sample_rows);
    let shown = slice_subrange(rows, 0, ends.1);
    proof {
        assert(rows_text(shown@) =~= sample_data_rows(
            cells,
            header_rows as nat,
            sample_rows as nat,
        ));
    }
    let mut part = String::new();
    part.append("  <sheet index=\"");
    push_decimal(&mut part, ordinal);
    part.append("\" name=\"");
    part.append(name);
    part.append("\">\n");
    part.append("    <headers>\n");
    push_header_row_elements(&mut part, headers);
    part.append("    </headers>\n");
    part.append("    <sample-data>\n");
    push_row_elements(&mut part, shown);
    part.append("    </sample-data>\n");
    part.append("  </sheet>\n");
    out.append(part.as_str());
}

/// The XML section of a sheet as a text of its own.
pub fn render_xml_section(
    file: &str,
    ordinal: usize,
    name: &str,
    rows: &[Vec<String>],
    header_rows: usize,
    sample_rows: usize,
) -> (text: String)
    ensures
        text@ == xml_section(
            file@,
            ordinal as nat,
            name@,
            rows_text(rows@),
            header_rows as nat,
            sample_rows as nat,
        ),
{
    let mut out = String::new();
    out.append("<excel-file name=\"");
    out.append(file);
    out.append("\">\n");
    push_sheet_element(&mut out, ordinal, name, rows, header_rows, sample_rows);
    out.append("</excel-file>\n\n");
    out
}

} // verus!
