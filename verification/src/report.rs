//! The report of a workbook: one section for each sheet, in sheet order.

use vstd::prelude::*;
use vstd::string::*;
use crate::listing::header_listing;
use crate::markdown::{
    markdown_section, render_markdown_section, separator_cells, table_row, table_rows,
};
use crate::numeral::decimal_text;
use crate::plain::{plain_section, render_plain_section, tab_line, tab_lines};
use crate::sheet::{header_block, sample_block, sample_end, Sheet};
use crate::text::{concat, lemma_concat_add, lemma_concat_ends, lemma_concat_step, rows_text};
use crate::xml::{
    headers_element, render_xml_section, row_element, row_elements, sample_data_rows,
    xml_section,
};

verus! {

/// The form in which a report is written.
#[derive(Debug, Clone, Copy, PartialEq, Eq, Structural)]
pub enum OutputFormat {
    Markdown,
    XML,
    PlainText,
}

/// The section of one sheet in the chosen format. `ordinal` is the sheet's
/// position in its workbook, counted from 1.
pub open spec fn section(
    format: OutputFormat,
    file: Seq<char>,
    ordinal: nat,
    name: Seq<char>,
    rows: Seq<Seq<Seq<char>>>,
    header_rows: nat,
    sample_rows: nat,
) -> Seq<char> {
    match format {
        OutputFormat::Markdown => markdown_section(
            file,
            ordinal,
            name,
            rows,
            header_rows,
            sample_rows,
        ),
        OutputFormat::XML => xml_section(file, ordinal, name, rows, header_rows, sample_rows),
        OutputFormat::PlainText => plain_section(
            file,
            ordinal,
            name,
            rows,
            header_rows,
            sample_rows,
        ),
    }
}

/// The sections of the sheets, each under its position in `sheets`.
pub open spec fn sections(
    format: OutputFormat,
    file: Seq<char>,
    sheets: Seq<Sheet>,
    header_rows: nat,
    sample_rows: nat,
) -> Seq<Seq<char>> {
    Seq::new(
        sheets.len(),
        |i: int|
            section(
                format,
                file,
                (i + 1) as nat,
                sheets[i].name@,
                sheets[i].cells(),
                header_rows,
                sample_rows,
            ),
    )
}

/// The report of a workbook: the sections of its sheets, one after another in
/// sheet order.
pub open spec fn report(
    format: OutputFormat,
    file: Seq<char>,
    sheets: Seq<Sheet>,
    header_rows: nat,
    sample_rows: nat,
) -> Seq<char> {
    concat(sections(format, file, sheets, header_rows, sample_rows))
}

/// A section shows nothing beyond the end of the sample block: the first `k`
/// rows of a sheet give the section of the whole sheet, as soon as `k` reaches
/// that end.
pub proof fn lemma_section_reads_leading_rows(
    format: OutputFormat,
    file: Seq<char>,
    ordinal: nat,
    name: Seq<char>,
    rows: Seq<Seq<Seq<char>>>,
    header_rows: nat,
    sample_rows: nat,
    k: nat,
)
    requires
        sample_end(rows.len(), header_rows, sample_rows) <= k <= rows.len(),
    ensures
        section(format, file, ordinal, name, rows.take(k as int), header_rows, sample_rows)
            == section(format, file, ordinal, name, rows, header_rows, sample_rows),
{
    let lead = rows.take(k as int);
    assert(header_block(lead, header_rows) =~= header_block(rows, header_rows));
    assert(sample_block(lead, header_rows, sample_rows) =~= sample_block(
        rows,
        header_rows,
        sample_rows,
    ));
    assert(sample_data_rows(lead, header_rows, sample_rows) =~= sample_data_rows(
        rows,
        header_rows,
        sample_rows,
    ));
}

/// One row as the section's table shows it.
pub open spec fn row_rendering(format: OutputFormat, row: Seq<Seq<char>>) -> Seq<char> {
    match format {
        OutputFormat::Markdown => table_row(row),
        OutputFormat::XML => row_element(row),
        OutputFormat::PlainText => tab_line(row),
    }
}

/// What a section holds before its sample rows: the names of the file and the
/// sheet, the listing of the header block, and the header rows as the first
/// rows of the table.
pub open spec fn section_lead(
    format: OutputFormat,
    file: Seq<char>,
    ordinal: nat,
    name: Seq<char>,
    headers: Seq<Seq<Seq<char>>>,
) -> Seq<char> {
    match format {
        OutputFormat::Markdown => "# Excel File Name: "@ + file + "\n\n"@ + "## Sheet "@
            + decimal_text(ordinal) + ":\n\n"@ + "### Sheet Name: "@ + name + "\n\n"@
            + "### Headers:\n"@ + header_listing("- "@, headers) + "### Sample Data:\n\n"@
            + table_rows(headers) + table_row(separator_cells(headers)),
        OutputFormat::XML => "<excel-file name=\""@ + file + "\">\n"@ + "  <sheet index=\""@
            + decimal_text(ordinal) + "\" name=\""@ + name + "\">\n"@ + headers_element(headers)
            + "    <sample-data>\n"@ + row_elements(headers),
        OutputFormat::PlainText => "Excel File Name: "@ + file + "\n\n"@ + "Sheet "@
            + decimal_text(ordinal) + ":\n"@ + "Sheet Name: "@ + name + "\n\n"@ + "Headers:\n"@
            + header_listing(Seq::empty(), headers) + "Sample Data:\n\n"@ + tab_lines(headers),
    }
}

/// What a section holds behind its sample rows.
pub open spec fn section_close(format: OutputFormat) -> Seq<char> {
    match format {
        OutputFormat::Markdown => "\n"@,
        OutputFormat::XML => "    </sample-data>\n"@ + "  </sheet>\n"@ + "</excel-file>\n\n"@,
        OutputFormat::PlainText => "\n"@,
    }
}

/// The rows of `rows`, each written as the format's table shows it, in order.
pub open spec fn rows_rendering(format: OutputFormat, rows: Seq<Seq<Seq<char>>>) -> Seq<char> {
    concat(Seq::new(rows.len(), |k: int| row_rendering(format, rows[k])))
}

proof fn lemma_markdown_parts(
    file: Seq<char>,
    ordinal: nat,
    name: Seq<char>,
    rows: Seq<Seq<Seq<char>>>,
    header_rows: nat,
    sample_rows: nat,
)
    ensures
        markdown_section(file, ordinal, name, rows, header_rows, sample_rows) == section_lead(
            OutputFormat::Markdown,
            file,
            ordinal,
            name,
            header_block(rows, header_rows),
        ) + rows_rendering(
            OutputFormat::Markdown,
            sample_block(rows, header_rows, sample_rows),
        ) + section_close(OutputFormat::Markdown),
{
    let sample = sample_block(rows, header_rows, sample_rows);
    assert(Seq::new(sample.len(), |k: int| row_rendering(OutputFormat::Markdown, sample[k]))
        =~= Seq::new(sample.len(), |i: int| table_row(sample[i])));
    assert(rows_rendering(OutputFormat::Markdown, sample) == table_rows(sample));
}

proof fn lemma_plain_parts(
    file: Seq<char>,
    ordinal: nat,
    name: Seq<char>,
    rows: Seq<Seq<Seq<char>>>,
    header_rows: nat,
    sample_rows: nat,
)
    ensures
        plain_section(file, ordinal, name, rows, header_rows, sample_rows) == section_lead(
            OutputFormat::PlainText,
            file,
            ordinal,
            name,
            header_block(rows, header_rows),
        ) + rows_rendering(
            OutputFormat::PlainText,
            sample_block(rows, header_rows, sample_rows),
        ) + section_close(OutputFormat::PlainText),
{
    let sample = sample_block(rows, header_rows, sample_rows);
    assert(Seq::new(sample.len(), |k: int| row_rendering(OutputFormat::PlainText, sample[k]))
        =~= Seq::new(sample.len(), |i: int| tab_line(sample[i])));
    assert(rows_rendering(OutputFormat::PlainText, sample) == tab_lines(sample));
}

/// An XML section with the rows of `sample-data` in two parts, regrouped: what
/// stands before the second part, the second part, what stands behind it.
proof fn lemma_xml_regrouped(
    file: Seq<char>,
    number: Seq<char>,
    name: Seq<char>,
    headers: Seq<char>,
    first: Seq<char>,
    second: Seq<char>,
)
    ensures
        "<excel-file name=\""@ + file + "\">\n"@ + ("  <sheet index=\""@ + number
            + "\" name=\""@ + name + "\">\n"@ + headers + ("    <sample-data>\n"@ + (first
            + second) + "    </sample-data>\n"@) + "  </sheet>\n"@) + "</excel-file>\n\n"@
            == "<excel-file name=\""@ + file + "\">\n"@ + "  <sheet index=\""@ + number
            + "\" name=\""@ + name + "\">\n"@ + headers + "    <sample-data>\n"@ + first + second
            + ("    </sample-data>\n"@ + "  </sheet>\n"@ + "</excel-file>\n\n"@),
{
    assert("<excel-file name=\""@ + file + "\">\n"@ + ("  <sheet index=\""@ + number
        + "\" name=\""@ + name + "\">\n"@ + headers + ("    <sample-data>\n"@ + (first + second)
        + "    </sample-data>\n"@) + "  </sheet>\n"@) + "</excel-file>\n\n"@
        =~= "<excel-file name=\""@ + file + "\">\n"@ + "  <sheet index=\""@ + number
        + "\" name=\""@ + name + "\">\n"@ + headers + "    <sample-data>\n"@ + first + second + (
    "    </sample-data>\n"@ + "  </sheet>\n"@ + "</excel-file>\n\n"@));
}

proof fn lemma_xml_parts(
    file: Seq<char>,
    ordinal: nat,
    name: Seq<char>,
    rows: Seq<Seq<Seq<char>>>,
    header_rows: nat,
    sample_rows: nat,
)
    ensures
        xml_section(file, ordinal, name, rows, header_rows, sample_rows) == section_lead(
            OutputFormat::XML,
            file,
            ordinal,
            name,
            header_block(rows, header_rows),
        ) + rows_rendering(OutputFormat::XML, sample_block(rows, header_rows, sample_rows))
            + section_close(OutputFormat::XML),
{
    let headers = header_block(rows, header_rows);
    let sample = sample_block(rows, header_rows, sample_rows);
    let both = sample_data_rows(rows, header_rows, sample_rows);
    let first = Seq::new(headers.len(), |i: int| row_element(headers[i]));
    let second = Seq::new(sample.len(), |i: int| row_element(sample[i]));
    assert(Seq::new(both.len(), |i: int| row_element(both[i])) =~= first + second);
    lemma_concat_add(first, second);
    assert(Seq::new(sample.len(), |k: int| row_rendering(OutputFormat::XML, sample[k]))
        =~= second);
    assert(row_elements(both) == row_elements(headers) + rows_rendering(
        OutputFormat::XML,
        sample,
    ));
    lemma_xml_regrouped(
        file,
        decimal_text(ordinal),
        name,
        headers_element(headers),
        row_elements(headers),
        rows_rendering(OutputFormat::XML, sample),
    );
}

/// In every format a section is its lead, then the rows of the sample block,
/// each written as a row of the table and in the block's order, then its close.
pub proof fn lemma_section_parts(
    format: OutputFormat,
    file: Seq<char>,
    ordinal: nat,
    name: Seq<char>,
    rows: Seq<Seq<Seq<char>>>,
    header_rows: nat,
    sample_rows: nat,
)
    ensures
        section(format, file, ordinal, name, rows, header_rows, sample_rows) == section_lead(
            format,
            file,
            ordinal,
            name,
            header_block(rows, header_rows),
        ) + rows_rendering(format, sample_block(rows, header_rows, sample_rows))
            + section_close(format),
{
    match format {
        OutputFormat::Markdown => lemma_markdown_parts(
            file,
            ordinal,
            name,
            rows,
            header_rows,
            sample_rows,
        ),
        OutputFormat::XML => lemma_xml_parts(file, ordinal, name, rows, header_rows, sample_rows),
        OutputFormat::PlainText => lemma_plain_parts(
            file,
            ordinal,
            name,
            rows,
            header_rows,
            sample_rows,
        ),
    }
}

/// On a sheet with at least `header_rows + sample_rows` rows, the section
/// shows exactly `sample_rows` sample rows between its lead and its close,
/// and the `k`-th of them is the sheet's row `header_rows + k`, cell for cell.
pub proof fn lemma_sample_rows_shown(
    format: OutputFormat,
    file: Seq<char>,
    ordinal: nat,
    name: Seq<char>,
    rows: Seq<Seq<Seq<char>>>,
    header_rows: nat,
    sample_rows: nat,
)
    requires
        rows.len() >= header_rows + sample_rows,
    ensures
        section(format, file, ordinal, name, rows, header_rows, sample_rows) == section_lead(
            format,
            file,
            ordinal,
            name,
            rows.take(header_rows as int),
        ) + concat(
            Seq::new(sample_rows, |k: int| row_rendering(format, rows[header_rows + k])),
        ) + section_close(format),
{
    lemma_section_parts(format, file, ordinal, name, rows, header_rows, sample_rows);
    let sample = sample_block(rows, header_rows, sample_rows);
    assert(Seq::new(sample.len(), |k: int| row_rendering(format, sample[k])) =~= Seq::new(
        sample_rows,
        |k: int| row_rendering(format, rows[header_rows + k]),
    ));
}

/// The section of a sheet without rows: the names of the file and the sheet,
/// an empty header listing and an empty table. In Markdown the table still has
/// its separator row, which then has no cell.
pub proof fn lemma_empty_sheet_section(
    format: OutputFormat,
    file: Seq<char>,
    ordinal: nat,
    name: Seq<char>,
    header_rows: nat,
    sample_rows: nat,
)
    ensures
        header_block(Seq::empty(), header_rows).len() == 0,
        sample_block(Seq::empty(), header_rows, sample_rows).len() == 0,
        section(format, file, ordinal, name, Seq::empty(), header_rows, sample_rows)
            == match format {
            OutputFormat::Markdown => "# Excel File Name: "@ + file + "\n\n"@ + "## Sheet "@
                + decimal_text(ordinal) + ":\n\n"@ + "### Sheet Name: "@ + name + "\n\n"@
                + "### Headers:\n"@ + "### Sample Data:\n\n"@ + "|\n"@ + "\n"@,
            OutputFormat::XML => "<excel-file name=\""@ + file + "\">\n"@ + "  <sheet index=\""@
                + decimal_text(ordinal) + "\" name=\""@ + name + "\">\n"@ + "    <headers>\n"@
                + "    </headers>\n"@ + "    <sample-data>\n"@ + "    </sample-data>\n"@
                + "  </sheet>\n"@ + "</excel-file>\n\n"@,
            OutputFormat::PlainText => "Excel File Name: "@ + file + "\n\n"@ + "Sheet "@
                + decimal_text(ordinal) + ":\n"@ + "Sheet Name: "@ + name + "\n\n"@
                + "Headers:\n"@ + "Sample Data:\n\n"@ + "\n"@,
        },
{
    let none = Seq::<Seq<Seq<char>>>::empty();
    let headers = header_block(none, header_rows);
    let sample = sample_block(none, header_rows, sample_rows);
    let both = sample_data_rows(none, header_rows, sample_rows);
    assert(headers =~= none);
    assert(sample =~= none);
    assert(both =~= none);
    let whole = section(format, file, ordinal, name, none, header_rows, sample_rows);
    match format {
        OutputFormat::Markdown => {
            reveal_strlit("|\n");
            reveal_strlit("|");
            reveal_strlit("\n");
            assert(separator_cells(none) =~= Seq::<Seq<char>>::empty());
            assert(table_row(Seq::empty()) =~= "|\n"@);
            assert(whole =~= "# Excel File Name: "@ + file + "\n\n"@ + "## Sheet "@
                + decimal_text(ordinal) + ":\n\n"@ + "### Sheet Name: "@ + name + "\n\n"@
                + "### Headers:\n"@ + "### Sample Data:\n\n"@ + "|\n"@ + "\n"@);
        },
        OutputFormat::XML => {
            assert(headers_element(none) =~= "    <headers>\n"@ + "    </headers>\n"@);
            assert(whole =~= "<excel-file name=\""@ + file + "\">\n"@ + "  <sheet index=\""@
                + decimal_text(ordinal) + "\" name=\""@ + name + "\">\n"@ + "    <headers>\n"@
                + "    </headers>\n"@ + "    <sample-data>\n"@ + "    </sample-data>\n"@
                + "  </sheet>\n"@ + "</excel-file>\n\n"@);
        },
        OutputFormat::PlainText => {
            assert(whole =~= "Excel File Name: "@ + file + "\n\n"@ + "Sheet "@ + decimal_text(
                ordinal,
            ) + ":\n"@ + "Sheet Name: "@ + name + "\n\n"@ + "Headers:\n"@ + "Sample Data:\n\n"@
                + "\n"@);
        },
    }
}

/// The section of one sheet, given by its name and rows, as a text of its own.
pub fn render_section(
    format: OutputFormat,
    file: &str,
    ordinal: usize,
    name: &str,
    rows: &[Vec<String>],
    header_rows: usize,
    sample_rows: usize,
) -> (text: String)
    ensures
        text@ == section(
            format,
            file@,
            ordinal as nat,
            name@,
            rows_text(rows@),
            header_rows as nat,
            sample_rows as nat,
        ),
{
    match format {
        OutputFormat::Markdown => render_markdown_section(
            file,
            ordinal,
            name,
            rows,
            header_rows,
            sample_rows,
        ),
        OutputFormat::XML => render_xml_section(
            file,
            ordinal,
            name,
            rows,
            header_rows,
            sample_rows,
        ),
        OutputFormat::PlainText => render_plain_section(
            file,
            ordinal,
            name,
            rows,
            header_rows,
            sample_rows,
        ),
    }
}

/// The section of one sheet as a text of its own.
pub fn render_sheet(
    format: OutputFormat,
    file: &str,
    ordinal: usize,
    sheet: &Sheet,
    header_rows: usize,
    sample_rows: usize,
) -> (text: String)
    ensures
        text@ == section(
            format,
            file@,
            ordinal as nat,
            sheet.name@,
            sheet.cells(),
            header_rows as nat,
            sample_rows as nat,
        ),
{
    render_section(
        format,
        file,
        ordinal,
        sheet.name.as_str(),
        sheet.rows.as_slice(),
        header_rows,
        sample_rows,
    )
}

/// The report of the workbook `file` over its sheets.
pub fn render(
    format: OutputFormat,
    file: &str,
    sheets: &Vec<Sheet>,
    header_rows: usize,
    sample_rows: usize,
) -> (text: String)
    ensures
        text@ == report(format, file@, sheets@, header_rows as nat, sample_rows as nat),
{
    let mut out = String::new();
    let ghost pieces = sections(format, file@, sheets@, header_rows as nat, sample_rows as nat);
    let mut i: usize = 0;
    while i < sheets.len()
        invariant
            i <= sheets.len(),
            pieces == sections(format, file@, sheets@, header_rows as nat, sample_rows as nat),
            out@ == concat(pieces.take(i as int)),
        decreases sheets.len() - i,
    {
        let part: String = render_sheet(format, file, i + 1, &sheets[i], header_rows, sample_rows);
        out.append(part.as_str());
        proof {
            lemma_concat_step(pieces, i as int);
        }
        i += 1;
    }
    proof {
        lemma_concat_ends(pieces);
    }
    out
}

} // verus!
