//! Every tag of an XML section has its match, as long as no text that goes
//! into the section holds a `<`.

use vstd::prelude::*;
use crate::numeral::decimal_text;
use crate::report::{report, sections, OutputFormat};
use crate::sheet::{header_block, Sheet};
use crate::tags::{
    close_tag, contained, is_name, lacks, lemma_contained_add, lemma_contained_concat,
    lemma_contained_element, lemma_contained_element_with, lemma_contained_plain, open_tag,
    open_tag_with, tags_match,
};
use crate::text::concat;
use crate::xml::{
    cell_element, header_element, header_row_element, header_row_elements, headers_element,
    row_element, row_elements, sample_data_element, sample_data_rows, sheet_element, xml_section,
};

verus! {

/// Whether no cell of `rows` holds a `<`.
pub open spec fn cells_lack_markup(rows: Seq<Seq<Seq<char>>>) -> bool {
    forall|i: int, j: int|
        0 <= i < rows.len() && 0 <= j < rows[i].len() ==> lacks(#[trigger] rows[i][j], '<')
}

/// A numeral holds no `<`.
pub proof fn lemma_decimal_text_plain(n: nat)
    ensures
        lacks(decimal_text(n), '<'),
    decreases n,
{
    if n >= 10 {
        lemma_decimal_text_plain(n / 10);
    }
}

/// An element on a line of its own, between text without tags, is whole in
/// itself where its content is.
proof fn lemma_contained_line(
    before: Seq<char>,
    name: Seq<char>,
    inner: Seq<char>,
    after: Seq<char>,
)
    requires
        lacks(before, '<'),
        is_name(name),
        contained(inner),
        lacks(after, '<'),
    ensures
        contained(before + (open_tag(name) + inner + close_tag(name)) + after),
{
    lemma_contained_plain(before);
    lemma_contained_plain(after);
    lemma_contained_element(name, inner);
    lemma_contained_add(before, open_tag(name) + inner + close_tag(name));
    lemma_contained_add(before + (open_tag(name) + inner + close_tag(name)), after);
}

/// The same for an element with attributes.
proof fn lemma_contained_line_with(
    before: Seq<char>,
    name: Seq<char>,
    attributes: Seq<char>,
    inner: Seq<char>,
    after: Seq<char>,
)
    requires
        lacks(before, '<'),
        is_name(name),
        lacks(attributes, '<'),
        contained(inner),
        lacks(after, '<'),
    ensures
        contained(
            before + (open_tag_with(name, attributes) + inner + close_tag(name)) + after,
        ),
{
    lemma_contained_plain(before);
    lemma_contained_plain(after);
    lemma_contained_element_with(name, attributes, inner);
    lemma_contained_add(before, open_tag_with(name, attributes) + inner + close_tag(name));
    lemma_contained_add(
        before + (open_tag_with(name, attributes) + inner + close_tag(name)),
        after,
    );
}

/// A `cell` element is whole in itself.
pub proof fn lemma_cell_element_contained(cell: Seq<char>)
    requires
        lacks(cell, '<'),
    ensures
        contained(cell_element(cell)),
{
    reveal_strlit("        <cell>");
    reveal_strlit("</cell>\n");
    reveal_strlit("cell");
    reveal_strlit("        ");
    reveal_strlit("\n");
    let name = "cell"@;
    lemma_contained_plain(cell);
    lemma_contained_line("        "@, name, cell, "\n"@);
    assert(cell_element(cell) =~= "        "@ + (open_tag(name) + cell + close_tag(name)) + "\n"@);
}

/// A `header` element is whole in itself.
pub proof fn lemma_header_element_contained(column: nat, cell: Seq<char>)
    requires
        lacks(cell, '<'),
    ensures
        contained(header_element(column, cell)),
{
    reveal_strlit("        <header column=\"");
    reveal_strlit("\">");
    reveal_strlit("</header>\n");
    reveal_strlit("header");
    reveal_strlit("column=\"");
    reveal_strlit("\"");
    reveal_strlit("        ");
    reveal_strlit("\n");
    let name = "header"@;
    let attributes = "column=\""@ + decimal_text(column) + "\""@;
    lemma_decimal_text_plain(column);
    lemma_contained_plain(cell);
    lemma_contained_line_with("        "@, name, attributes, cell, "\n"@);
    assert(header_element(column, cell) =~= "        "@ + (open_tag_with(name, attributes) + cell
        + close_tag(name)) + "\n"@);
}

/// A `row` element of `sample-data` is whole in itself.
pub proof fn lemma_row_element_contained(row: Seq<Seq<char>>)
    requires
        forall|j: int| 0 <= j < row.len() ==> lacks(#[trigger] row[j], '<'),
    ensures
        contained(row_element(row)),
{
    reveal_strlit("      <row>\n");
    reveal_strlit("      </row>\n");
    reveal_strlit("row");
    reveal_strlit("      ");
    reveal_strlit("\n");
    let name = "row"@;
    let cells = Seq::new(row.len(), |j: int| cell_element(row[j]));
    assert forall|j: int| 0 <= j < cells.len() implies contained(#[trigger] cells[j]) by {
        lemma_cell_element_contained(row[j]);
    }
    lemma_contained_concat(cells);
    lemma_contained_plain("\n"@);
    lemma_contained_plain("      "@);
    lemma_contained_add("\n"@, concat(cells));
    lemma_contained_add("\n"@ + concat(cells), "      "@);
    let inner = "\n"@ + concat(cells) + "      "@;
    lemma_contained_line("      "@, name, inner, "\n"@);
    assert(row_element(row) =~= "      "@ + (open_tag(name) + inner + close_tag(name)) + "\n"@);
}

/// A `row` element of `headers` is whole in itself.
pub proof fn lemma_header_row_element_contained(number: nat, row: Seq<Seq<char>>)
    requires
        forall|j: int| 0 <= j < row.len() ==> lacks(#[trigger] row[j], '<'),
    ensures
        contained(header_row_element(number, row)),
{
    reveal_strlit("      <row index=\"");
    reveal_strlit("\">\n");
    reveal_strlit("      </row>\n");
    reveal_strlit("row");
    reveal_strlit("index=\"");
    reveal_strlit("\"");
    reveal_strlit("      ");
    reveal_strlit("\n");
    let name = "row"@;
    let attributes = "index=\""@ + decimal_text(number) + "\""@;
    lemma_decimal_text_plain(number);
    let cells = Seq::new(row.len(), |j: int| header_element((j + 1) as nat, row[j]));
    assert forall|j: int| 0 <= j < cells.len() implies contained(#[trigger] cells[j]) by {
        lemma_header_element_contained((j + 1) as nat, row[j]);
    }
    lemma_contained_concat(cells);
    lemma_contained_plain("\n"@);
    lemma_contained_plain("      "@);
    lemma_contained_add("\n"@, concat(cells));
    lemma_contained_add("\n"@ + concat(cells), "      "@);
    let inner = "\n"@ + concat(cells) + "      "@;
    lemma_contained_line_with("      "@, name, attributes, inner, "\n"@);
    assert(header_row_element(number, row) =~= "      "@ + (open_tag_with(name, attributes)
        + inner + close_tag(name)) + "\n"@);
}

/// The `headers` element is whole in itself.
pub proof fn lemma_headers_element_contained(headers: Seq<Seq<Seq<char>>>)
    requires
        cells_lack_markup(headers),
    ensures
        contained(headers_element(headers)),
{
    reveal_strlit("    <headers>\n");
    reveal_strlit("    </headers>\n");
    reveal_strlit("headers");
    reveal_strlit("    ");
    reveal_strlit("\n");
    let name = "headers"@;
    let rows = Seq::new(
        headers.len(),
        |i: int| header_row_element((i + 1) as nat, headers[i]),
    );
    assert forall|i: int| 0 <= i < rows.len() implies contained(#[trigger] rows[i]) by {
        lemma_header_row_element_contained((i + 1) as nat, headers[i]);
    }
    lemma_contained_concat(rows);
    lemma_contained_plain("\n"@);
    lemma_contained_plain("    "@);
    lemma_contained_add("\n"@, concat(rows));
    lemma_contained_add("\n"@ + concat(rows), "    "@);
    let inner = "\n"@ + header_row_elements(headers) + "    "@;
    lemma_contained_line("    "@, name, inner, "\n"@);
    assert(headers_element(headers) =~= "    "@ + (open_tag(name) + inner + close_tag(name))
        + "\n"@);
}

/// The `sample-data` element is whole in itself.
pub proof fn lemma_sample_data_element_contained(shown: Seq<Seq<Seq<char>>>)
    requires
        cells_lack_markup(shown),
    ensures
        contained(sample_data_element(shown)),
{
    reveal_strlit("    <sample-data>\n");
    reveal_strlit("    </sample-data>\n");
    reveal_strlit("sample-data");
    reveal_strlit("    ");
    reveal_strlit("\n");
    let name = "sample-data"@;
    let rows = Seq::new(shown.len(), |i: int| row_element(shown[i]));
    assert forall|i: int| 0 <= i < rows.len() implies contained(#[trigger] rows[i]) by {
        lemma_row_element_contained(shown[i]);
    }
    lemma_contained_concat(rows);
    lemma_contained_plain("\n"@);
    lemma_contained_plain("    "@);
    lemma_contained_add("\n"@, concat(rows));
    lemma_contained_add("\n"@ + concat(rows), "    "@);
    let inner = "\n"@ + row_elements(shown) + "    "@;
    lemma_contained_line("    "@, name, inner, "\n"@);
    assert(sample_data_element(shown) =~= "    "@ + (open_tag(name) + inner + close_tag(name))
        + "\n"@);
}

/// The text of a `sheet` element, read as an element on a line of its own:
/// two blanks, the tag that opens `sheet` with its attributes, a line break,
/// the content, two blanks, the tag that closes `sheet`, a line break.
proof fn lemma_sheet_element_shape(
    number: Seq<char>,
    name: Seq<char>,
    headers: Seq<char>,
    data: Seq<char>,
)
    ensures
        is_name("sheet"@),
        lacks("  "@, '<'),
        lacks("\n"@, '<'),
        lacks(number, '<') && lacks(name, '<') ==> lacks(
            "index=\""@ + number + "\" name=\""@ + name + "\""@,
            '<',
        ),
        "  <sheet index=\""@ + number + "\" name=\""@ + name + "\">\n"@ + headers + data
            + "  </sheet>\n"@ == "  "@ + (open_tag_with(
            "sheet"@,
            "index=\""@ + number + "\" name=\""@ + name + "\""@,
        ) + ("\n"@ + headers + data + "  "@) + close_tag("sheet"@)) + "\n"@,
{
    reveal_strlit("  <sheet index=\"");
    reveal_strlit("\" name=\"");
    reveal_strlit("\">\n");
    reveal_strlit("  </sheet>\n");
    reveal_strlit("sheet");
    reveal_strlit("index=\"");
    reveal_strlit("\"");
    reveal_strlit("  ");
    reveal_strlit("\n");
    let attributes = "index=\""@ + number + "\" name=\""@ + name + "\""@;
    assert("  <sheet index=\""@ + number + "\" name=\""@ + name + "\">\n"@ + headers + data
        + "  </sheet>\n"@ =~= "  "@ + (open_tag_with("sheet"@, attributes) + ("\n"@ + headers
        + data + "  "@) + close_tag("sheet"@)) + "\n"@);
}

/// The `sheet` element is whole in itself.
pub proof fn lemma_sheet_element_contained(
    ordinal: nat,
    name: Seq<char>,
    rows: Seq<Seq<Seq<char>>>,
    header_rows: nat,
    sample_rows: nat,
)
    requires
        lacks(name, '<'),
        cells_lack_markup(sample_data_rows(rows, header_rows, sample_rows)),
    ensures
        contained(sheet_element(ordinal, name, rows, header_rows, sample_rows)),
{
    let headers = header_block(rows, header_rows);
    let shown = sample_data_rows(rows, header_rows, sample_rows);
    assert(cells_lack_markup(headers)) by {
        assert forall|i: int, j: int|
            0 <= i < headers.len() && 0 <= j < headers[i].len() implies lacks(
            #[trigger] headers[i][j],
            '<',
        ) by {
            assert(headers[i] == shown[i]);
            assert(lacks(shown[i][j], '<'));
        }
    }
    let upper = headers_element(headers);
    let lower = sample_data_element(shown);
    lemma_headers_element_contained(headers);
    lemma_sample_data_element_contained(shown);
    lemma_decimal_text_plain(ordinal);
    lemma_sheet_element_shape(decimal_text(ordinal), name, upper, lower);
    lemma_contained_plain("\n"@);
    lemma_contained_plain("  "@);
    lemma_contained_add("\n"@, upper);
    lemma_contained_add("\n"@ + upper, lower);
    lemma_contained_add("\n"@ + upper + lower, "  "@);
    lemma_contained_line_with(
        "  "@,
        "sheet"@,
        "index=\""@ + decimal_text(ordinal) + "\" name=\""@ + name + "\""@,
        "\n"@ + upper + lower + "  "@,
        "\n"@,
    );
}

/// An XML section is whole in itself: wherever it stands in a text, it closes
/// what it opens and nothing else.
pub proof fn lemma_xml_section_contained(
    file: Seq<char>,
    ordinal: nat,
    name: Seq<char>,
    rows: Seq<Seq<Seq<char>>>,
    header_rows: nat,
    sample_rows: nat,
)
    requires
        lacks(file, '<'),
        lacks(name, '<'),
        cells_lack_markup(sample_data_rows(rows, header_rows, sample_rows)),
    ensures
        contained(xml_section(file, ordinal, name, rows, header_rows, sample_rows)),
{
    reveal_strlit("<excel-file name=\"");
    reveal_strlit("\">\n");
    reveal_strlit("</excel-file>\n\n");
    reveal_strlit("excel-file");
    reveal_strlit("name=\"");
    reveal_strlit("\"");
    reveal_strlit("\n");
    reveal_strlit("\n\n");
    let element = "excel-file"@;
    let attributes = "name=\""@ + file + "\""@;
    let sheet = sheet_element(ordinal, name, rows, header_rows, sample_rows);
    lemma_sheet_element_contained(ordinal, name, rows, header_rows, sample_rows);
    lemma_contained_plain("\n"@);
    lemma_contained_add("\n"@, sheet);
    let inner = "\n"@ + sheet;
    lemma_contained_line_with(Seq::empty(), element, attributes, inner, "\n\n"@);
    assert(xml_section(file, ordinal, name, rows, header_rows, sample_rows) =~= Seq::<
        char,
    >::empty() + (open_tag_with(element, attributes) + inner + close_tag(element)) + "\n\n"@);
}

/// In the XML section of a sheet every tag that opens an element is matched by
/// the tag that closes it, provided that neither the file's name, nor the
/// sheet's name, nor a cell that the section shows holds a `<`.
pub proof fn lemma_xml_section_tags_match(
    file: Seq<char>,
    ordinal: nat,
    name: Seq<char>,
    rows: Seq<Seq<Seq<char>>>,
    header_rows: nat,
    sample_rows: nat,
)
    requires
        lacks(file, '<'),
        lacks(name, '<'),
        cells_lack_markup(sample_data_rows(rows, header_rows, sample_rows)),
    ensures
        tags_match(xml_section(file, ordinal, name, rows, header_rows, sample_rows)),
{
    lemma_xml_section_contained(file, ordinal, name, rows, header_rows, sample_rows);
}

/// In the XML report of a workbook every tag has its match, under the same
/// proviso for the file's name and for each sheet.
pub proof fn lemma_xml_report_tags_match(
    file: Seq<char>,
    sheets: Seq<Sheet>,
    header_rows: nat,
    sample_rows: nat,
)
    requires
        lacks(file, '<'),
        forall|i: int|
            0 <= i < sheets.len() ==> lacks((#[trigger] sheets[i]).name@, '<')
                && cells_lack_markup(
                sample_data_rows(sheets[i].cells(), header_rows, sample_rows),
            ),
    ensures
        tags_match(report(OutputFormat::XML, file, sheets, header_rows, sample_rows)),
{
    let pieces = sections(OutputFormat::XML, file, sheets, header_rows, sample_rows);
    assert forall|i: int| 0 <= i < pieces.len() implies contained(#[trigger] pieces[i]) by {
        lemma_xml_section_contained(
            file,
            (i + 1) as nat,
            sheets[i].name@,
            sheets[i].cells(),
            header_rows,
            sample_rows,
        );
    }
    lemma_contained_concat(pieces);
}

} // verus!
