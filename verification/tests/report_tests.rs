use excel_analyzer::report::{render, render_section, render_sheet, OutputFormat};
use excel_analyzer::sheet::{block_ends, header_rows_of, sample_rows_of, Sheet};

fn row(cells: &[&str]) -> Vec<String> {
    cells.iter().map(|cell| cell.to_string()).collect()
}

fn people() -> Sheet {
    Sheet::new(
        "Sheet1".to_string(),
        vec![row(&["Name", "Age"]), row(&["Alice", "30"]), row(&["Bob", "25"])],
    )
}

fn numbered(rows: usize, columns: usize) -> Sheet {
    let mut grid = Vec::new();
    for i in 0..rows {
        let mut cells = Vec::new();
        for j in 0..columns {
            cells.push(format!("r{}c{}", i, j));
        }
        grid.push(cells);
    }
    Sheet::new("Data".to_string(), grid)
}

fn count(text: &str, piece: &str) -> usize {
    text.matches(piece).count()
}

fn tags_balance(text: &str) -> bool {
    let mut open: Vec<String> = Vec::new();
    let mut rest = text;
    while let Some(start) = rest.find('<') {
        let after = &rest[start + 1..];
        let end = match after.find('>') {
            Some(end) => end,
            None => return false,
        };
        let body = &after[..end];
        if let Some(name) = body.strip_prefix('/') {
            match open.pop() {
                Some(last) if last == name => {}
                _ => return false,
            }
        } else {
            open.push(body.split(' ').next().unwrap_or("").to_string());
        }
        rest = &after[end + 1..];
    }
    open.is_empty()
}

#[test]
fn plain_text_example_with_names_and_ages() {
    let text = render(OutputFormat::PlainText, "people.xlsx", &vec![people()], 1, 5);
    assert_eq!(
        text,
        "Excel File Name: people.xlsx\n\n\
         Sheet 1:\n\
         Sheet Name: Sheet1\n\n\
         Headers:\n\
         Row 1:\n\
         Column 1: Name\n\
         Column 2: Age\n\
         \n\
         Sample Data:\n\n\
         Name\tAge\n\
         Alice\t30\n\
         Bob\t25\n\
         \n"
    );
    let lines: Vec<&str> = text.lines().collect();
    let at = |line: &str| lines.iter().position(|l| *l == line).unwrap();
    assert!(at("Column 1: Name") < at("Column 2: Age"));
    assert!(at("Column 2: Age") < at("Name\tAge"));
    assert!(at("Name\tAge") < at("Alice\t30"));
    assert!(at("Alice\t30") < at("Bob\t25"));
}

#[test]
fn markdown_section_is_exact() {
    let text = render(OutputFormat::Markdown, "people.xlsx", &vec![people()], 1, 5);
    assert_eq!(
        text,
        "# Excel File Name: people.xlsx\n\n\
         ## Sheet 1:\n\n\
         ### Sheet Name: Sheet1\n\n\
         ### Headers:\n\
         Row 1:\n\
         - Column 1: Name\n\
         - Column 2: Age\n\
         \n\
         ### Sample Data:\n\n\
         | Name | Age |\n\
         | --- | --- |\n\
         | Alice | 30 |\n\
         | Bob | 25 |\n\
         \n"
    );
}

#[test]
fn xml_section_is_exact() {
    let text = render(OutputFormat::XML, "people.xlsx", &vec![people()], 1, 1);
    let expected = concat_lines(&[
        "<excel-file name=\"people.xlsx\">",
        "  <sheet index=\"1\" name=\"Sheet1\">",
        "    <headers>",
        "      <row index=\"1\">",
        "        <header column=\"1\">Name</header>",
        "        <header column=\"2\">Age</header>",
        "      </row>",
        "    </headers>",
        "    <sample-data>",
        "      <row>",
        "        <cell>Name</cell>",
        "        <cell>Age</cell>",
        "      </row>",
        "      <row>",
        "        <cell>Alice</cell>",
        "        <cell>30</cell>",
        "      </row>",
        "    </sample-data>",
        "  </sheet>",
        "</excel-file>",
        "",
    ]);
    assert_eq!(text, expected);
}

fn concat_lines(lines: &[&str]) -> String {
    let mut text = String::new();
    for line in lines {
        text.push_str(line);
        text.push('\n');
    }
    text
}

#[test]
fn empty_sheet_in_plain_text() {
    let sheet = Sheet::new("Empty".to_string(), Vec::new());
    let text = render_sheet(OutputFormat::PlainText, "e.xlsx", 1, &sheet, 1, 5);
    assert_eq!(
        text,
        "Excel File Name: e.xlsx\n\nSheet 1:\nSheet Name: Empty\n\nHeaders:\nSample Data:\n\n\n"
    );
}

#[test]
fn empty_sheet_in_markdown() {
    let sheet = Sheet::new("Empty".to_string(), Vec::new());
    let text = render_sheet(OutputFormat::Markdown, "e.xlsx", 1, &sheet, 1, 5);
    assert_eq!(
        text,
        "# Excel File Name: e.xlsx\n\n## Sheet 1:\n\n### Sheet Name: Empty\n\n### Headers:\n### Sample Data:\n\n|\n\n"
    );
}

#[test]
fn empty_sheet_in_xml() {
    let sheet = Sheet::new("Empty".to_string(), Vec::new());
    let text = render_sheet(OutputFormat::XML, "e.xlsx", 1, &sheet, 1, 5);
    let expected = concat_lines(&[
        "<excel-file name=\"e.xlsx\">",
        "  <sheet index=\"1\" name=\"Empty\">",
        "    <headers>",
        "    </headers>",
        "    <sample-data>",
        "    </sample-data>",
        "  </sheet>",
        "</excel-file>",
        "",
    ]);
    assert_eq!(text, expected);
    assert!(tags_balance(&text));
}

#[test]
fn workbook_without_sheets_gives_an_empty_report() {
    for format in [OutputFormat::Markdown, OutputFormat::XML, OutputFormat::PlainText] {
        assert_eq!(render(format, "none.xlsx", &Vec::new(), 1, 5), "");
    }
}

#[test]
fn sample_block_holds_exactly_the_rows_asked_for() {
    let sheet = numbered(10, 2);
    let plain = render_sheet(OutputFormat::PlainText, "f", 1, &sheet, 2, 3);
    let table = plain.split("Sample Data:\n\n").nth(1).unwrap();
    assert_eq!(
        table,
        "r0c0\tr0c1\nr1c0\tr1c1\nr2c0\tr2c1\nr3c0\tr3c1\nr4c0\tr4c1\n\n"
    );
    let markdown = render_sheet(OutputFormat::Markdown, "f", 1, &sheet, 2, 3);
    let body = markdown.split("| --- | --- |\n").nth(1).unwrap();
    assert_eq!(body, "| r2c0 | r2c1 |\n| r3c0 | r3c1 |\n| r4c0 | r4c1 |\n\n");
    let xml = render_sheet(OutputFormat::XML, "f", 1, &sheet, 2, 3);
    let data = xml.split("    <sample-data>\n").nth(1).unwrap();
    assert_eq!(count(data, "      <row>\n"), 5);
    for i in 0..5 {
        assert!(data.contains(&format!("        <cell>r{}c0</cell>\n", i)));
    }
    assert!(!xml.contains("r5c0"));
    assert!(!plain.contains("r5c0"));
    assert!(!markdown.contains("r5c0"));
}

#[test]
fn sample_block_ends_with_the_sheet() {
    let sheet = numbered(4, 1);
    let plain = render_sheet(OutputFormat::PlainText, "f", 1, &sheet, 1, 5);
    let table = plain.split("Sample Data:\n\n").nth(1).unwrap();
    assert_eq!(table, "r0c0\nr1c0\nr2c0\nr3c0\n\n");
}

#[test]
fn markdown_separator_has_one_cell_for_each_cell_of_the_first_header_row() {
    for columns in 0..6 {
        let sheet = numbered(3, columns);
        let text = render_sheet(OutputFormat::Markdown, "f", 1, &sheet, 2, 1);
        assert_eq!(count(&text, "---"), columns);
        let separator = format!("|{}\n", " --- |".repeat(columns));
        assert!(text.contains(&separator));
    }
}

#[test]
fn markdown_separator_follows_the_first_header_row_of_a_ragged_sheet() {
    let sheet = Sheet::new(
        "Ragged".to_string(),
        vec![row(&["a", "b", "c"]), row(&["d"]), row(&["e", "f"])],
    );
    let text = render_sheet(OutputFormat::Markdown, "f", 1, &sheet, 2, 5);
    let table = text.split("### Sample Data:\n\n").nth(1).unwrap();
    assert_eq!(table, "| a | b | c |\n| d |\n| --- | --- | --- |\n| e | f |\n\n");
}

#[test]
fn markdown_without_header_rows_has_an_empty_separator() {
    let text = render_sheet(OutputFormat::Markdown, "f", 1, &people(), 0, 2);
    let table = text.split("### Sample Data:\n\n").nth(1).unwrap();
    assert_eq!(table, "|\n| Name | Age |\n| Alice | 30 |\n\n");
    assert!(text.contains("### Headers:\n### Sample Data:"));
}

#[test]
fn xml_sample_data_holds_header_rows_and_sample_rows() {
    for (rows, header_rows, sample_rows) in
        [(10, 1, 5), (10, 2, 3), (3, 1, 5), (3, 3, 5), (6, 0, 2), (6, 2, 0)]
    {
        let sheet = numbered(rows, 2);
        let text = render_sheet(OutputFormat::XML, "f", 1, &sheet, header_rows, sample_rows);
        let data = text.split("    <sample-data>\n").nth(1).unwrap();
        let expected = header_rows + sample_rows.min(rows - header_rows);
        assert_eq!(count(data, "      <row>\n"), expected);
        assert_eq!(count(&text, "<row index="), header_rows);
        assert!(tags_balance(&text));
    }
}

#[test]
fn xml_tags_balance_over_several_sheets() {
    let text = render(OutputFormat::XML, "book.xlsx", &vec![people(), numbered(4, 3)], 1, 5);
    assert!(tags_balance(&text));
    assert_eq!(count(&text, "<excel-file "), 2);
    assert_eq!(count(&text, "</excel-file>"), 2);
    assert_eq!(count(&text, "<cell>"), count(&text, "</cell>"));
    assert_eq!(count(&text, "<header "), count(&text, "</header>"));
}

#[test]
fn xml_texts_are_written_as_they_are() {
    let sheet = Sheet::new("S".to_string(), vec![row(&["a<b"])]);
    let text = render_sheet(OutputFormat::XML, "f", 1, &sheet, 1, 0);
    assert!(text.contains("<cell>a<b</cell>"));
    assert!(!tags_balance(&text));
}

#[test]
fn sheet_with_fewer_rows_than_header_rows() {
    let text = render_sheet(OutputFormat::PlainText, "f", 1, &people(), 5, 5);
    assert_eq!(
        text,
        "Excel File Name: f\n\nSheet 1:\nSheet Name: Sheet1\n\nHeaders:\n\
         Row 1:\nColumn 1: Name\nColumn 2: Age\n\n\
         Row 2:\nColumn 1: Alice\nColumn 2: 30\n\n\
         Row 3:\nColumn 1: Bob\nColumn 2: 25\n\n\
         Sample Data:\n\nName\tAge\nAlice\t30\nBob\t25\n\n"
    );
}

#[test]
fn no_sample_rows() {
    let text = render_sheet(OutputFormat::PlainText, "f", 1, &people(), 1, 0);
    assert!(text.ends_with("Sample Data:\n\nName\tAge\n\n"));
}

#[test]
fn counts_beyond_any_sheet() {
    let plain = render_sheet(OutputFormat::PlainText, "f", 1, &people(), usize::MAX, usize::MAX);
    assert!(plain.ends_with("Sample Data:\n\nName\tAge\nAlice\t30\nBob\t25\n\n"));
    let split = render_sheet(OutputFormat::PlainText, "f", 1, &people(), 1, usize::MAX);
    assert!(split.ends_with("Sample Data:\n\nName\tAge\nAlice\t30\nBob\t25\n\n"));
    assert_eq!(block_ends(3, usize::MAX, usize::MAX), (3, 3));
    assert_eq!(block_ends(3, 1, usize::MAX), (1, 3));
    assert_eq!(block_ends(10, 2, 3), (2, 5));
    assert_eq!(block_ends(0, 1, 5), (0, 0));
}

#[test]
fn sheets_come_in_order_under_their_numbers() {
    let sheets = vec![people(), numbered(2, 1), Sheet::new("Last".to_string(), Vec::new())];
    let text = render(OutputFormat::PlainText, "book.xlsx", &sheets, 1, 5);
    let first = text.find("Sheet 1:\nSheet Name: Sheet1\n").unwrap();
    let second = text.find("Sheet 2:\nSheet Name: Data\n").unwrap();
    let third = text.find("Sheet 3:\nSheet Name: Last\n").unwrap();
    assert!(first < second && second < third);
    assert_eq!(count(&text, "Excel File Name: book.xlsx\n\n"), 3);
    let whole: String = (0..3)
        .map(|i| render_sheet(OutputFormat::PlainText, "book.xlsx", i + 1, &sheets[i], 1, 5))
        .collect();
    assert_eq!(text, whole);
}

#[test]
fn sheet_numbers_have_several_digits() {
    let text = render_section(OutputFormat::Markdown, "f", 120, "S", &Vec::new(), 1, 5);
    assert!(text.contains("## Sheet 120:\n\n"));
    let sheet = numbered(1, 12);
    let listing = render_sheet(OutputFormat::PlainText, "f", 1, &sheet, 1, 0);
    assert!(listing.contains("Column 9: r0c8\nColumn 10: r0c9\nColumn 11: r0c10\nColumn 12: r0c11\n"));
}

#[test]
fn row_without_cells_is_an_empty_line() {
    let sheet = Sheet::new("S".to_string(), vec![row(&["h"]), Vec::new(), row(&["x", ""])]);
    let plain = render_sheet(OutputFormat::PlainText, "f", 1, &sheet, 1, 5);
    assert!(plain.ends_with("Sample Data:\n\nh\n\nx\t\n\n"));
    let markdown = render_sheet(OutputFormat::Markdown, "f", 1, &sheet, 1, 5);
    assert!(markdown.ends_with("| h |\n| --- |\n|\n| x |  |\n\n"));
    assert_eq!(sheet.row_count(), 3);
}

#[test]
fn blocks_are_taken_from_the_rows_in_order() {
    let sheet = numbered(6, 1);
    let rows = sheet.rows.as_slice();
    assert_eq!(header_rows_of(rows, 2), &rows[0..2]);
    assert_eq!(sample_rows_of(rows, 2, 3), &rows[2..5]);
    assert_eq!(sample_rows_of(rows, 2, 10), &rows[2..6]);
    assert_eq!(header_rows_of(rows, 9), &rows[0..6]);
    assert!(sample_rows_of(rows, 9, 3).is_empty());
    assert!(header_rows_of(rows, 0).is_empty());
    assert_eq!(sample_rows_of(rows, 0, 1), &rows[0..1]);
    assert!(sample_rows_of(rows, 6, usize::MAX).is_empty());
    let none: Vec<Vec<String>> = Vec::new();
    assert!(header_rows_of(&none, 1).is_empty());
    assert!(sample_rows_of(&none, 1, 5).is_empty());
}
