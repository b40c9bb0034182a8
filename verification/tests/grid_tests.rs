use calamine::{CellErrorType, Data, Range};
use excel_analyzer::grid::{leading_rows, preview};
use excel_analyzer::report::{render_sheet, OutputFormat};

fn people() -> Range<Data> {
    let mut range: Range<Data> = Range::new((0, 0), (2, 1));
    range.set_value((0, 0), Data::String("Name".to_string()));
    range.set_value((0, 1), Data::String("Age".to_string()));
    range.set_value((1, 0), Data::String("Alice".to_string()));
    range.set_value((1, 1), Data::Int(30));
    range.set_value((2, 0), Data::String("Bob".to_string()));
    range.set_value((2, 1), Data::Float(25.5));
    range
}

#[test]
fn cells_are_read_as_the_text_they_display() {
    let mut range: Range<Data> = Range::new((0, 0), (1, 3));
    range.set_value((0, 0), Data::String("text".to_string()));
    range.set_value((0, 1), Data::Int(-4));
    range.set_value((0, 2), Data::Float(2.0));
    range.set_value((0, 3), Data::Float(0.125));
    range.set_value((1, 0), Data::Bool(true));
    range.set_value((1, 1), Data::Error(CellErrorType::Div0));
    range.set_value((1, 2), Data::DateTimeIso("2024-01-02".to_string()));
    let rows = leading_rows(&range, 10);
    assert_eq!(
        rows,
        vec![vec!["text", "-4", "2", "0.125"], vec!["true", "#DIV/0!", "2024-01-02", ""]]
    );
}

#[test]
fn leading_rows_stop_at_the_limit_or_at_the_end() {
    let range = people();
    assert_eq!(leading_rows(&range, 0), Vec::<Vec<String>>::new());
    assert_eq!(leading_rows(&range, 1), vec![vec!["Name", "Age"]]);
    assert_eq!(leading_rows(&range, 2), vec![vec!["Name", "Age"], vec!["Alice", "30"]]);
    let all = vec![vec!["Name", "Age"], vec!["Alice", "30"], vec!["Bob", "25.5"]];
    assert_eq!(leading_rows(&range, 3), all);
    assert_eq!(leading_rows(&range, usize::MAX), all);
}

#[test]
fn empty_range_has_no_rows() {
    let range: Range<Data> = Range::empty();
    assert!(leading_rows(&range, 5).is_empty());
    let sheet = preview("Empty".to_string(), &range, 1, 5);
    assert_eq!(sheet.name, "Empty");
    assert!(sheet.rows.is_empty());
}

#[test]
fn range_does_not_begin_at_the_first_cell() {
    let mut range: Range<Data> = Range::new((3, 2), (4, 3));
    range.set_value((3, 2), Data::String("a".to_string()));
    range.set_value((3, 3), Data::String("b".to_string()));
    range.set_value((4, 2), Data::Int(1));
    range.set_value((4, 3), Data::Int(2));
    assert_eq!(leading_rows(&range, 5), vec![vec!["a", "b"], vec!["1", "2"]]);
}

#[test]
fn preview_reads_up_to_the_end_of_the_sample_block() {
    let range = people();
    assert_eq!(preview("S".to_string(), &range, 1, 1).rows.len(), 2);
    assert_eq!(preview("S".to_string(), &range, 1, 5).rows.len(), 3);
    assert_eq!(preview("S".to_string(), &range, 0, 0).rows.len(), 0);
    assert_eq!(preview("S".to_string(), &range, 5, 0).rows.len(), 3);
    assert_eq!(preview("S".to_string(), &range, usize::MAX, usize::MAX).rows.len(), 3);
}

#[test]
fn section_of_the_preview_is_the_section_of_the_whole_sheet() {
    let range = people();
    let whole = preview("Sheet1".to_string(), &range, usize::MAX, 0);
    for format in [OutputFormat::Markdown, OutputFormat::XML, OutputFormat::PlainText] {
        for (header_rows, sample_rows) in [(0, 0), (1, 1), (1, 5), (2, 0), (4, 4)] {
            let part = preview("Sheet1".to_string(), &range, header_rows, sample_rows);
            assert_eq!(
                render_sheet(format, "p.xlsx", 1, &part, header_rows, sample_rows),
                render_sheet(format, "p.xlsx", 1, &whole, header_rows, sample_rows)
            );
        }
    }
}

#[test]
fn decoded_sheet_in_plain_text() {
    let sheet = preview("Sheet1".to_string(), &people(), 1, 5);
    let text = render_sheet(OutputFormat::PlainText, "p.xlsx", 1, &sheet, 1, 5);
    assert!(text.ends_with("Sample Data:\n\nName\tAge\nAlice\t30\nBob\t25.5\n\n"));
}
