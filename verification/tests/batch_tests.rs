use excel_analyzer::batch::{
    file_message, render_error_line, run_batch, FileRead, Message, ReadError, Run, Step,
};
use excel_analyzer::report::{render, OutputFormat};
use excel_analyzer::session::Job;
use excel_analyzer::sheet::Sheet;

fn sheet(name: &str, cells: &[&[&str]]) -> Sheet {
    Sheet::new(
        name.to_string(),
        cells.iter().map(|row| row.iter().map(|cell| cell.to_string()).collect()).collect(),
    )
}

fn text_of(message: &Message) -> Option<&str> {
    match message {
        Message::Text(text) => Some(text.as_str()),
        Message::Complete => None,
    }
}

#[test]
fn unreadable_file_between_two_readable_ones() {
    let reads = vec![
        FileRead { path: "a.xlsx".to_string(), outcome: Ok(vec![sheet("A", &[&["x"], &["1"]])]) },
        FileRead {
            path: "b.xlsx".to_string(),
            outcome: Err(ReadError::Workbook { cause: "No such file or directory".to_string() }),
        },
        FileRead { path: "c.xlsx".to_string(), outcome: Ok(vec![sheet("C", &[&["y"], &["2"]])]) },
    ];
    let messages = run_batch(OutputFormat::PlainText, &reads, 1, 5);
    assert_eq!(messages.len(), 4);
    let first = text_of(&messages[0]).unwrap();
    let second = text_of(&messages[1]).unwrap();
    let third = text_of(&messages[2]).unwrap();
    assert!(first.starts_with("Excel File Name: a.xlsx\n\n"));
    assert!(first.contains("Sheet Name: A\n"));
    assert_eq!(second, "Error processing b.xlsx: No such file or directory");
    assert!(third.starts_with("Excel File Name: c.xlsx\n\n"));
    assert!(third.contains("Sheet Name: C\n"));
    assert!(matches!(messages[3], Message::Complete));
    let errors = messages
        .iter()
        .filter(|m| text_of(m).map_or(false, |t| t.starts_with("Error processing")))
        .count();
    assert_eq!(errors, 1);
    let reports = messages
        .iter()
        .filter(|m| text_of(m).map_or(false, |t| t.starts_with("Excel File Name: ")))
        .count();
    assert_eq!(reports, 2);
}

#[test]
fn run_without_files_only_completes() {
    let messages = run_batch(OutputFormat::Markdown, &Vec::new(), 1, 5);
    assert_eq!(messages.len(), 1);
    assert!(matches!(messages[0], Message::Complete));
}

#[test]
fn every_file_has_its_message_at_its_place() {
    let reads: Vec<FileRead> = (0..5)
        .map(|i| FileRead {
            path: format!("f{}.xlsx", i),
            outcome: if i % 2 == 0 {
                Ok(vec![sheet("S", &[&["h"], &["v"]])])
            } else {
                Err(ReadError::Sheet { name: "S".to_string(), cause: "broken".to_string() })
            },
        })
        .collect();
    let messages = run_batch(OutputFormat::XML, &reads, 1, 5);
    assert_eq!(messages.len(), 6);
    for i in 0..5 {
        let text = text_of(&messages[i]).unwrap();
        assert_eq!(
            text,
            file_message(OutputFormat::XML, &reads[i].path, &reads[i].outcome, 1, 5)
        );
        if i % 2 == 0 {
            assert!(text.starts_with(&format!("<excel-file name=\"f{}.xlsx\">", i)));
        } else {
            assert_eq!(
                text,
                format!("Error processing f{}.xlsx: Sheet not found: S - broken", i)
            );
        }
    }
    assert!(matches!(messages[5], Message::Complete));
}

#[test]
fn error_line_for_a_workbook_that_does_not_open() {
    let error = ReadError::Workbook { cause: "invalid Zip archive".to_string() };
    assert_eq!(
        render_error_line("/tmp/x.xlsx", &error),
        "Error processing /tmp/x.xlsx: invalid Zip archive"
    );
}

#[test]
fn error_line_for_a_sheet_that_cannot_be_read() {
    let error = ReadError::Sheet { name: "Totals".to_string(), cause: "cannot find".to_string() };
    assert_eq!(
        render_error_line("x.xlsx", &error),
        "Error processing x.xlsx: Sheet not found: Totals - cannot find"
    );
}

#[test]
fn message_of_a_readable_file_is_its_report() {
    let sheets = vec![sheet("A", &[&["x", "y"], &["1", "2"]]), sheet("B", &[])];
    let expected = render(OutputFormat::Markdown, "a.xlsx", &sheets, 1, 5);
    assert_eq!(file_message(OutputFormat::Markdown, "a.xlsx", &Ok(sheets), 1, 5), expected);
}

#[test]
fn run_moves_on_file_by_file() {
    let job = Job {
        file_paths: vec!["a.xlsx".to_string(), "b.xlsx".to_string()],
        header_rows: 1,
        sample_rows: 2,
        format: OutputFormat::PlainText,
    };
    let mut run = Run::new(job);
    assert_eq!(run.done, 0);
    match run.next_step() {
        Step::Read(path) => assert_eq!(path, "a.xlsx"),
        Step::Finish => panic!("a file is pending"),
    }
    let failed = Err(ReadError::Workbook { cause: "gone".to_string() });
    match run.deliver(&failed) {
        Message::Text(text) => assert_eq!(text, "Error processing a.xlsx: gone"),
        Message::Complete => panic!("a file was pending"),
    }
    assert_eq!(run.done, 1);
    match run.next_step() {
        Step::Read(path) => assert_eq!(path, "b.xlsx"),
        Step::Finish => panic!("a file is pending"),
    }
    let read = Ok(vec![sheet("B", &[&["h"], &["1"], &["2"], &["3"]])]);
    match run.deliver(&read) {
        Message::Text(text) => {
            let expected = "Excel File Name: b.xlsx\n\nSheet 1:\nSheet Name: B\n\nHeaders:\n\
                            Row 1:\nColumn 1: h\n\nSample Data:\n\nh\n1\n2\n\n";
            assert_eq!(text, expected);
        }
        Message::Complete => panic!("a file was pending"),
    }
    assert_eq!(run.done, 2);
    assert!(matches!(run.next_step(), Step::Finish));
    assert!(matches!(run.deliver(&failed), Message::Complete));
    assert_eq!(run.done, 2);
}

#[test]
fn run_without_files_finishes_at_once() {
    let job = Job {
        file_paths: Vec::new(),
        header_rows: 1,
        sample_rows: 5,
        format: OutputFormat::XML,
    };
    let run = Run::new(job);
    assert!(matches!(run.next_step(), Step::Finish));
}
