use ownership_demo::input::LineRead;
use ownership_demo::input::exit_code;
use ownership_demo::input::input_message;
use ownership_demo::input::input_prompt;

#[test]
fn prompt_text() {
    assert_eq!(input_prompt(), "Eingabe: ");
}

#[test]
fn read_line_is_quoted() {
    let read = LineRead::Line(String::from("hallo welt"));
    assert_eq!(input_message(&read), "Gelesene Eingabe: \"hallo welt\"");
    assert_eq!(exit_code(&read), 0);
}

#[test]
fn empty_line_is_still_a_line() {
    let read = LineRead::Line(String::new());
    assert_eq!(input_message(&read), "Gelesene Eingabe: \"\"");
    assert_eq!(exit_code(&read), 0);
}

#[test]
fn empty_stream_reports_no_input_and_succeeds() {
    let read = LineRead::EndOfInput;
    assert_eq!(input_message(&read), "Keine Eingabe");
    assert_eq!(exit_code(&read), 0);
}

#[test]
fn failed_read_reports_error_and_nonzero_status() {
    let read = LineRead::Failed;
    assert_eq!(input_message(&read), "Fehler beim Lesen");
    assert_ne!(exit_code(&read), 0);
}
