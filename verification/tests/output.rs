use passrs::input::HandlerResult;
use passrs::output::{write_result, TerminalOutput};
use passrs::secrets::ZeroizedString;

#[test]
fn result_of_insert_should_write_success_if_secret_saved() {
    let mut output = TerminalOutput::new(Vec::new());
    let result = HandlerResult::Insert("test".to_owned());
    write_result(result, &mut output);
    let message = std::str::from_utf8(output.as_bytes()).unwrap();
    assert_eq!(message, "Secret saved.");
}

#[test]
fn result_of_retrieve_should_write_value() {
    let value = ZeroizedString::new("value".to_owned());
    let mut output = TerminalOutput::new(Vec::new());
    let result = HandlerResult::Retrieve(value.clone());
    write_result(result, &mut output);
    let message = std::str::from_utf8(output.as_bytes()).unwrap();
    assert_eq!(message, &*value);
}

#[test]
fn result_of_initialize_should_write_success() {
    let mut output = TerminalOutput::new(Vec::new());
    write_result(HandlerResult::Initialize, &mut output);
    assert_eq!(output.as_bytes(), b"Store initialized.");
}

#[test]
fn writes_follow_one_another() {
    let mut output = TerminalOutput::new(b"> ".to_vec());
    output.write("ä");
    output.write("");
    output.write("b");
    assert_eq!(output.as_bytes(), &[b'>', b' ', 0xc3, 0xa4, b'b']);
}

#[test]
fn a_new_output_holds_what_it_was_given() {
    assert_eq!(TerminalOutput::new(Vec::new()).as_bytes(), b"");
    assert_eq!(TerminalOutput::new(vec![1, 2]).as_bytes(), &[1u8, 2]);
}
