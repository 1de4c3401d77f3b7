use sp_wasm::error::StrayPhotonsError;
use sp_wasm::input::{InputAction, KeyCode, MouseButton};
use sp_wasm::stdio::{captured_log_line, captured_text, StdStream};

#[test]
fn stdout_line_holds_exactly_the_guest_text() {
    let line = captured_log_line(StdStream::Stdout, b"hello from guest\n".to_vec());
    assert_eq!(line, Some("[WASM STDOUT]: hello from guest\n".to_string()));
}

#[test]
fn stderr_line_decodes_multibyte_text() {
    let text = "caf\u{e9} \u{2713}";
    let line = captured_log_line(StdStream::Stderr, text.as_bytes().to_vec());
    assert_eq!(line, Some(format!("[WASM STDERR]: {}", text)));
}

#[test]
fn no_line_for_empty_or_invalid_output() {
    assert_eq!(captured_log_line(StdStream::Stdout, Vec::new()), None);
    assert_eq!(captured_log_line(StdStream::Stdout, vec![0xc3, 0x28]), None);
}

#[test]
fn captured_text_decodes_or_is_empty() {
    assert_eq!(captured_text(vec![0x61, 0xc3, 0xa9]), "a\u{e9}");
    assert_eq!(captured_text(vec![0xff]), "");
}

#[test]
fn stream_tags() {
    assert_eq!(StdStream::Stdout.tag(), "[WASM STDOUT]: ");
    assert_eq!(StdStream::Stderr.tag(), "[WASM STDERR]: ");
}

#[test]
fn error_text_is_the_decimal_status() {
    assert_eq!(StrayPhotonsError::new(-42).description(), "-42");
    assert_eq!(StrayPhotonsError::new(0).description(), "0");
    assert_eq!(StrayPhotonsError::new(i32::MIN).description(), "-2147483648");
    assert_eq!(StrayPhotonsError::new(1905).details, "1905");
}

#[test]
fn input_codes_match_the_engine() {
    assert_eq!(KeyCode::KEY_INVALID.code(), 0);
    assert_eq!(KeyCode::KEY_A.code(), 65);
    assert_eq!(KeyCode::KEY_ESCAPE.code(), 256);
    assert_eq!(KeyCode::KEY_CONTEXT_MENU.code(), 348);
    assert_eq!(InputAction::REPEAT.code(), 2);
    assert_eq!(MouseButton::BUTTON_8.code(), 7);
}
