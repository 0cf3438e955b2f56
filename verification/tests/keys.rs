use paddleocr_rs_onnx::text::load_keys;
use paddleocr_rs_onnx::PaddleOcrError;

#[test]
fn keys_are_the_lines_of_the_dictionary() {
    let keys = load_keys(b"a\nb\r\nc\n").unwrap();
    assert_eq!(keys, vec!["a".to_string(), "b".to_string(), "c".to_string()]);
}

#[test]
fn final_line_ending_is_optional() {
    assert_eq!(load_keys(b"x\ny").unwrap(), load_keys(b"x\ny\n").unwrap());
    assert_eq!(load_keys(b"x\ny").unwrap(), load_keys(b"x\ny\r\n").unwrap());
}

#[test]
fn empty_dictionary_has_no_keys() {
    assert!(load_keys(b"").unwrap().is_empty());
}

#[test]
fn blank_lines_are_keys() {
    assert_eq!(load_keys(b"\n\n").unwrap(), vec![String::new(), String::new()]);
    assert_eq!(load_keys(b" \n").unwrap(), vec![" ".to_string()]);
}

#[test]
fn lone_carriage_return_is_kept() {
    assert_eq!(load_keys(b"a\rb").unwrap(), vec!["a\rb".to_string()]);
    assert_eq!(load_keys(b"a\r").unwrap(), vec!["a\r".to_string()]);
}

#[test]
fn multibyte_keys() {
    let keys = load_keys("中\n文\n".as_bytes()).unwrap();
    assert_eq!(keys, vec!["中".to_string(), "文".to_string()]);
}

#[test]
fn invalid_utf8_is_refused() {
    match load_keys(&[b'a', b'\n', 0xff, 0xfe]) {
        Err(PaddleOcrError::Utf8(_)) => {}
        other => panic!("expected a Utf8 error, got {:?}", other),
    }
}
