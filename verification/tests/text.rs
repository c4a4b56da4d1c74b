use wasm_validate::text::{desugar_wat, parse_bytes, parse_wat, print_bytes};

const EMPTY: [u8; 8] = [0x00, 0x61, 0x73, 0x6d, 0x01, 0x00, 0x00, 0x00];

#[test]
fn parse_wat_of_the_empty_module() {
    assert_eq!(parse_wat("(module)".to_string()).unwrap(), EMPTY.to_vec());
}

#[test]
fn parse_wat_rejects_what_is_no_module() {
    let r = parse_wat("(modul".to_string());
    assert!(r.is_err());
    assert!(!r.unwrap_err().is_empty());
}

#[test]
fn parse_bytes_takes_text() {
    assert_eq!(parse_bytes(b"(module)".to_vec()).unwrap(), EMPTY.to_vec());
}

#[test]
fn parse_bytes_passes_a_binary_through() {
    let binary = parse_wat("(module (memory 1))".to_string()).unwrap();
    assert_eq!(parse_bytes(binary.clone()).unwrap(), binary);
}

#[test]
fn parse_bytes_rejects_bad_text() {
    assert!(parse_bytes(b"(func".to_vec()).is_err());
}

#[test]
fn print_bytes_of_the_empty_module() {
    let text = print_bytes(EMPTY.to_vec()).unwrap();
    assert_eq!(text.trim(), "(module)");
}

#[test]
fn print_bytes_rejects_what_is_no_binary() {
    assert!(print_bytes(vec![9, 9, 9, 9]).is_err());
}

#[test]
fn desugar_wat_gives_both_forms() {
    let d = desugar_wat("(module (func (export \"f\") (result i32) i32.const 1))".to_string()).unwrap();
    assert_eq!(d.bytes, parse_wat("(module (func (export \"f\") (result i32) i32.const 1))".to_string()).unwrap());
    assert_eq!(d.wat, print_bytes(d.bytes.clone()).unwrap());
    assert!(d.wat.contains("i32.const 1"));
    assert!(d.wat.contains("(type"));
}

#[test]
fn desugar_wat_rejects_bad_text() {
    assert!(desugar_wat("(module (func".to_string()).is_err());
}

#[test]
fn parse_bytes_rejects_what_is_no_utf8() {
    assert_eq!(parse_bytes(vec![0xff, 0xfe, 0x28]).unwrap_err(), "input bytes aren't valid utf-8");
}

#[test]
fn parse_bytes_agrees_with_parse_wat() {
    let text = "(module (func (param i32) (result i32) local.get 0))";
    assert_eq!(parse_bytes(text.as_bytes().to_vec()).unwrap(), parse_wat(text.to_string()).unwrap());
    assert_eq!(parse_bytes(b"(modul".to_vec()).unwrap_err(), parse_wat("(modul".to_string()).unwrap_err());
}

#[test]
fn parse_bytes_keeps_a_binary_that_is_no_module() {
    let bytes = vec![0x00, 0x61, 0x73, 0x6d, 0xff, 0xff];
    assert_eq!(parse_bytes(bytes.clone()).unwrap(), bytes);
}
