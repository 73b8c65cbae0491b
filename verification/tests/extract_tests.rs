use anchor_idl_kit::errors::IdlError;
use anchor_idl_kit::extract::extract_program_id;

#[test]
fn extracts_id_from_plain_declaration() {
    let src = "use anchor_lang::prelude::*;\n\ndeclare_id!(\"Fg6PaFpoGXkYsidMpWTK6W2BeZ7FEfcYkg476zPFsLnS\");\n\n#[program]\npub mod demo {}\n";
    let got = extract_program_id(src).unwrap();
    assert_eq!(got, "Fg6PaFpoGXkYsidMpWTK6W2BeZ7FEfcYkg476zPFsLnS");
}

#[test]
fn extracts_id_despite_leading_whitespace() {
    let src = "// header\n   \t declare_id!(\"Prog1111111111111111111111111111111111111111\");\ntrailing line\n";
    let got = extract_program_id(src).unwrap();
    assert_eq!(got, "Prog1111111111111111111111111111111111111111");
}

#[test]
fn first_matching_line_wins() {
    let src = "declare_id!(\"First111111111111111111111111111111111111111\");\ndeclare_id!(\"Second11111111111111111111111111111111111111\");\n";
    let got = extract_program_id(src).unwrap();
    assert_eq!(got, "First111111111111111111111111111111111111111");
}

#[test]
fn missing_macro_reports_macro_not_found() {
    let src = "use anchor_lang::prelude::*;\npub mod demo {}\n";
    let err = extract_program_id(src).unwrap_err();
    assert!(matches!(err, IdlError::MacroNotFound));
}

#[test]
fn empty_source_reports_macro_not_found() {
    let err = extract_program_id("").unwrap_err();
    assert!(matches!(err, IdlError::MacroNotFound));
}

#[test]
fn line_without_quotes_is_malformed() {
    let src = "declare_id!(PROGRAM_ID);\n";
    let err = extract_program_id(src).unwrap_err();
    assert!(matches!(err, IdlError::MalformedLiteral));
}

#[test]
fn line_with_single_quote_is_malformed() {
    let src = "declare_id!(\"unterminated);\n";
    let err = extract_program_id(src).unwrap_err();
    assert!(matches!(err, IdlError::MalformedLiteral));
}

#[test]
fn empty_literal_is_accepted_verbatim() {
    let src = "declare_id!(\"\");\n";
    let got = extract_program_id(src).unwrap();
    assert_eq!(got, "");
}

#[test]
fn macro_token_must_start_the_trimmed_line() {
    let src = "// declare_id is set below\nlet x = 1; declare_id!(\"Hidden1111111111111111111111111111111111111\");\n";
    let err = extract_program_id(src).unwrap_err();
    assert!(matches!(err, IdlError::MacroNotFound));
}
