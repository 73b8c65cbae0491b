use anchor_idl_kit::errors::{DiscKind, IdlError};
use anchor_idl_kit::model::{
    IdlDocument, IdlInstruction, IdlItemDecl, IdlMetadata, IdlTypeDecl,
};
use anchor_idl_kit::validate::validate_idl;

fn minimal_doc() -> IdlDocument {
    IdlDocument {
        address: "Prog1111111111111111111111111111111111111111".to_string(),
        metadata: IdlMetadata { name: "demo".to_string(), version: "0.1.0".to_string() },
        instructions: vec![IdlInstruction {
            name: "initialize".to_string(),
            docs: vec![],
            discriminator: vec![175, 175, 109, 31, 13, 152, 155, 237],
            accounts: vec![],
            args: vec![],
            returns: None,
        }],
        accounts: vec![IdlItemDecl {
            name: "State".to_string(),
            discriminator: vec![216, 146, 107, 94, 104, 75, 182, 177],
        }],
        events: vec![IdlItemDecl {
            name: "Initialized".to_string(),
            discriminator: vec![189, 201, 20, 27, 9, 40, 69, 27],
        }],
        types: vec![IdlTypeDecl { name: "State".to_string() }],
    }
}

#[test]
fn minimal_well_formed_document_passes_with_counts() {
    let doc = minimal_doc();
    let summary = validate_idl(&doc).unwrap();
    assert_eq!(summary.accounts, 1);
    assert_eq!(summary.instructions, 1);
    assert_eq!(summary.types, 1);
}

#[test]
fn missing_address_wins_over_missing_name() {
    let mut doc = minimal_doc();
    doc.address = String::new();
    doc.metadata.name = String::new();
    let err = validate_idl(&doc).unwrap_err();
    assert!(matches!(err, IdlError::MissingAddress));
}

#[test]
fn empty_name_is_rejected() {
    let mut doc = minimal_doc();
    doc.metadata.name = String::new();
    let err = validate_idl(&doc).unwrap_err();
    assert!(matches!(err, IdlError::MissingName));
}

#[test]
fn empty_version_is_rejected() {
    let mut doc = minimal_doc();
    doc.metadata.version = String::new();
    let err = validate_idl(&doc).unwrap_err();
    assert!(matches!(err, IdlError::MissingVersion));
}

#[test]
fn first_account_with_empty_discriminator_is_named() {
    let mut doc = minimal_doc();
    doc.accounts.push(IdlItemDecl { name: "Empty1".to_string(), discriminator: vec![] });
    doc.accounts.push(IdlItemDecl { name: "Empty2".to_string(), discriminator: vec![] });
    let err = validate_idl(&doc).unwrap_err();
    match err {
        IdlError::EmptyDiscriminator { kind, name } => {
            assert_eq!(kind, DiscKind::Account);
            assert_eq!(name, "Empty1");
        },
        other => panic!("unexpected error: {:?}", other),
    }
}

#[test]
fn instruction_with_empty_discriminator_is_named() {
    let mut doc = minimal_doc();
    doc.instructions[0].discriminator = vec![];
    let err = validate_idl(&doc).unwrap_err();
    match err {
        IdlError::EmptyDiscriminator { kind, name } => {
            assert_eq!(kind, DiscKind::Instruction);
            assert_eq!(name, "initialize");
        },
        other => panic!("unexpected error: {:?}", other),
    }
}

#[test]
fn event_with_empty_discriminator_is_named() {
    let mut doc = minimal_doc();
    doc.events[0].discriminator = vec![];
    let err = validate_idl(&doc).unwrap_err();
    match err {
        IdlError::EmptyDiscriminator { kind, name } => {
            assert_eq!(kind, DiscKind::Event);
            assert_eq!(name, "Initialized");
        },
        other => panic!("unexpected error: {:?}", other),
    }
}

#[test]
fn account_errors_win_over_instruction_errors() {
    let mut doc = minimal_doc();
    doc.accounts[0].discriminator = vec![];
    doc.instructions[0].discriminator = vec![];
    let err = validate_idl(&doc).unwrap_err();
    match err {
        IdlError::EmptyDiscriminator { kind, name } => {
            assert_eq!(kind, DiscKind::Account);
            assert_eq!(name, "State");
        },
        other => panic!("unexpected error: {:?}", other),
    }
}

#[test]
fn empty_collections_are_valid() {
    let mut doc = minimal_doc();
    doc.instructions = vec![];
    doc.accounts = vec![];
    doc.events = vec![];
    doc.types = vec![];
    let summary = validate_idl(&doc).unwrap();
    assert_eq!(summary.accounts, 0);
    assert_eq!(summary.instructions, 0);
    assert_eq!(summary.types, 0);
}
