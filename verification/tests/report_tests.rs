use anchor_idl_kit::accounts::display_accounts;
use anchor_idl_kit::model::{
    IdlDocument, IdlField, IdlInstruction, IdlInstructionAccount, IdlInstructionAccountItem,
    IdlMetadata, IdlPda, IdlType,
};
use anchor_idl_kit::report::display_instructions;

fn single(name: &str, writable: bool, signer: bool, optional: bool) -> IdlInstructionAccountItem {
    IdlInstructionAccountItem::Single(IdlInstructionAccount {
        name: name.to_string(),
        writable,
        signer,
        optional,
        pda: None,
    })
}

#[test]
fn composite_group_renders_children_one_level_deeper() {
    let items = vec![IdlInstructionAccountItem::Composite {
        name: "authority_group".to_string(),
        accounts: vec![single("payer", true, true, false), single("vault", true, false, false)],
    }];
    let rendered = display_accounts(&items, 1);
    assert_eq!(
        rendered,
        "      authority_group:\n        payer (writable, signer)\n        vault (writable)\n"
    );
}

#[test]
fn attributes_keep_the_fixed_order() {
    let items = vec![single("all_flags", true, true, true)];
    let rendered = display_accounts(&items, 0);
    assert_eq!(rendered, "    all_flags (writable, signer, optional)\n");
}

#[test]
fn account_without_attributes_renders_bare_name() {
    let items = vec![single("system_program", false, false, false)];
    let rendered = display_accounts(&items, 0);
    assert_eq!(rendered, "    system_program\n");
}

#[test]
fn derived_address_reports_its_seed_count() {
    let items = vec![IdlInstructionAccountItem::Single(IdlInstructionAccount {
        name: "vault".to_string(),
        writable: true,
        signer: false,
        optional: false,
        pda: Some(IdlPda { seed_count: 3 }),
    })];
    let rendered = display_accounts(&items, 0);
    assert_eq!(rendered, "    vault (writable)\n      PDA with 3 seeds\n");
}

#[test]
fn deep_nesting_indents_proportionally() {
    let items = vec![IdlInstructionAccountItem::Composite {
        name: "outer".to_string(),
        accounts: vec![IdlInstructionAccountItem::Composite {
            name: "inner".to_string(),
            accounts: vec![single("leaf", false, true, false)],
        }],
    }];
    let rendered = display_accounts(&items, 1);
    assert_eq!(rendered, "      outer:\n        inner:\n          leaf (signer)\n");
}

fn sample_doc() -> IdlDocument {
    IdlDocument {
        address: "Prog1111111111111111111111111111111111111111".to_string(),
        metadata: IdlMetadata { name: "demo".to_string(), version: "0.1.0".to_string() },
        instructions: vec![
            IdlInstruction {
                name: "initialize".to_string(),
                docs: vec!["Sets things up.".to_string()],
                discriminator: vec![1, 2, 3, 4, 5, 6, 7, 8],
                accounts: vec![single("payer", true, true, false)],
                args: vec![IdlField {
                    name: "amount".to_string(),
                    docs: vec!["The starting".to_string(), "amount.".to_string()],
                    ty: IdlType::U64,
                }],
                returns: Some(IdlType::Bool),
            },
            IdlInstruction {
                name: "close".to_string(),
                docs: vec![],
                discriminator: vec![9, 9, 9, 9, 9, 9, 9, 9],
                accounts: vec![],
                args: vec![],
                returns: None,
            },
        ],
        accounts: vec![],
        events: vec![],
        types: vec![],
    }
}

#[test]
fn full_report_shows_every_section_in_order() {
    let doc = sample_doc();
    let report = display_instructions(&doc, false);
    let expected = "\nProgram: demo (v0.1.0)\n\
                    Address: Prog1111111111111111111111111111111111111111\n\
                    \nInstructions (2):\n\
                    \n1. initialize\n\
                    \x20  Description:\n\
                    \x20    Sets things up.\n\
                    \x20  Arguments:\n\
                    \x20    amount (u64)\n\
                    \x20      The starting amount.\n\
                    \x20  Accounts:\n\
                    \x20     payer (writable, signer)\n\
                    \x20  Returns: bool\n\
                    \n2. close\n\
                    \x20  Arguments: None\n\
                    \x20  Accounts:\n\
                    \x20    None\n";
    assert_eq!(report, expected);
}

#[test]
fn names_only_report_lists_numbered_names_in_document_order() {
    let doc = sample_doc();
    let report = display_instructions(&doc, true);
    let expected = "\nProgram: demo (v0.1.0)\n\
                    Address: Prog1111111111111111111111111111111111111111\n\
                    \nInstructions (2):\n\
                    \n1. initialize\n\
                    \n2. close\n";
    assert_eq!(report, expected);
}
