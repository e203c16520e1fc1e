use std::collections::HashSet;

use idl_model::Idl;
use idl_model::IdlAccount;
use idl_model::IdlField;
use idl_model::IdlInstruction;
use idl_model::IdlInstructionAccount;
use idl_model::IdlInstructionAccountItem;
use idl_model::IdlInstructionAccounts;
use idl_model::IdlMetadata;
use idl_model::IdlSeed;
use idl_model::IdlSeedAccount;
use idl_model::IdlSeedArg;
use idl_model::IdlSeedConst;
use idl_model::IdlType;

fn single_account(name: &str) -> IdlInstructionAccount {
    IdlInstructionAccount {
        name: name.to_string(),
        docs: Vec::new(),
        writable: false,
        signer: false,
        optional: false,
        address: None,
        pda: None,
        relations: Vec::new(),
    }
}

fn small_document() -> Idl {
    Idl {
        address: "11111111111111111111111111111111".to_string(),
        metadata: IdlMetadata {
            name: "counter".to_string(),
            version: "0.1.0".to_string(),
            spec: "0.1.0".to_string(),
            description: None,
            repository: None,
            dependencies: Vec::new(),
            contact: None,
            deployments: None,
        },
        docs: Vec::new(),
        instructions: vec![IdlInstruction {
            name: "increment".to_string(),
            docs: Vec::new(),
            discriminator: vec![11, 18, 104, 9, 104, 174, 59, 33],
            accounts: vec![
                IdlInstructionAccountItem::Single(single_account("counter")),
                IdlInstructionAccountItem::Composite(IdlInstructionAccounts {
                    name: "authority_group".to_string(),
                    accounts: vec![IdlInstructionAccountItem::Single(single_account(
                        "authority",
                    ))],
                }),
            ],
            args: vec![IdlField {
                name: "amount".to_string(),
                docs: Vec::new(),
                ty: IdlType::U64,
            }],
            returns: None,
        }],
        accounts: vec![IdlAccount {
            name: "Counter".to_string(),
            discriminator: vec![255, 176, 4, 245, 188, 253, 124, 25],
        }],
        events: Vec::new(),
        errors: Vec::new(),
        types: Vec::new(),
        constants: Vec::new(),
    }
}

#[test]
fn documents_compare_structurally() {
    let a = small_document();
    let b = small_document();
    assert_eq!(a, b);

    let mut c = small_document();
    c.instructions[0].name = "decrement".to_string();
    assert_ne!(a, c);
}

#[test]
fn account_items_nest_arbitrarily() {
    let nested = IdlInstructionAccountItem::Composite(IdlInstructionAccounts {
        name: "outer".to_string(),
        accounts: vec![IdlInstructionAccountItem::Composite(IdlInstructionAccounts {
            name: "inner".to_string(),
            accounts: vec![IdlInstructionAccountItem::Single(single_account("leaf"))],
        })],
    });
    match nested {
        IdlInstructionAccountItem::Composite(outer) => {
            assert_eq!(outer.accounts.len(), 1);
            match &outer.accounts[0] {
                IdlInstructionAccountItem::Composite(inner) => {
                    assert_eq!(inner.name, "inner");
                    assert_eq!(inner.accounts.len(), 1);
                }
                IdlInstructionAccountItem::Single(_) => panic!("expected a nested group"),
            }
        }
        IdlInstructionAccountItem::Single(_) => panic!("expected a group"),
    }
}

#[test]
fn seed_equality_supports_deduplication() {
    let seeds = vec![
        IdlSeed::Const(IdlSeedConst { value: vec![115, 101, 101, 100] }),
        IdlSeed::Const(IdlSeedConst { value: vec![115, 101, 101, 100] }),
        IdlSeed::Arg(IdlSeedArg { path: "owner".to_string() }),
        IdlSeed::Account(IdlSeedAccount { path: "mint".to_string(), account: None }),
        IdlSeed::Account(IdlSeedAccount { path: "mint".to_string(), account: None }),
        IdlSeed::Account(IdlSeedAccount {
            path: "mint".to_string(),
            account: Some("Mint".to_string()),
        }),
    ];
    let unique: HashSet<IdlSeed> = seeds.into_iter().collect();
    assert_eq!(unique.len(), 4);
}
