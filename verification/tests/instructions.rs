use sha2::{Digest, Sha256};
use solana_common::derive_input::{
    DataInput, DeriveError, FieldType, FieldsInput, NamedField, PathArguments, TypeSegment,
    VariantInput,
};
use solana_common::instructions_derive::{
    check_instructions_input, instruction_name, plan_instructions,
};
use solana_common::meta::{AttrMeta, AttributeInput, MetaError, MetaPath, MetaToken};
use solana_common::sighash::{
    discriminator_from_digest, generate_discriminator, sighash_preimage_bytes,
    SIGHASH_GLOBAL_NAMESPACE,
};

fn expected_discriminator(namespace: &str, name: &str) -> [u8; 8] {
    let mut hasher = Sha256::new();
    hasher.update(format!("{namespace}:{name}").as_bytes());
    let discriminator = hasher.finalize();
    discriminator[..8].try_into().unwrap()
}

fn path(name: &str) -> MetaPath {
    MetaPath { leading_colon: false, segments: vec![name.to_string()] }
}

fn ident(s: &str) -> MetaToken {
    MetaToken::Ident(s.to_string())
}

fn punct(ch: char) -> MetaToken {
    MetaToken::Punct { ch, joint: false }
}

fn lit(s: &str) -> MetaToken {
    MetaToken::Literal(s.to_string())
}

fn instruction_attr(tokens: Vec<MetaToken>) -> AttributeInput {
    AttributeInput { path: path("instruction"), meta: AttrMeta::List(tokens) }
}

fn rename_attr(name: &str) -> AttributeInput {
    instruction_attr(vec![ident("rename"), punct('='), lit(&format!("\"{name}\""))])
}

fn variant(name: &str, attrs: Vec<AttributeInput>, fields: FieldsInput) -> VariantInput {
    VariantInput { ident: name.to_string(), attrs, fields }
}

/// The enum `Test { #[instruction(rename = "woo")] TestWoo { test: u64 }, TestPig }`.
fn test_enum() -> DataInput {
    DataInput::Enum(vec![
        variant(
            "TestWoo",
            vec![rename_attr("woo")],
            FieldsInput::Named(vec![NamedField {
                ident: "test".to_string(),
                attrs: vec![],
                ty: FieldType::Path(vec![TypeSegment {
                    ident: "u64".to_string(),
                    arguments: PathArguments::Bare,
                }]),
            }]),
        ),
        variant("TestPig", vec![], FieldsInput::Unit),
    ])
}

#[test]
fn test_discriminator_without_rename() {
    let discriminator = expected_discriminator("global", "test_pig");
    let plans = plan_instructions(&test_enum());
    assert_eq!(discriminator, plans[1].discriminator);
}

#[test]
fn test_discriminator_with_rename() {
    let discriminator = expected_discriminator("global", "woo");
    let plans = plan_instructions(&test_enum());
    assert_eq!(discriminator, plans[0].discriminator);
}

#[test]
fn generate_discriminator_matches_sha256_prefix() {
    assert_eq!(
        generate_discriminator("account", "Vault"),
        expected_discriminator("account", "Vault")
    );
    assert_eq!(
        generate_discriminator(SIGHASH_GLOBAL_NAMESPACE, "initialize"),
        [175, 175, 109, 31, 13, 152, 155, 237]
    );
}

#[test]
fn preimage_is_namespace_colon_name_in_utf8() {
    assert_eq!(sighash_preimage_bytes("global", "woo"), b"global:woo".to_vec());
    assert_eq!(sighash_preimage_bytes("ns", "é"), "ns:é".as_bytes().to_vec());
    assert_eq!(sighash_preimage_bytes("", ""), b":".to_vec());
}

#[test]
fn discriminator_is_first_eight_digest_bytes() {
    let digest: Vec<u8> = (0u8..32).collect();
    assert_eq!(discriminator_from_digest(&digest), [0, 1, 2, 3, 4, 5, 6, 7]);
}

#[test]
fn variant_names_go_to_snake_case() {
    let (name, errors) = instruction_name(&variant("TestPig", vec![], FieldsInput::Unit));
    assert_eq!(name, "test_pig");
    assert!(errors.is_empty());
    let (name, _) = instruction_name(&variant("InitializeVault", vec![], FieldsInput::Unit));
    assert_eq!(name, "initialize_vault");
}

#[test]
fn rename_takes_the_literal_value() {
    let (name, errors) =
        instruction_name(&variant("TestWoo", vec![rename_attr("woo")], FieldsInput::Unit));
    assert_eq!(name, "woo");
    assert!(errors.is_empty());
    let escaped = instruction_attr(vec![ident("rename"), punct('='), lit("\"a\\\"b\"")]);
    let (name, _) = instruction_name(&variant("X", vec![escaped], FieldsInput::Unit));
    assert_eq!(name, "a\"b");
}

#[test]
fn first_rename_attribute_wins() {
    let attrs = vec![rename_attr("first"), rename_attr("second")];
    let (name, _) = instruction_name(&variant("X", attrs, FieldsInput::Unit));
    assert_eq!(name, "first");
    let last_in_list = instruction_attr(vec![
        ident("rename"),
        punct('='),
        lit("\"a\""),
        punct(','),
        ident("rename"),
        punct('='),
        lit("\"b\""),
    ]);
    let (name, _) = instruction_name(&variant("X", vec![last_in_list], FieldsInput::Unit));
    assert_eq!(name, "b");
}

#[test]
fn other_attributes_and_items_are_passed_over() {
    let attrs = vec![
        AttributeInput { path: path("doc"), meta: AttrMeta::NameValue },
        instruction_attr(vec![]),
        instruction_attr(vec![ident("other"), punct(','), ident("flag"), punct(',')]),
    ];
    let (name, errors) = instruction_name(&variant("MyIx", attrs, FieldsInput::Unit));
    assert_eq!(name, "my_ix");
    assert!(errors.is_empty());
}

#[test]
fn rename_faults_are_reported() {
    let not_string = instruction_attr(vec![ident("rename"), punct('='), lit("5")]);
    let (name, errors) = instruction_name(&variant("MyIx", vec![not_string], FieldsInput::Unit));
    assert_eq!(name, "my_ix");
    assert_eq!(errors, vec![MetaError::ExpectedString]);

    let bare = AttributeInput { path: path("instruction"), meta: AttrMeta::Path };
    let (_, errors) = instruction_name(&variant("MyIx", vec![bare], FieldsInput::Unit));
    assert_eq!(errors, vec![MetaError::ExpectedParentheses]);

    let no_comma = instruction_attr(vec![ident("a"), ident("b")]);
    let (_, errors) = instruction_name(&variant("MyIx", vec![no_comma], FieldsInput::Unit));
    assert_eq!(errors, vec![MetaError::ExpectedComma]);

    let starts_with_literal = instruction_attr(vec![lit("\"x\"")]);
    let (_, errors) =
        instruction_name(&variant("MyIx", vec![starts_with_literal], FieldsInput::Unit));
    assert_eq!(errors, vec![MetaError::ExpectedIdent]);
}

#[test]
fn rename_set_before_a_fault_is_kept() {
    let attr = instruction_attr(vec![ident("rename"), punct('='), lit("\"kept\""), ident("junk")]);
    let (name, errors) = instruction_name(&variant("X", vec![attr], FieldsInput::Unit));
    assert_eq!(name, "kept");
    assert_eq!(errors, vec![MetaError::ExpectedComma]);
}

#[test]
fn instructions_refuse_tuple_variants_and_non_enums() {
    let input = DataInput::Enum(vec![
        variant("A", vec![], FieldsInput::Unit),
        variant("B", vec![], FieldsInput::Unnamed),
    ]);
    assert_eq!(check_instructions_input(&input), Err(DeriveError::UnnamedFields));
    let input = DataInput::Struct(FieldsInput::Unit);
    assert_eq!(check_instructions_input(&input), Err(DeriveError::OnlyEnums));
    assert_eq!(check_instructions_input(&DataInput::Union), Err(DeriveError::OnlyEnums));
    assert_eq!(check_instructions_input(&test_enum()), Ok(()));
}

#[test]
fn instruction_plans_follow_variants() {
    let plans = plan_instructions(&test_enum());
    assert_eq!(plans.len(), 2);
    assert_eq!(plans[0].name, "woo");
    assert!(plans[0].has_named_fields);
    assert_eq!(plans[1].name, "test_pig");
    assert!(!plans[1].has_named_fields);
}
