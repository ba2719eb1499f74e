use solana_common::accounts_derive::{
    check_accounts_input, is_option_type, plan_account_metas, DerivedAccounts,
};
use solana_common::derive_input::{
    DataInput, DeriveError, FieldType, FieldsInput, NamedField, PathArguments, TypeSegment,
};
use solana_common::meta::{
    parse_account_attr, AccountAttr, AttrMeta, AttributeInput, MetaError, MetaPath, MetaToken,
};
use solana_common::traits::ToAccountMetas;
use solana_common::types::{AccountMeta, Pubkey};

pub const ID: Pubkey = Pubkey([0; 32]);

fn path(name: &str) -> MetaPath {
    MetaPath { leading_colon: false, segments: vec![name.to_string()] }
}

fn ident(s: &str) -> MetaToken {
    MetaToken::Ident(s.to_string())
}

fn punct(ch: char) -> MetaToken {
    MetaToken::Punct { ch, joint: false }
}

fn account_attr(tokens: Vec<MetaToken>) -> AttributeInput {
    AttributeInput { path: path("account"), meta: AttrMeta::List(tokens) }
}

fn simple_type(name: &str) -> FieldType {
    FieldType::Path(vec![TypeSegment { ident: name.to_string(), arguments: PathArguments::Bare }])
}

fn option_type(inner_count: usize) -> FieldType {
    FieldType::Path(vec![TypeSegment {
        ident: "Option".to_string(),
        arguments: PathArguments::AngleBracketed(inner_count),
    }])
}

fn field(name: &str, attrs: Vec<AttributeInput>, ty: FieldType) -> NamedField {
    NamedField { ident: name.to_string(), attrs, ty }
}

/// The struct
/// ```text
/// pub struct TransferAccounts {
///     #[account(mut, is_signer = true)]
///     pub authority: Pubkey,
///     #[account(mut)]
///     pub from: Option<Pubkey>,
///     #[account(is_signer = false)]
///     pub to: Pubkey,
/// }
/// ```
fn transfer_accounts() -> DataInput {
    DataInput::Struct(FieldsInput::Named(vec![
        field(
            "authority",
            vec![account_attr(vec![
                ident("mut"),
                punct(','),
                ident("is_signer"),
                punct('='),
                ident("true"),
            ])],
            simple_type("Pubkey"),
        ),
        field("from", vec![account_attr(vec![ident("mut")])], option_type(1)),
        field(
            "to",
            vec![account_attr(vec![ident("is_signer"), punct('='), ident("false")])],
            simple_type("Pubkey"),
        ),
    ]))
}

#[test]
fn test_transfer_accounts() {
    let authority = Pubkey([7; 32]);
    let from: Option<Pubkey> = None;
    let to = Pubkey([9; 32]);
    let plans = plan_account_metas(&transfer_accounts());
    let accounts = DerivedAccounts::new(plans, vec![Some(authority), from, Some(to)], ID).unwrap();

    let meta_accounts = accounts.to_account_metas();
    assert_eq!(meta_accounts.len(), 3);

    println!("{:?}", meta_accounts);

    assert!(meta_accounts[0].is_signer);
    assert!(meta_accounts[0].is_writable);
    assert_eq!(meta_accounts[0].pubkey, authority);

    assert!(!meta_accounts[1].is_signer);
    assert!(meta_accounts[1].is_writable);
    assert_eq!(meta_accounts[1].pubkey, from.unwrap_or(ID));

    assert!(!meta_accounts[2].is_signer);
    assert!(!meta_accounts[2].is_writable);
    assert_eq!(meta_accounts[2].pubkey, to);
}

#[test]
fn optional_field_with_value_keeps_it() {
    let plans = plan_account_metas(&transfer_accounts());
    let from = Pubkey([8; 32]);
    let accounts =
        DerivedAccounts::new(plans, vec![Some(Pubkey([7; 32])), Some(from), Some(Pubkey([9; 32]))], ID)
            .unwrap();
    let metas = accounts.to_account_metas();
    assert_eq!(metas[1], AccountMeta { pubkey: from, is_signer: false, is_writable: true });
}

#[test]
fn values_must_fit_plans() {
    let plans = plan_account_metas(&transfer_accounts());
    assert!(DerivedAccounts::new(plans, vec![Some(ID), None, None], ID).is_none());
    let plans = plan_account_metas(&transfer_accounts());
    assert!(DerivedAccounts::new(plans, vec![Some(ID)], ID).is_none());
}

#[test]
fn signer_key_is_read_too() {
    let parsed = parse_account_attr(&vec![account_attr(vec![
        ident("signer"),
        punct('='),
        ident("true"),
    ])]);
    assert_eq!(parsed.attr, AccountAttr { is_signer: true, is_mut: false });
    assert!(parsed.errors.is_empty());
}

#[test]
fn later_items_override_earlier_ones() {
    let parsed = parse_account_attr(&vec![
        account_attr(vec![ident("is_signer"), punct('='), ident("true")]),
        account_attr(vec![ident("is_signer"), punct('='), ident("false"), punct(','), ident("mut")]),
    ]);
    assert_eq!(parsed.attr, AccountAttr { is_signer: false, is_mut: true });
}

#[test]
fn bare_signer_changes_nothing() {
    let parsed = parse_account_attr(&vec![account_attr(vec![ident("signer"), punct(','), ident("mut")])]);
    assert_eq!(parsed.attr, AccountAttr { is_signer: false, is_mut: true });
    assert!(parsed.errors.is_empty());
}

#[test]
fn account_faults_keep_what_came_before() {
    let parsed = parse_account_attr(&vec![account_attr(vec![
        ident("mut"),
        punct(','),
        ident("is_signer"),
        punct('='),
        ident("yes"),
    ])]);
    assert_eq!(parsed.attr, AccountAttr { is_signer: false, is_mut: true });
    assert_eq!(parsed.errors, vec![MetaError::ExpectedBool]);

    let parsed = parse_account_attr(&vec![account_attr(vec![
        ident("other"),
        punct('='),
        ident("true"),
        punct(','),
        ident("mut"),
    ])]);
    assert_eq!(parsed.attr, AccountAttr { is_signer: false, is_mut: false });
    assert_eq!(parsed.errors, vec![MetaError::ExpectedComma]);
}

#[test]
fn other_attributes_are_passed_over() {
    let parsed = parse_account_attr(&vec![
        AttributeInput { path: path("doc"), meta: AttrMeta::NameValue },
        AttributeInput {
            path: MetaPath { leading_colon: true, segments: vec!["account".to_string()] },
            meta: AttrMeta::List(vec![ident("mut")]),
        },
        account_attr(vec![]),
    ]);
    assert_eq!(parsed.attr, AccountAttr { is_signer: false, is_mut: false });
    assert!(parsed.errors.is_empty());

    let parsed = parse_account_attr(&vec![AttributeInput { path: path("account"), meta: AttrMeta::Path }]);
    assert_eq!(parsed.errors, vec![MetaError::ExpectedParentheses]);
}

#[test]
fn paths_with_segments_are_not_keys() {
    let tokens = vec![
        ident("a"),
        MetaToken::Punct { ch: ':', joint: true },
        punct(':'),
        ident("mut"),
        punct(','),
        ident("mut"),
    ];
    let parsed = parse_account_attr(&vec![account_attr(tokens)]);
    assert_eq!(parsed.attr, AccountAttr { is_signer: false, is_mut: true });
    assert!(parsed.errors.is_empty());

    let dangling = vec![ident("a"), MetaToken::Punct { ch: ':', joint: true }, punct(':')];
    let parsed = parse_account_attr(&vec![account_attr(dangling)]);
    assert_eq!(parsed.errors, vec![MetaError::ExpectedIdent]);
}

#[test]
fn option_types_are_detected() {
    assert!(is_option_type(&option_type(1)));
    assert!(!is_option_type(&option_type(0)));
    assert!(!is_option_type(&simple_type("Pubkey")));
    assert!(!is_option_type(&simple_type("Option")));
    assert!(!is_option_type(&FieldType::Other));
    let qualified = FieldType::Path(vec![
        TypeSegment { ident: "std".to_string(), arguments: PathArguments::Bare },
        TypeSegment { ident: "option".to_string(), arguments: PathArguments::Bare },
        TypeSegment { ident: "Option".to_string(), arguments: PathArguments::AngleBracketed(1) },
    ]);
    assert!(is_option_type(&qualified));
    let parenthesized = FieldType::Path(vec![TypeSegment {
        ident: "Option".to_string(),
        arguments: PathArguments::Parenthesized,
    }]);
    assert!(!is_option_type(&parenthesized));
}

#[test]
fn account_derive_refuses_other_items() {
    assert_eq!(
        check_accounts_input(&DataInput::Struct(FieldsInput::Unnamed)),
        Err(DeriveError::OnlyNamedFields)
    );
    assert_eq!(
        check_accounts_input(&DataInput::Struct(FieldsInput::Unit)),
        Err(DeriveError::OnlyNamedFields)
    );
    assert_eq!(check_accounts_input(&DataInput::Union), Err(DeriveError::OnlyStructs));
    assert_eq!(check_accounts_input(&DataInput::Enum(vec![])), Err(DeriveError::OnlyStructs));
    assert_eq!(check_accounts_input(&transfer_accounts()), Ok(()));
}

#[test]
fn plans_follow_fields() {
    let plans = plan_account_metas(&transfer_accounts());
    assert_eq!(plans.len(), 3);
    assert_eq!(plans[0].field, "authority");
    assert!(plans[0].is_signer && plans[0].is_writable && !plans[0].is_optional);
    assert_eq!(plans[1].field, "from");
    assert!(!plans[1].is_signer && plans[1].is_writable && plans[1].is_optional);
    assert_eq!(plans[2].field, "to");
    assert!(!plans[2].is_signer && !plans[2].is_writable && !plans[2].is_optional);
}
