//! The `ToAccountMetas` derive: each named field of a struct becomes one
//! account of the instruction, in field order. `#[account(mut)]` makes it
//! writable, `#[account(signer = true)]` (or `is_signer = true`) makes it a
//! signer, and a field of type `Option<..>` falls back to the program id when
//! it is `None`.
use vstd::prelude::*;

use crate::derive_input::{DataInput, DeriveError, FieldType, FieldsInput, NamedField, PathArguments};
use crate::meta::{
    account_attrs, account_attrs_have_ident, bool_text, ident_at, is_ident, law_account_attrs_flags, law_signer_item, parse_account_attr, parse_path, AccountAttr, AttrMeta,
    MetaError, MetaToken, SpecPath, account_items,
};
use crate::text::str_eq;
use crate::traits::ToAccountMetas;
use crate::types::{AccountMeta, Pubkey};

verus! {

/// Whether the type is a path whose last segment is `Option` with at least
/// one generic argument in angle brackets.
pub open spec fn spec_is_option_type(ty: FieldType) -> bool {
    match ty {
        FieldType::Path(segs) => {
            &&& segs@.len() > 0
            &&& segs@.last().ident@ == "Option"@
            &&& segs@.last().arguments matches PathArguments::AngleBracketed(n) && n > 0
        },
        FieldType::Other => false,
    }
}

/// Whether a field of this type is optional.
pub fn is_option_type(ty: &FieldType) -> (r: bool)
    ensures
        r == spec_is_option_type(*ty),
{
    match ty {
        FieldType::Path(segs) => {
            if segs.len() == 0 {
                return false;
            }
            let last = &segs[segs.len() - 1];
            if !str_eq(last.ident.as_str(), "Option") {
                return false;
            }
            match &last.arguments {
                PathArguments::AngleBracketed(n) => *n > 0,
                _ => false,
            }
        },
        FieldType::Other => false,
    }
}

/// How one field turns into an account.
pub struct AccountMetaPlan {
    /// The field's name.
    pub field: String,
    pub is_signer: bool,
    pub is_writable: bool,
    /// Whether the field is an `Option`, which falls back to the program id.
    pub is_optional: bool,
    /// The faults met while reading the field's `account(..)` attributes.
    pub errors: Vec<MetaError>,
}

/// The flags that the attributes of a field set.
pub open spec fn field_flags(f: NamedField) -> (AccountAttr, Seq<MetaError>) {
    account_attrs(f.attrs@, 0, AccountAttr { is_signer: false, is_mut: false })
}

/// Whether `p` is how the field `f` turns into an account.
pub open spec fn plan_of_field(p: AccountMetaPlan, f: NamedField) -> bool {
    &&& p.field@ == f.ident@
    &&& p.is_signer == field_flags(f).0.is_signer
    &&& p.is_writable == field_flags(f).0.is_mut
    &&& p.is_optional == spec_is_option_type(f.ty)
    &&& p.errors@ == field_flags(f).1
}

/// Whether the `ToAccountMetas` derive takes the input: a struct with named
/// fields.
pub open spec fn accounts_input_accepted(input: DataInput) -> bool {
    input matches DataInput::Struct(FieldsInput::Named(_))
}

/// Tests whether the `ToAccountMetas` derive takes the input, and says why
/// not: an enum or a union is not a struct, and a tuple or unit struct has no
/// named fields.
pub fn check_accounts_input(input: &DataInput) -> (r: Result<(), DeriveError>)
    ensures
        match *input {
            DataInput::Struct(FieldsInput::Named(_)) => r is Ok,
            DataInput::Struct(_) => r == Err::<(), DeriveError>(DeriveError::OnlyNamedFields),
            _ => r == Err::<(), DeriveError>(DeriveError::OnlyStructs),
        },
        r is Ok <==> accounts_input_accepted(*input),
{
    match input {
        DataInput::Struct(FieldsInput::Named(_)) => Ok(()),
        DataInput::Struct(_) => Err(DeriveError::OnlyNamedFields),
        _ => Err(DeriveError::OnlyStructs),
    }
}

/// How each field of a struct turns into an account: one plan per named
/// field, in order.
pub fn plan_account_metas(input: &DataInput) -> (r: Vec<AccountMetaPlan>)
    requires
        accounts_input_accepted(*input),
    ensures
        input matches DataInput::Struct(FieldsInput::Named(fields)) && r@.len() == fields@.len()
            && forall|i: int| 0 <= i < fields@.len() ==> plan_of_field(#[trigger] r@[i], fields@[i]),
{
    let fields = match input {
        DataInput::Struct(FieldsInput::Named(fields)) => fields,
        _ => {
            proof {
                assert(false);
            }
            return Vec::new();
        },
    };
    let mut plans: Vec<AccountMetaPlan> = Vec::new();
    let mut i: usize = 0;
    while i < fields.len()
        invariant
            i <= fields@.len(),
            plans@.len() == i,
            forall|j: int| 0 <= j < i ==> plan_of_field(#[trigger] plans@[j], fields@[j]),
        decreases fields@.len() - i,
    {
        let f = &fields[i];
        let parsed = parse_account_attr(&f.attrs);
        let is_optional = is_option_type(&f.ty);
        plans.push(
            AccountMetaPlan {
                field: f.ident.clone(),
                is_signer: parsed.attr.is_signer,
                is_writable: parsed.attr.is_mut,
                is_optional,
                errors: parsed.errors,
            },
        );
        i = i + 1;
    }
    plans
}

/// The account that a plan gives for a field's value: the value, or the
/// program id when an optional field is `None`.
pub open spec fn spec_account_meta(p: AccountMetaPlan, value: Option<Pubkey>, program_id: Pubkey) -> AccountMeta {
    AccountMeta {
        pubkey: match value {
            Some(k) => k,
            None => program_id,
        },
        is_signer: p.is_signer,
        is_writable: p.is_writable,
    }
}

/// The values of a struct's fields, ready to turn into accounts by their
/// plans. A field that is not optional always has a value.
pub struct DerivedAccounts {
    plans: Vec<AccountMetaPlan>,
    values: Vec<Option<Pubkey>>,
    program_id: Pubkey,
}

/// Whether the values fit the plans: one value per plan, and a value for every
/// field that is not optional.
pub open spec fn values_fit(plans: Seq<AccountMetaPlan>, values: Seq<Option<Pubkey>>) -> bool {
    &&& plans.len() == values.len()
    &&& forall|i: int| 0 <= i < plans.len() && !(#[trigger] plans[i]).is_optional ==> values[i] is Some
}

impl DerivedAccounts {
    #[verifier::type_invariant]
    spec fn fits(self) -> bool {
        values_fit(self.plans@, self.values@)
    }

    /// The plans.
    pub closed spec fn plans(self) -> Seq<AccountMetaPlan> {
        self.plans@
    }

    /// The field values.
    pub closed spec fn values(self) -> Seq<Option<Pubkey>> {
        self.values@
    }

    /// The program id that optional fields fall back to.
    pub closed spec fn program_id(self) -> Pubkey {
        self.program_id
    }

    /// Pairs the plans with the field values; `None` when they do not fit.
    pub fn new(plans: Vec<AccountMetaPlan>, values: Vec<Option<Pubkey>>, program_id: Pubkey) -> (r:
        Option<DerivedAccounts>)
        ensures
            values_fit(plans@, values@) <==> r is Some,
            r matches Some(d) ==> d.plans() == plans@ && d.values() == values@ && d.program_id()
                == program_id,
    {
        if plans.len() != values.len() {
            return None;
        }
        let mut i: usize = 0;
        while i < plans.len()
            invariant
                plans@.len() == values@.len(),
                i <= plans@.len(),
                forall|j: int|
                    0 <= j < i && !(#[trigger] plans@[j]).is_optional ==> values@[j] is Some,
            decreases plans@.len() - i,
        {
            if !plans[i].is_optional && values[i].is_none() {
                return None;
            }
            i = i + 1;
        }
        Some(DerivedAccounts { plans, values, program_id })
    }
}

impl DerivedAccounts {
    /// One account per field, in field order.
    pub open spec fn account_metas(self) -> Seq<AccountMeta> {
        Seq::new(
            self.plans().len(),
            |i: int| spec_account_meta(self.plans()[i], self.values()[i], self.program_id()),
        )
    }
}

impl ToAccountMetas for DerivedAccounts {
    fn to_account_metas(&self) -> (r: Vec<AccountMeta>)
        ensures
            r@ == self.account_metas(),
    {
        proof {
            use_type_invariant(self);
        }
        let mut accounts: Vec<AccountMeta> = Vec::new();
        let mut i: usize = 0;
        while i < self.plans.len()
            invariant
                values_fit(self.plans@, self.values@),
                i <= self.plans@.len(),
                accounts@.len() == i,
                forall|j: int|
                    0 <= j < i ==> #[trigger] accounts@[j] == spec_account_meta(
                        self.plans@[j],
                        self.values@[j],
                        self.program_id,
                    ),
            decreases self.plans@.len() - i,
        {
            let p = &self.plans[i];
            let meta = if p.is_writable {
                AccountMeta::new(self.values[i].unwrap_or(self.program_id), p.is_signer)
            } else {
                AccountMeta::new_readonly(self.values[i].unwrap_or(self.program_id), p.is_signer)
            };
            accounts.push(meta);
            i = i + 1;
        }
        assert(accounts@ =~= self.account_metas());
        accounts
    }
}

/// The `i`-th account that the derive gives comes from the `i`-th field: its
/// value, or the program id for an optional field that is `None`; a signer
/// exactly when the field's `account(..)` attributes say so; writable exactly
/// when they say `mut`.
pub proof fn law_account_of_field(
    fields: Seq<NamedField>,
    plans: Seq<AccountMetaPlan>,
    d: DerivedAccounts,
    i: int,
)
    requires
        plans.len() == fields.len(),
        forall|j: int| 0 <= j < fields.len() ==> plan_of_field(#[trigger] plans[j], fields[j]),
        d.plans() == plans,
        0 <= i < fields.len(),
    ensures
        d.account_metas()[i] == (AccountMeta {
            pubkey: match d.values()[i] {
                Some(k) => k,
                None => d.program_id(),
            },
            is_signer: field_flags(fields[i]).0.is_signer,
            is_writable: field_flags(fields[i]).0.is_mut,
        }),
{
    assert(plan_of_field(plans[i], fields[i]));
}

/// A field's account is writable only when one of its `account(..)`
/// attributes holds the item `mut`, whatever they say of signing; and it is a
/// signer only when one of them holds `signer` or `is_signer`.
pub proof fn law_field_flags_need_items(p: AccountMetaPlan, f: NamedField)
    requires
        plan_of_field(p, f),
    ensures
        !account_attrs_have_ident(f.attrs@, "mut"@) ==> !p.is_writable,
        !account_attrs_have_ident(f.attrs@, "signer"@) && !account_attrs_have_ident(
            f.attrs@,
            "is_signer"@,
        ) ==> !p.is_signer,
{
    law_account_attrs_flags(f.attrs@, 0, AccountAttr { is_signer: false, is_mut: false });
}

/// A field whose one attribute is `#[account(signer = <b>)]` (or
/// `is_signer = <b>`) is a read-only account that signs exactly when `b` is
/// `true`, read without fault.
pub proof fn law_signer_only_field(p: AccountMetaPlan, f: NamedField, toks: Seq<MetaToken>, key: Seq<char>, b: bool)
    requires
        plan_of_field(p, f),
        f.attrs@.len() == 1,
        is_ident(f.attrs@[0].path@, "account"@),
        f.attrs@[0].meta matches AttrMeta::List(v) && v@ == toks,
        key == "signer"@ || key == "is_signer"@,
        toks.len() == 3,
        ident_at(toks, 0) == Some(key),
        toks[1] matches MetaToken::Punct { ch, .. } && ch == '=',
        ident_at(toks, 2) == Some(bool_text(b)),
    ensures
        p.is_signer == b,
        !p.is_writable,
        p.errors@.len() == 0,
{
    let start = AccountAttr { is_signer: false, is_mut: false };
    let pk = SpecPath { leading_colon: false, segments: seq![key] };
    assert(parse_path(toks, 0) == Ok::<(SpecPath, int), MetaError>((pk, 1)));
    law_signer_item(toks, pk, 1, start, b);
    assert(account_items(toks, 0, start) == ((AccountAttr { is_signer: b, is_mut: false }), None::<MetaError>));
    let attrs = f.attrs@;
    assert(account_attrs(attrs, 1, AccountAttr { is_signer: b, is_mut: false }).1 =~= Seq::<MetaError>::empty());
    assert(field_flags(f).1 =~= Seq::<MetaError>::empty());
}

/// A field whose one attribute is `#[account(mut)]` is a writable account
/// that does not sign, read without fault.
pub proof fn law_mut_only_field(p: AccountMetaPlan, f: NamedField, toks: Seq<MetaToken>)
    requires
        plan_of_field(p, f),
        f.attrs@.len() == 1,
        is_ident(f.attrs@[0].path@, "account"@),
        f.attrs@[0].meta matches AttrMeta::List(v) && v@ == toks,
        toks.len() == 1,
        ident_at(toks, 0) == Some("mut"@),
    ensures
        !p.is_signer,
        p.is_writable,
        p.errors@.len() == 0,
{
    let start = AccountAttr { is_signer: false, is_mut: false };
    let pm = SpecPath { leading_colon: false, segments: seq!["mut"@] };
    assert(parse_path(toks, 0) == Ok::<(SpecPath, int), MetaError>((pm, 1)));
    assert(account_items(toks, 0, start) == ((AccountAttr { is_signer: false, is_mut: true }), None::<MetaError>));
    let attrs = f.attrs@;
    assert(account_attrs(attrs, 1, AccountAttr { is_signer: false, is_mut: true }).1 =~= Seq::<MetaError>::empty());
    assert(field_flags(f).1 =~= Seq::<MetaError>::empty());
}

} // verus!
