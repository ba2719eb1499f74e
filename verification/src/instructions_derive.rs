//! The `Instructions` derive: each variant of an enum becomes an instruction
//! struct whose discriminator is `Sha256("global:<name>")[..8]`, where the
//! name is the one given by `#[instruction(rename = "..")]`, or else the
//! variant's name in snake case.
use convert_case::{Case, Casing};
use vstd::prelude::*;

use crate::derive_input::{DataInput, DeriveError, FieldsInput, VariantInput};
use crate::meta::{
    find_rename_attr, ident_at, is_ident, lit_str_at, opt_string_view, parse_path, rename_attrs,
    rename_items, AttrMeta, MetaError, MetaToken, SpecPath,
};
use crate::sighash::{generate_discriminator, sha256, spec_discriminator, SIGHASH_GLOBAL_NAMESPACE};
use vstd::utf8::encode_utf8;

verus! {

/// A name in snake case, as `convert_case` writes it.
pub uninterp spec fn snake_case(name: Seq<char>) -> Seq<char>;

/// `Casing::to_case(Case::Snake)` of the `convert_case` crate. The contract
/// claims that the result is a function of the text alone, named
/// `snake_case`: the words of the text, split where `convert_case` splits
/// them, in lower case and joined by underscores.
#[verifier::external_body]
fn to_snake_case(name: &str) -> (r: String)
    ensures
        r@ == snake_case(name@),
{
    name.to_case(Case::Snake)
}

/// The name of the instruction of a variant: the one that its
/// `instruction(rename = "..")` attribute gives, or else the variant's name in
/// snake case.
pub open spec fn spec_instruction_name(v: VariantInput) -> Seq<char> {
    match rename_attrs(v.attrs@, 0).0 {
        Some(n) => n,
        None => snake_case(v.ident@),
    }
}

/// The name of the instruction of a variant, and the faults met while reading
/// its `instruction(..)` attributes.
pub fn instruction_name(v: &VariantInput) -> (r: (String, Vec<MetaError>))
    ensures
        r.0@ == spec_instruction_name(*v),
        r.1@ == rename_attrs(v.attrs@, 0).1,
{
    let (rename, errors) = find_rename_attr(&v.attrs);
    match rename {
        Some(n) => (n, errors),
        None => (to_snake_case(v.ident.as_str()), errors),
    }
}

/// The struct that a variant becomes.
pub struct InstructionPlan {
    /// The instruction's name, which its discriminator is made from.
    pub name: String,
    /// `Sha256("global:<name>")[..8]`.
    pub discriminator: [u8; 8],
    /// Whether the variant has named fields; otherwise it has none.
    pub has_named_fields: bool,
    /// The faults met while reading the variant's `instruction(..)`
    /// attributes.
    pub errors: Vec<MetaError>,
}

/// Whether `p` is the struct that the variant `v` becomes.
pub open spec fn plan_of_variant(p: InstructionPlan, v: VariantInput) -> bool {
    &&& p.name@ == spec_instruction_name(v)
    &&& p.discriminator@ == spec_discriminator(SIGHASH_GLOBAL_NAMESPACE@, spec_instruction_name(v))
    &&& p.has_named_fields == (v.fields is Named)
    &&& p.errors@ == rename_attrs(v.attrs@, 0).1
}

/// Whether some variant has unnamed fields.
pub open spec fn has_tuple_variant(variants: Seq<VariantInput>) -> bool {
    exists|i: int| 0 <= i < variants.len() && (#[trigger] variants[i]).fields is Unnamed
}

/// Whether the `Instructions` derive takes the input: an enum whose variants
/// have named fields or none.
pub open spec fn instructions_input_accepted(input: DataInput) -> bool {
    input matches DataInput::Enum(variants) && !has_tuple_variant(variants@)
}

/// Tests whether the `Instructions` derive takes the input, and says why not:
/// a struct or a union is not an enum, and a tuple variant has unnamed
/// fields.
pub fn check_instructions_input(input: &DataInput) -> (r: Result<(), DeriveError>)
    ensures
        match *input {
            DataInput::Enum(variants) => if has_tuple_variant(variants@) {
                r == Err::<(), DeriveError>(DeriveError::UnnamedFields)
            } else {
                r is Ok
            },
            _ => r == Err::<(), DeriveError>(DeriveError::OnlyEnums),
        },
        r is Ok <==> instructions_input_accepted(*input),
{
    let variants = match input {
        DataInput::Enum(variants) => variants,
        _ => {
            return Err(DeriveError::OnlyEnums);
        },
    };
    let mut i: usize = 0;
    while i < variants.len()
        invariant
            i <= variants@.len(),
            forall|j: int| 0 <= j < i ==> !((#[trigger] variants@[j]).fields is Unnamed),
            *input == DataInput::Enum(*variants),
        decreases variants@.len() - i,
    {
        match &variants[i].fields {
            FieldsInput::Unnamed => {
                assert(variants@[i as int].fields is Unnamed);
                assert(has_tuple_variant(variants@));
                return Err(DeriveError::UnnamedFields);
            },
            _ => {},
        }
        i = i + 1;
    }
    Ok(())
}

/// The struct that each variant of an enum becomes, in order.
pub fn plan_instructions(input: &DataInput) -> (r: Vec<InstructionPlan>)
    requires
        instructions_input_accepted(*input),
    ensures
        input matches DataInput::Enum(variants) && r@.len() == variants@.len() && forall|i: int|
            0 <= i < variants@.len() ==> plan_of_variant(#[trigger] r@[i], variants@[i]),
{
    let variants = match input {
        DataInput::Enum(variants) => variants,
        _ => {
            proof {
                assert(false);
            }
            return Vec::new();
        },
    };
    let mut plans: Vec<InstructionPlan> = Vec::new();
    let mut i: usize = 0;
    while i < variants.len()
        invariant
            i <= variants@.len(),
            plans@.len() == i,
            forall|j: int| 0 <= j < i ==> plan_of_variant(#[trigger] plans@[j], variants@[j]),
            !has_tuple_variant(variants@),
            *input == DataInput::Enum(*variants),
        decreases variants@.len() - i,
    {
        let v = &variants[i];
        let (name, errors) = instruction_name(v);
        let discriminator = generate_discriminator(SIGHASH_GLOBAL_NAMESPACE, name.as_str());
        let has_named_fields = match &v.fields {
            FieldsInput::Named(_) => true,
            FieldsInput::Unit => false,
            FieldsInput::Unnamed => {
                proof {
                    assert(variants@[i as int].fields is Unnamed);
                    assert(false);
                }
                false
            },
        };
        plans.push(InstructionPlan { name, discriminator, has_named_fields, errors });
        i = i + 1;
    }
    plans
}

/// The name that an `instruction(rename = "..")` attribute gives is the
/// instruction's name as it is, character for character, and the
/// discriminator is the first eight bytes of the SHA-256 digest of
/// `global:<that name>` in UTF-8.
pub proof fn law_rename_is_used_verbatim(p: InstructionPlan, v: VariantInput, n: Seq<char>)
    requires
        plan_of_variant(p, v),
        rename_attrs(v.attrs@, 0).0 == Some(n),
    ensures
        p.name@ == n,
        p.discriminator@ == sha256(encode_utf8(SIGHASH_GLOBAL_NAMESPACE@ + seq![':'] + n)).take(8),
{
}

/// Without a rename, the instruction's name is the variant's name in snake
/// case, and the discriminator is made from it.
pub proof fn law_variant_name_in_snake_case(p: InstructionPlan, v: VariantInput)
    requires
        plan_of_variant(p, v),
        rename_attrs(v.attrs@, 0).0 is None,
    ensures
        p.name@ == snake_case(v.ident@),
        p.discriminator@ == sha256(
            encode_utf8(SIGHASH_GLOBAL_NAMESPACE@ + seq![':'] + snake_case(v.ident@)),
        ).take(8),
{
}

/// A variant whose one attribute is `#[instruction(rename = <literal>)]`
/// becomes the instruction named by the literal's value, as it is, read
/// without fault.
pub proof fn law_rename_attribute(p: InstructionPlan, v: VariantInput, toks: Seq<MetaToken>, n: Seq<char>)
    requires
        plan_of_variant(p, v),
        v.attrs@.len() == 1,
        is_ident(v.attrs@[0].path@, "instruction"@),
        v.attrs@[0].meta matches AttrMeta::List(t) && t@ == toks,
        toks.len() == 3,
        ident_at(toks, 0) == Some("rename"@),
        toks[1] matches MetaToken::Punct { ch, .. } && ch == '=',
        lit_str_at(toks, 2) == Some(n),
    ensures
        p.name@ == n,
        p.discriminator@ == sha256(encode_utf8(SIGHASH_GLOBAL_NAMESPACE@ + seq![':'] + n)).take(8),
        p.errors@.len() == 0,
{
    let pr = SpecPath { leading_colon: false, segments: seq!["rename"@] };
    assert(parse_path(toks, 0) == Ok::<(SpecPath, int), MetaError>((pr, 1)));
    assert(rename_items(toks, 0, None) == (Some(n), None::<MetaError>));
    assert(rename_attrs(v.attrs@, 0) == (Some(n), Seq::<MetaError>::empty()));
}

} // verus!
