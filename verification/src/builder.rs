//! Assembling an instruction from a program id, its named accounts, the
//! accounts that follow them, and its data.
use vstd::prelude::*;

use crate::traits::{
    account_metas_of, anchor_bytes, serializes_to, InstructionData, ToAccountMetas,
};
use crate::types::{AccountMeta, Instruction, Pubkey};

verus! {

/// What a builder holds so far.
pub ghost struct BuilderView {
    pub program_id: Pubkey,
    pub named_accounts: Seq<AccountMeta>,
    pub remaining_accounts: Seq<AccountMeta>,
    pub data: Seq<u8>,
}

/// What an instruction holds.
pub ghost struct InstructionView {
    pub program_id: Pubkey,
    pub accounts: Seq<AccountMeta>,
    pub data: Seq<u8>,
}

/// The instruction that a builder in the given state builds: the named
/// accounts come first, then the remaining ones.
pub open spec fn built(b: BuilderView) -> InstructionView {
    InstructionView {
        program_id: b.program_id,
        accounts: b.named_accounts + b.remaining_accounts,
        data: b.data,
    }
}

/// A builder with no accounts and no data yet.
pub open spec fn empty_builder(program_id: Pubkey) -> BuilderView {
    BuilderView {
        program_id,
        named_accounts: Seq::empty(),
        remaining_accounts: Seq::empty(),
        data: Seq::empty(),
    }
}

/// The builder with `accounts` appended to its named accounts.
pub open spec fn with_named(b: BuilderView, accounts: Seq<AccountMeta>) -> BuilderView {
    BuilderView { named_accounts: b.named_accounts + accounts, ..b }
}

/// The builder with `accounts` appended to its remaining accounts.
pub open spec fn with_remaining(b: BuilderView, accounts: Seq<AccountMeta>) -> BuilderView {
    BuilderView { remaining_accounts: b.remaining_accounts + accounts, ..b }
}

/// The builder with `data` appended to its data.
pub open spec fn with_data(b: BuilderView, data: Seq<u8>) -> BuilderView {
    BuilderView { data: b.data + data, ..b }
}

/// The contents of an instruction.
pub open spec fn instruction_view(ix: Instruction) -> InstructionView {
    InstructionView { program_id: ix.program_id, accounts: ix.accounts@, data: ix.data@ }
}

/// Collects the parts of an instruction.
#[derive(Debug)]
pub struct InstructionBuilder {
    program_id: Pubkey,
    named_accounts: Vec<AccountMeta>,
    remaining_accounts: Vec<AccountMeta>,
    data: Vec<u8>,
}

impl View for InstructionBuilder {
    type V = BuilderView;

    closed spec fn view(&self) -> BuilderView {
        BuilderView {
            program_id: self.program_id,
            named_accounts: self.named_accounts@,
            remaining_accounts: self.remaining_accounts@,
            data: self.data@,
        }
    }
}

impl InstructionBuilder {
    /// A builder for an instruction of the given program, with no accounts and
    /// no data yet.
    pub fn new(program_id: Pubkey) -> (r: Self)
        ensures
            r@ == empty_builder(program_id),
    {
        InstructionBuilder {
            program_id,
            named_accounts: Vec::new(),
            remaining_accounts: Vec::new(),
            data: Vec::new(),
        }
    }

    /// Appends the accounts of a struct to the named accounts.
    pub fn add_named_accounts_from_struct<T: ToAccountMetas>(self, accounts: T) -> (r: Self)
        ensures
            exists|metas: Vec<AccountMeta>|
                #[trigger] account_metas_of(&accounts, metas) && r@ == with_named(self@, metas@),
    {
        let metas = accounts.to_account_metas();
        assert(account_metas_of(&accounts, metas));
        self.add_named_accounts(metas)
    }

    /// Appends accounts to the named accounts.
    pub fn add_named_accounts(self, accounts: Vec<AccountMeta>) -> (r: Self)
        ensures
            r@ == with_named(self@, accounts@),
    {
        let mut builder = self;
        let mut accounts = accounts;
        builder.named_accounts.append(&mut accounts);
        builder
    }

    /// Appends accounts to the remaining accounts, which follow the named ones.
    pub fn add_remaining_accounts(self, accounts: Vec<AccountMeta>) -> (r: Self)
        ensures
            r@ == with_remaining(self@, accounts@),
    {
        let mut builder = self;
        let mut accounts = accounts;
        builder.remaining_accounts.append(&mut accounts);
        builder
    }

    /// Appends bytes to the data.
    pub fn add_data(self, data: &[u8]) -> (r: Self)
        ensures
            r@ == with_data(self@, data@),
    {
        let mut builder = self;
        builder.data.extend_from_slice(data);
        assert(builder.data@ =~= self.data@ + data@);
        builder
    }

    /// Appends the data of an Anchor instruction: its discriminator followed
    /// by its serialized arguments.
    pub fn add_anchor_data<T: InstructionData>(self, data: T) -> (r: Self)
        ensures
            exists|args: Vec<u8>|
                #[trigger] serializes_to(&data, args) && r@ == with_data(
                    self@,
                    anchor_bytes(T::DISCRIMINATOR, args@),
                ),
    {
        let mut builder = self;
        let mut bytes = data.data();
        let ghost args = choose|args: Vec<u8>|
            #[trigger] serializes_to(&data, args) && bytes@ == anchor_bytes(T::DISCRIMINATOR, args@);
        builder.data.append(&mut bytes);
        assert(serializes_to(&data, args));
        builder
    }

    /// The instruction: the program id, the named accounts followed by the
    /// remaining accounts, and the data.
    pub fn build(self) -> (r: Instruction)
        ensures
            instruction_view(r) == built(self@),
    {
        let mut accounts: Vec<AccountMeta> = Vec::new();
        let mut named = self.named_accounts;
        let mut remaining = self.remaining_accounts;
        accounts.append(&mut named);
        accounts.append(&mut remaining);
        Instruction { program_id: self.program_id, accounts, data: self.data }
    }
}

/// The instruction that calls `program_id` with the data of `ix` and the
/// accounts of `accounts`.
pub fn prepare_anchor_ix<T: InstructionData, A: ToAccountMetas>(
    program_id: Pubkey,
    ix: T,
    accounts: A,
) -> (r: Instruction)
    ensures
        r.program_id == program_id,
        exists|metas: Vec<AccountMeta>|
            #[trigger] account_metas_of(&accounts, metas) && r.accounts@ == metas@,
        exists|args: Vec<u8>|
            #[trigger] serializes_to(&ix, args) && r.data@ == anchor_bytes(T::DISCRIMINATOR, args@),
{
    let builder = InstructionBuilder::new(program_id).add_anchor_data(ix).add_named_accounts_from_struct(
        accounts,
    );
    builder.build()
}

/// The instruction that calls `program_id` with the data of `ix`, the
/// accounts of `accounts`, and then `remaining_accounts`.
pub fn prepare_anchor_ix_with_remaining<T: InstructionData, A: ToAccountMetas>(
    program_id: Pubkey,
    ix: T,
    accounts: A,
    remaining_accounts: Vec<AccountMeta>,
) -> (r: Instruction)
    ensures
        r.program_id == program_id,
        exists|metas: Vec<AccountMeta>|
            #[trigger] account_metas_of(&accounts, metas) && r.accounts@ == metas@
                + remaining_accounts@,
        exists|args: Vec<u8>|
            #[trigger] serializes_to(&ix, args) && r.data@ == anchor_bytes(T::DISCRIMINATOR, args@),
{
    let builder = InstructionBuilder::new(program_id).add_anchor_data(ix).add_named_accounts_from_struct(
        accounts,
    ).add_remaining_accounts(remaining_accounts);
    builder.build()
}

/// Named and remaining accounts go to separate lists: adding the named ones
/// before or after the remaining ones builds the same instruction, with the
/// named accounts first.
pub proof fn law_named_and_remaining_commute(
    b: BuilderView,
    named: Seq<AccountMeta>,
    remaining: Seq<AccountMeta>,
)
    ensures
        built(with_remaining(with_named(b, named), remaining)) == built(
            with_named(with_remaining(b, remaining), named),
        ),
        built(with_remaining(with_named(b, named), remaining)).accounts == b.named_accounts + named
            + b.remaining_accounts + remaining,
{
    assert(built(with_remaining(with_named(b, named), remaining)).accounts =~= b.named_accounts
        + named + b.remaining_accounts + remaining);
    assert(built(with_named(with_remaining(b, remaining), named)).accounts =~= b.named_accounts
        + named + b.remaining_accounts + remaining);
}

/// Adding data in two pieces adds their concatenation.
pub proof fn law_data_pieces_concatenate(b: BuilderView, x: Seq<u8>, y: Seq<u8>)
    ensures
        with_data(with_data(b, x), y) == with_data(b, x + y),
{
    assert(with_data(with_data(b, x), y).data =~= with_data(b, x + y).data);
}

/// Adding accounts in two batches adds their concatenation.
pub proof fn law_account_batches_concatenate(b: BuilderView, x: Seq<AccountMeta>, y: Seq<AccountMeta>)
    ensures
        with_named(with_named(b, x), y) == with_named(b, x + y),
        with_remaining(with_remaining(b, x), y) == with_remaining(b, x + y),
{
    assert(with_named(with_named(b, x), y).named_accounts =~= with_named(b, x + y).named_accounts);
    assert(with_remaining(with_remaining(b, x), y).remaining_accounts =~= with_remaining(
        b,
        x + y,
    ).remaining_accounts);
}

/// A fresh builder given named accounts, remaining accounts and data builds
/// the instruction of the program with the named accounts followed by the
/// remaining ones, and that data.
pub proof fn law_built_instruction(
    program_id: Pubkey,
    named: Seq<AccountMeta>,
    remaining: Seq<AccountMeta>,
    data: Seq<u8>,
)
    ensures
        built(with_data(with_remaining(with_named(empty_builder(program_id), named), remaining), data))
            == (InstructionView { program_id, accounts: named + remaining, data }),
{
    let b = with_data(with_remaining(with_named(empty_builder(program_id), named), remaining), data);
    assert(b.named_accounts =~= named);
    assert(b.remaining_accounts =~= remaining);
    assert(b.data =~= data);
}

} // verus!
