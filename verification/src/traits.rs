//! The traits that program types implement: an eight-byte discriminator, the
//! space an account takes, the bytes of an instruction, and the accounts an
//! instruction touches.
use vstd::prelude::*;

use crate::types::AccountMeta;

verus! {

/// The bytes of an Anchor instruction or account: the eight-byte
/// discriminator followed by the serialized arguments.
pub open spec fn anchor_bytes(discriminator: [u8; 8], args: Seq<u8>) -> Seq<u8> {
    discriminator@ + args
}

/// A type with an eight-byte tag that identifies it on chain.
pub trait Discriminator {
    /// The eight-byte tag.
    const DISCRIMINATOR: [u8; 8];

    /// Returns the eight-byte tag.
    fn discriminator() -> (r: [u8; 8])
        ensures
            r == Self::DISCRIMINATOR,
    {
        Self::DISCRIMINATOR
    }
}

/// The number of bytes an account of the type takes.
pub trait Space {
    const INIT_SPACE: usize;
}

/// A value that serializes into the argument bytes of an instruction.
pub trait SerializeArgs {
    /// The serialized value.
    fn serialize_args(&self) -> Vec<u8>;
}

/// Whether `args` is what `serialize_args` may return for `x`.
pub open spec fn serializes_to<T: SerializeArgs + ?Sized>(x: &T, args: Vec<u8>) -> bool {
    call_ensures(T::serialize_args, (x,), args)
}

/// Whether `bytes` are the data of the instruction `x`: its discriminator
/// followed by what `serialize_args` returned for it.
pub open spec fn is_instruction_data<T: Discriminator + SerializeArgs + ?Sized>(x: &T, bytes: Seq<u8>) -> bool {
    exists|args: Vec<u8>| #[trigger] serializes_to(x, args) && bytes == anchor_bytes(T::DISCRIMINATOR, args@)
}

/// The data of an instruction invocation, which is
/// `Sha256(<namespace>:<method_name>)[..8] || serialize(args)`, where `args`
/// is the serialized struct of the instruction's named arguments.
pub trait InstructionData: Discriminator + SerializeArgs {
    /// The discriminator followed by the serialized arguments.
    fn data(&self) -> (r: Vec<u8>)
        ensures
            is_instruction_data(self, r@),
    {
        let mut data: Vec<u8> = Vec::with_capacity(256);
        let discriminator = Self::discriminator();
        data.extend_from_slice(&discriminator);
        assert(data@ =~= discriminator@);
        let mut args = self.serialize_args();
        let ghost a = args;
        data.append(&mut args);
        assert(serializes_to(self, a));
        data
    }

    /// Clears `data` and writes the instruction data to it. A `Vec<u8>` is
    /// taken so that its allocation is reused where it is large enough.
    fn write_to(&self, data: &mut Vec<u8>)
        ensures
            is_instruction_data(self, final(data)@),
    {
        data.clear();
        let discriminator = Self::DISCRIMINATOR;
        data.extend_from_slice(&discriminator);
        assert(data@ =~= discriminator@);
        let mut args = self.serialize_args();
        let ghost a = args;
        data.append(&mut args);
        assert(serializes_to(self, a));
    }
}

/// Whether serializing `x` gives the same bytes every time.
pub open spec fn serializes_deterministically<T: SerializeArgs + ?Sized>(x: &T) -> bool {
    forall|a: Vec<u8>, b: Vec<u8>|
        #[trigger] serializes_to(x, a) && #[trigger] serializes_to(x, b) ==> a@ == b@
}

/// When serializing `x` gives the same bytes every time, all its instruction
/// data are the same bytes: what `write_to` leaves in a buffer, whatever the
/// buffer held before, is what `data` returns, and writing twice leaves what
/// writing once leaves.
pub proof fn law_write_to_matches_data<T: InstructionData>(x: &T, written: Seq<u8>, returned: Seq<u8>)
    requires
        serializes_deterministically(x),
        is_instruction_data(x, written),
        is_instruction_data(x, returned),
    ensures
        written == returned,
{
    let a = choose|args: Vec<u8>|
        #[trigger] serializes_to(x, args) && written == anchor_bytes(T::DISCRIMINATOR, args@);
    let b = choose|args: Vec<u8>|
        #[trigger] serializes_to(x, args) && returned == anchor_bytes(T::DISCRIMINATOR, args@);
    assert(a@ == b@);
}

/// Whether `metas` is what `to_account_metas` may return for `x`.
pub open spec fn account_metas_of<T: ToAccountMetas + ?Sized>(x: &T, metas: Vec<AccountMeta>) -> bool {
    call_ensures(T::to_account_metas, (x,), metas)
}

/// A set of accounts that turns into the account list of an instruction.
pub trait ToAccountMetas {
    /// Returns the accounts, in the order the instruction takes them.
    fn to_account_metas(&self) -> Vec<AccountMeta>;
}

} // verus!
