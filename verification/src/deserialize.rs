//! Reading account data: an Anchor account starts with the eight-byte
//! discriminator of its type, followed by the serialized value.
use vstd::prelude::*;

use crate::traits::{anchor_bytes, is_instruction_data, serializes_to, InstructionData};

verus! {

/// `std::io::Error`, the error of a failed deserialization, carried through
/// unread.
#[verifier::external_type_specification]
#[verifier::external_body]
pub struct ExIoError(std::io::Error);

/// Why account data could not be read.
#[allow(inconsistent_fields)]
#[derive(Debug)]
pub enum AccountError {
    /// The data is shorter than a discriminator.
    InvalidDiscriminatorLength { actual: usize },
    /// The first eight bytes could not be taken as a discriminator.
    ParseDiscriminator,
    /// The data starts with another type's discriminator.
    InvalidDiscriminator { expected: [u8; 8], actual: [u8; 8] },
    /// The bytes after the discriminator are not a value of the type.
    DeserializeAnchorAccount { source: std::io::Error },
    /// The data is not a value of the type.
    DeserializeSolanaAccount,
}

/// The bytes after the discriminator, when the data starts with `expected`.
pub open spec fn anchor_body(data: Seq<u8>, expected: [u8; 8]) -> Option<Seq<u8>> {
    if data.len() >= 8 && data.take(8) == expected@ {
        Some(data.skip(8))
    } else {
        None
    }
}

/// Checks that account data starts with the discriminator `expected` and
/// returns the bytes after it. Data shorter than eight bytes is refused with
/// `InvalidDiscriminatorLength`, and data that starts with other bytes with
/// `InvalidDiscriminator`, which holds both discriminators.
pub fn split_anchor_discriminator(data: &[u8], expected: [u8; 8]) -> (r: Result<&[u8], AccountError>)
    ensures
        match r {
            Ok(body) => anchor_body(data@, expected) == Some(body@),
            Err(AccountError::InvalidDiscriminatorLength { actual }) => data@.len() < 8 && actual
                == data@.len(),
            Err(AccountError::InvalidDiscriminator { expected: e, actual }) => data@.len() >= 8
                && data@.take(8) != expected@ && e == expected && actual@ == data@.take(8),
            Err(_) => false,
        },
        anchor_body(data@, expected) is Some <==> r is Ok,
{
    if data.len() < 8 {
        return Err(AccountError::InvalidDiscriminatorLength { actual: data.len() });
    }
    let actual = [data[0], data[1], data[2], data[3], data[4], data[5], data[6], data[7]];
    assert(actual@ =~= data@.take(8));
    let mut i: usize = 0;
    while i < 8
        invariant
            i <= 8,
            data@.len() >= 8,
            actual@ == data@.take(8),
            forall|j: int| 0 <= j < i ==> actual@[j] == expected@[j],
        decreases 8 - i,
    {
        if actual[i] != expected[i] {
            assert(actual@[i as int] != expected@[i as int]);
            assert(data@.take(8)[i as int] != expected@[i as int]);
            return Err(AccountError::InvalidDiscriminator { expected, actual });
        }
        i = i + 1;
    }
    assert(actual@ =~= expected@);
    let body = vstd::slice::slice_subrange(data, 8, data.len());
    assert(body@ =~= data@.skip(8));
    Ok(body)
}

/// Data written as a discriminator followed by serialized bytes reads back as
/// those bytes when checked against the same discriminator.
pub proof fn law_anchor_round_trip(discriminator: [u8; 8], args: Seq<u8>)
    ensures
        anchor_body(anchor_bytes(discriminator, args), discriminator) == Some(args),
{
    let data = anchor_bytes(discriminator, args);
    assert(data.take(8) =~= discriminator@);
    assert(data.skip(8) =~= args);
}

/// The data of an instruction, checked against its type's discriminator,
/// reads back as the arguments it was serialized from.
pub proof fn law_instruction_data_reads_back<T: InstructionData>(x: &T, bytes: Seq<u8>)
    requires
        is_instruction_data(x, bytes),
    ensures
        exists|args: Vec<u8>|
            #[trigger] serializes_to(x, args) && anchor_body(bytes, T::DISCRIMINATOR) == Some(args@),
{
    let args = choose|args: Vec<u8>|
        #[trigger] serializes_to(x, args) && bytes == anchor_bytes(T::DISCRIMINATOR, args@);
    law_anchor_round_trip(T::DISCRIMINATOR, args@);
}

/// Data written with one discriminator is refused when checked against
/// another.
pub proof fn law_other_discriminator_refused(written: [u8; 8], expected: [u8; 8], args: Seq<u8>)
    requires
        written != expected,
    ensures
        anchor_body(anchor_bytes(written, args), expected) is None,
{
    let data = anchor_bytes(written, args);
    assert(data.take(8) =~= written@);
    if data.take(8) == expected@ {
        assert(written@ =~= expected@);
        assert(written == expected);
    }
}

} // verus!
