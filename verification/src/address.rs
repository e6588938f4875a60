//! Deterministic, program-scoped addresses: an address computed from a seed and
//! the owning program's identity, which no private key controls.

use vstd::prelude::*;

verus! {

/// The address derived from one seed and a program's identity, with the
/// discriminant that was appended to the seed to reach it; `None` where the
/// search finds no discriminant or the seed is not admitted. It depends on the
/// two byte strings and on nothing else.
pub uninterp spec fn program_address(seed: Seq<u8>, program_id: Seq<u8>) -> Option<(Seq<u8>, u8)>;

/// The seed under which the token lane's signing authority is derived.
pub open spec fn authority_seed() -> Seq<u8> {
    seq![97u8, 117u8, 116u8, 104u8, 111u8, 114u8, 105u8, 116u8, 121u8]
}

/// Calls `solana_program::pubkey::Pubkey::try_find_program_address` with the one
/// seed and the program's key. Trusted: the result is the derived address and
/// discriminant that `program_address` names for these two byte strings.
#[verifier::external_body]
pub(crate) fn try_find_program_address(seed: &[u8], program_id: &[u8; 32]) -> (r: Option<
    ([u8; 32], u8),
>)
    ensures
        match r {
            Some((key, bump)) => program_address(seed@, program_id@) == Some((key@, bump)),
            None => program_address(seed@, program_id@) is None,
        },
{
    let program = solana_program::pubkey::Pubkey::new_from_array(*program_id);
    match solana_program::pubkey::Pubkey::try_find_program_address(&[seed], &program) {
        Some((key, bump)) => Some((key.to_bytes(), bump)),
        None => None,
    }
}

/// The address of the token lane's signing authority for the program
/// `program_id`, with its discriminant; `None` where no discriminant yields an
/// address. The same program always has the same authority.
pub fn authority_address(program_id: &[u8; 32]) -> (r: Option<([u8; 32], u8)>)
    ensures
        match r {
            Some((key, bump)) => program_address(authority_seed(), program_id@) == Some(
                (key@, bump),
            ),
            None => program_address(authority_seed(), program_id@) is None,
        },
{
    let seed: [u8; 9] = [97u8, 117u8, 116u8, 104u8, 111u8, 114u8, 105u8, 116u8, 121u8];
    proof {
        assert(seed@ =~= authority_seed());
    }
    try_find_program_address(seed.as_slice(), program_id)
}

} // verus!
