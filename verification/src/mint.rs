//! What the token lane reads from the token program's data: the decimals of a
//! mint, and the token program's own address.

use crate::error::ProcessError;
use solana_program::program_error::ProgramError;
use solana_program::program_pack::Pack;
use solana_program::pubkey::Pubkey;
use vstd::prelude::*;

verus! {

/// Whether the four bytes of `s` from `at` mark an optional key as absent
/// (0, 0, 0, 0) or present (1, 0, 0, 0).
pub open spec fn option_tag_ok(s: Seq<u8>, at: int) -> bool {
    (s[at] == 0 || s[at] == 1) && s[at + 1] == 0 && s[at + 2] == 0 && s[at + 3] == 0
}

/// The decimals of the mint that `s` holds. A mint is 82 bytes: an optional
/// minting authority (tag at 0), the supply, the decimals at byte 44, the
/// initialized flag at byte 45 (0 or 1), and an optional freeze authority (tag at
/// 46). Bytes that do not have this form hold no mint; a mint whose flag is 0 was
/// never initialized.
pub open spec fn mint_decimals(s: Seq<u8>) -> Result<u8, ProcessError> {
    if s.len() != 82 || !option_tag_ok(s, 0) || !(s[45] == 0 || s[45] == 1) || !option_tag_ok(
        s,
        46,
    ) {
        Err(ProcessError::InvalidAccountData)
    } else if s[45] == 0 {
        Err(ProcessError::UninitializedAccount)
    } else {
        Ok(s[44])
    }
}

/// The address of the token program.
pub open spec fn token_program_id() -> Seq<u8> {
    seq![
        6u8, 221u8, 246u8, 225u8, 215u8, 101u8, 161u8, 147u8, 217u8, 203u8, 225u8, 70u8, 206u8,
        235u8, 121u8, 172u8, 28u8, 180u8, 133u8, 237u8, 95u8, 91u8, 55u8, 145u8, 58u8, 140u8,
        245u8, 133u8, 126u8, 255u8, 0u8, 169u8,
    ]
}

/// The address of the token program, as a key.
pub fn token_program_key() -> (k: [u8; 32])
    ensures
        k@ == token_program_id(),
{
    let k: [u8; 32] = [
        6, 221, 246, 225, 215, 101, 161, 147, 217, 203, 225, 70, 206, 235, 121, 172, 28, 180, 133,
        237, 95, 91, 55, 145, 58, 140, 245, 133, 126, 255, 0, 169,
    ];
    proof {
        assert(k@ =~= token_program_id());
    }
    k
}

/// Calls `spl_token::state::Mint::unpack` on the bytes of a mint account and
/// picks the decimals. Trusted: it accepts exactly the 82-byte layout that
/// `mint_decimals` describes, reports a mint whose initialized flag is 0 as
/// uninitialized, and any other bytes as invalid account data.
#[verifier::external_body]
pub(crate) fn unpack_mint_decimals(data: &[u8]) -> (r: Result<u8, ProcessError>)
    ensures
        r == mint_decimals(data@),
{
    match spl_token::state::Mint::unpack(data) {
        Ok(mint) => Ok(mint.decimals),
        Err(ProgramError::UninitializedAccount) => Err(ProcessError::UninitializedAccount),
        Err(_) => Err(ProcessError::InvalidAccountData),
    }
}

/// Calls `spl_token::check_program_account` on a key. Trusted: it accepts the
/// token program's address, which is `token_program_id`, and no other.
#[verifier::external_body]
pub(crate) fn is_token_program(key: &[u8; 32]) -> (r: bool)
    ensures
        r == (key@ == token_program_id()),
{
    spl_token::check_program_account(&Pubkey::new_from_array(*key)).is_ok()
}

} // verus!
