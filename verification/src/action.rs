//! What a handler hands back: the accounts it was given, and the ordered actions
//! that the ledger runtime is to carry out, all or none.

use crate::settings::{Managment, Settings};
use vstd::prelude::*;

verus! {

/// One account of a request, as the ledger runtime presents it.
#[derive(Clone, Debug, PartialEq, Eq)]
pub struct AccountInfo {
    /// The account's address.
    pub key: [u8; 32],
    /// Whether the holder of the account's key signed the request.
    pub is_signer: bool,
    /// Whether the request may change the account.
    pub is_writable: bool,
    /// The program that owns the account.
    pub owner: [u8; 32],
    /// The account's bytes.
    pub data: Vec<u8>,
    /// The account's native balance.
    pub lamports: u64,
}

/// An action as a mathematical value.
pub enum Step {
    Transfer { from: Seq<u8>, to: Seq<u8>, lamports: u64 },
    TransferChecked {
        token_program: Seq<u8>,
        source: Seq<u8>,
        mint: Seq<u8>,
        destination: Seq<u8>,
        authority: Seq<u8>,
        amount: u64,
        decimals: u8,
        bump: u8,
    },
    CreateAccount { payer: Seq<u8>, address: Seq<u8>, space: u64, owner: Seq<u8>, bump: u8 },
    Store { account: Seq<u8>, record: Settings },
}

/// One action for the ledger runtime.
#[derive(Clone, Copy, Debug, PartialEq, Eq)]
pub enum Action {
    /// Move `lamports` of native balance from `from` to `to`, on the signature
    /// of `from`.
    Transfer { from: [u8; 32], to: [u8; 32], lamports: u64 },
    /// Move `amount` token units at `decimals` decimals from the balance account
    /// `source` to `destination`, signed for `authority` by the program itself
    /// with the authority seed and `bump`.
    TransferChecked {
        token_program: [u8; 32],
        source: [u8; 32],
        mint: [u8; 32],
        destination: [u8; 32],
        authority: [u8; 32],
        amount: u64,
        decimals: u8,
        bump: u8,
    },
    /// Create the zero-filled account `address` of `space` bytes, owned by
    /// `owner`, funded by `payer` to the least balance that keeps it stored, and
    /// signed for by the program itself with the settings seed and `bump`.
    CreateAccount { payer: [u8; 32], address: [u8; 32], space: u64, owner: [u8; 32], bump: u8 },
    /// Write the bytes of `record` into `account`.
    Store { account: [u8; 32], record: Managment },
}

impl View for Action {
    type V = Step;

    open spec fn view(&self) -> Step {
        match self {
            Action::Transfer { from, to, lamports } => Step::Transfer {
                from: from@,
                to: to@,
                lamports: *lamports,
            },
            Action::TransferChecked {
                token_program,
                source,
                mint,
                destination,
                authority,
                amount,
                decimals,
                bump,
            } => Step::TransferChecked {
                token_program: token_program@,
                source: source@,
                mint: mint@,
                destination: destination@,
                authority: authority@,
                amount: *amount,
                decimals: *decimals,
                bump: *bump,
            },
            Action::CreateAccount { payer, address, space, owner, bump } => Step::CreateAccount {
                payer: payer@,
                address: address@,
                space: *space,
                owner: owner@,
                bump: *bump,
            },
            Action::Store { account, record } => Step::Store { account: account@, record: record@ },
        }
    }
}

/// The actions of a plan as mathematical values, in order.
pub open spec fn steps(plan: Seq<Action>) -> Seq<Step> {
    Seq::new(plan.len(), |i: int| plan[i]@)
}

} // verus!
