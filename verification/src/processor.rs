//! The three handlers and the entry point that picks one of them.
//!
//! A handler reads its accounts by position, validates them, and returns the
//! plan of actions for the ledger runtime. A request that fails returns the
//! reason and no action.

use crate::action::{steps, AccountInfo, Action, Step};
use crate::address::{authority_address, authority_seed, program_address};
use crate::error::ProcessError;
use crate::fee::{fee, fee_of, lemma_sum_prefix, sum, total};
pub use crate::instruction::MultisendInstruction;
use crate::instruction::{request_from_bytes, Request};
use crate::mint::{is_token_program, mint_decimals, token_program_id, unpack_mint_decimals};
pub use crate::settings::Managment;
use crate::settings::{accepts_bank, may_administer, settings_from_bytes, settings_seed, Settings};
use crate::wire::{is_zero_key, same_key};
use vstd::prelude::*;

verus! {

/// The fee charged on a batch under `settings`, or why the batch is refused:
/// fees must go to the destination on record once one is set, and neither the
/// batch total nor the fee may exceed 64 bits.
pub open spec fn batch_fee(settings: Settings, destination: Seq<u8>, amounts: Seq<u64>) -> Result<
    u64,
    ProcessError,
> {
    if !accepts_bank(settings.bank, destination) {
        Err(ProcessError::Unauthorized)
    } else if sum(amounts) > u64::MAX || fee_of(sum(amounts), settings.fee as int) > u64::MAX {
        Err(ProcessError::ArithmeticOverflow)
    } else {
        Ok(fee_of(sum(amounts), settings.fee as int) as u64)
    }
}

/// The plan of a native batch: the fee from the sender (account 0) to the fee
/// destination (account 2), then each amount from the sender to its recipient,
/// the accounts from 3 on, in the order of the amounts.
pub open spec fn lamports_plan(accounts: Seq<AccountInfo>, amounts: Seq<u64>, fee: u64) -> Seq<
    Step,
> {
    seq![Step::Transfer { from: accounts[0].key@, to: accounts[2].key@, lamports: fee }]
        + Seq::new(
        amounts.len(),
        |i: int|
            Step::Transfer { from: accounts[0].key@, to: accounts[3 + i].key@, lamports: amounts[i] },
    )
}

/// What a native batch comes to. The accounts are the sender, who must have
/// signed, the settings account, the fee destination, then one recipient for
/// each amount.
pub open spec fn send_lamports_outcome(accounts: Seq<AccountInfo>, amounts: Seq<u64>) -> Result<
    Seq<Step>,
    ProcessError,
> {
    if accounts.len() < 3 {
        Err(ProcessError::NotEnoughAccountKeys)
    } else {
        match settings_from_bytes(accounts[1].data@) {
            None => Err(ProcessError::InvalidSettingsData),
            Some(settings) => match batch_fee(settings, accounts[2].key@, amounts) {
                Err(e) => Err(e),
                Ok(fee) => if !accounts[0].is_signer {
                    Err(ProcessError::MissingRequiredSignature)
                } else if accounts.len() < 3 + amounts.len() {
                    Err(ProcessError::NotEnoughAccountKeys)
                } else {
                    Ok(lamports_plan(accounts, amounts, fee))
                },
            },
        }
    }
}

/// One token transfer out of the sender's balance account (account 0), under
/// the token program (account 3), the mint (account 4) and the signing authority
/// (account 5).
pub open spec fn token_step(
    accounts: Seq<AccountInfo>,
    destination: Seq<u8>,
    amount: u64,
    decimals: u8,
    bump: u8,
) -> Step {
    Step::TransferChecked {
        token_program: accounts[3].key@,
        source: accounts[0].key@,
        mint: accounts[4].key@,
        destination,
        authority: accounts[5].key@,
        amount,
        decimals,
        bump,
    }
}

/// The plan of a token batch: the fee to the fee destination (account 2), then
/// each amount to its recipient, the accounts from 6 on, in the order of the
/// amounts; every transfer at the same decimals.
pub open spec fn tokens_plan(
    accounts: Seq<AccountInfo>,
    amounts: Seq<u64>,
    fee: u64,
    decimals: u8,
    bump: u8,
) -> Seq<Step> {
    seq![token_step(accounts, accounts[2].key@, fee, decimals, bump)] + Seq::new(
        amounts.len(),
        |i: int| token_step(accounts, accounts[6 + i].key@, amounts[i], decimals, bump),
    )
}

/// What a token batch comes to, where `authority` is the signing authority
/// derived for the program. The accounts are the sender's balance account, the
/// settings account, the fee destination, the token program, the mint, the
/// signing authority, then one recipient for each amount.
pub open spec fn send_tokens_outcome(
    accounts: Seq<AccountInfo>,
    amounts: Seq<u64>,
    authority: Option<(Seq<u8>, u8)>,
) -> Result<Seq<Step>, ProcessError> {
    if accounts.len() < 6 {
        Err(ProcessError::NotEnoughAccountKeys)
    } else {
        match settings_from_bytes(accounts[1].data@) {
            None => Err(ProcessError::InvalidSettingsData),
            Some(settings) => match batch_fee(settings, accounts[2].key@, amounts) {
                Err(e) => Err(e),
                Ok(fee) => if authority is None || authority.unwrap().0 != accounts[5].key@ {
                    Err(ProcessError::InvalidSeeds)
                } else {
                    match mint_decimals(accounts[4].data@) {
                        Err(e) => Err(e),
                        Ok(decimals) => if accounts[3].key@ != token_program_id() {
                            Err(ProcessError::IncorrectProgramId)
                        } else if accounts.len() < 6 + amounts.len() {
                            Err(ProcessError::NotEnoughAccountKeys)
                        } else {
                            Ok(tokens_plan(accounts, amounts, fee, decimals, authority.unwrap().1))
                        },
                    }
                },
            },
        }
    }
}

/// The record that a settings change writes: the new fee, the proposed
/// administrator (account 3) and the proposed fee destination (account 2).
pub open spec fn proposed_settings(accounts: Seq<AccountInfo>, fee: u64) -> Settings {
    Settings { fee, admin: accounts[3].key@, bank: accounts[2].key@ }
}

/// What a settings change comes to, where `derived` is the settings address
/// derived for the program. The accounts are the acting administrator, the
/// settings account, the proposed fee destination, the proposed administrator,
/// the rent information and the account-creation facility. An empty settings
/// account is created first and is then unclaimed; otherwise the administrator on
/// record, once there is one, must be the acting one.
pub open spec fn update_settings_outcome(
    program_id: Seq<u8>,
    accounts: Seq<AccountInfo>,
    fee: u64,
    derived: Option<(Seq<u8>, u8)>,
) -> Result<Seq<Step>, ProcessError> {
    if accounts.len() < 6 {
        Err(ProcessError::NotEnoughAccountKeys)
    } else if derived is None || derived.unwrap().0 != accounts[1].key@ {
        Err(ProcessError::InvalidArgument)
    } else if !accounts[0].is_signer {
        Err(ProcessError::MissingRequiredSignature)
    } else if accounts[1].data@.len() == 0 {
        Ok(
            seq![
                Step::CreateAccount {
                    payer: accounts[0].key@,
                    address: accounts[1].key@,
                    space: 72,
                    owner: program_id,
                    bump: derived.unwrap().1,
                },
                Step::Store { account: accounts[1].key@, record: proposed_settings(accounts, fee) },
            ],
        )
    } else {
        match settings_from_bytes(accounts[1].data@) {
            None => Err(ProcessError::InvalidSettingsData),
            Some(settings) => if !may_administer(settings.admin, accounts[0].key@) {
                Err(ProcessError::Unauthorized)
            } else {
                Ok(
                    seq![
                        Step::Store {
                            account: accounts[1].key@,
                            record: proposed_settings(accounts, fee),
                        },
                    ],
                )
            },
        }
    }
}

/// What a request comes to, where `settings_address` and `authority` are the
/// two addresses derived for the program.
pub open spec fn process_outcome(
    program_id: Seq<u8>,
    accounts: Seq<AccountInfo>,
    body: Seq<u8>,
    settings_address: Option<(Seq<u8>, u8)>,
    authority: Option<(Seq<u8>, u8)>,
) -> Result<Seq<Step>, ProcessError> {
    match request_from_bytes(body) {
        None => Err(ProcessError::InvalidInstructionData),
        Some(Request::SendLamports { amounts }) => send_lamports_outcome(accounts, amounts),
        Some(Request::SendTokens { amounts }) => send_tokens_outcome(accounts, amounts, authority),
        Some(Request::UpdateSettings { fee }) => update_settings_outcome(
            program_id,
            accounts,
            fee,
            settings_address,
        ),
    }
}

/// Whether what a handler returned is `outcome`: the same failure, or a plan
/// whose actions are the steps of `outcome` in order.
pub open spec fn agrees(
    r: Result<Vec<Action>, ProcessError>,
    outcome: Result<Seq<Step>, ProcessError>,
) -> bool {
    match r {
        Ok(plan) => outcome == Ok::<Seq<Step>, ProcessError>(steps(plan@)),
        Err(e) => outcome == Err::<Seq<Step>, ProcessError>(e),
    }
}

/// Checks the fee destination of a batch against the record and computes the
/// batch's fee.
pub fn charge(settings: &Managment, destination: &[u8; 32], amounts: &[u64]) -> (r: Result<
    u64,
    ProcessError,
>)
    ensures
        r == batch_fee(settings@, destination@, amounts@),
{
    if !is_zero_key(&settings.bank) && !same_key(&settings.bank, destination) {
        return Err(ProcessError::Unauthorized);
    }
    proof {
        lemma_sum_prefix(amounts@, amounts@.len() as int);
    }
    let batch_total: u64 = match total(amounts) {
        Ok(t) => t,
        Err(e) => {
            return Err(e);
        },
    };
    fee(batch_total, settings.fee)
}

/// Handles a native batch.
pub fn send_lamports(accounts: &[AccountInfo], amounts: &[u64]) -> (r: Result<
    Vec<Action>,
    ProcessError,
>)
    ensures
        agrees(r, send_lamports_outcome(accounts@, amounts@)),
{
    if accounts.len() < 3 {
        return Err(ProcessError::NotEnoughAccountKeys);
    }
    let settings: Managment = match Managment::try_from_slice(accounts[1].data.as_slice()) {
        Ok(m) => m,
        Err(e) => {
            return Err(e);
        },
    };
    let batch_fee: u64 = match charge(&settings, &accounts[2].key, amounts) {
        Ok(f) => f,
        Err(e) => {
            return Err(e);
        },
    };
    if !accounts[0].is_signer {
        return Err(ProcessError::MissingRequiredSignature);
    }
    if accounts.len() - 3 < amounts.len() {
        return Err(ProcessError::NotEnoughAccountKeys);
    }
    let from: [u8; 32] = accounts[0].key;
    let ghost want = lamports_plan(accounts@, amounts@, batch_fee);
    let mut plan: Vec<Action> = Vec::new();
    plan.push(Action::Transfer { from, to: accounts[2].key, lamports: batch_fee });
    let mut i: usize = 0;
    while i < amounts.len()
        invariant
            0 <= i <= amounts.len(),
            accounts.len() >= 3 + amounts.len(),
            from == accounts[0].key,
            want == lamports_plan(accounts@, amounts@, batch_fee),
            plan@.len() == 1 + i,
            forall|j: int| 0 <= j < 1 + i ==> (#[trigger] plan@[j])@ == want[j],
        decreases amounts.len() - i,
    {
        plan.push(Action::Transfer { from, to: accounts[3 + i].key, lamports: amounts[i] });
        i += 1;
    }
    proof {
        assert(steps(plan@) =~= want);
    }
    Ok(plan)
}

/// Handles a token batch, given the signing authority derived for the program.
pub fn send_tokens_as(
    accounts: &[AccountInfo],
    amounts: &[u64],
    authority: Option<([u8; 32], u8)>,
) -> (r: Result<Vec<Action>, ProcessError>)
    ensures
        agrees(
            r,
            send_tokens_outcome(
                accounts@,
                amounts@,
                match authority {
                    Some((key, bump)) => Some((key@, bump)),
                    None => None,
                },
            ),
        ),
{
    if accounts.len() < 6 {
        return Err(ProcessError::NotEnoughAccountKeys);
    }
    let settings: Managment = match Managment::try_from_slice(accounts[1].data.as_slice()) {
        Ok(m) => m,
        Err(e) => {
            return Err(e);
        },
    };
    let batch_fee: u64 = match charge(&settings, &accounts[2].key, amounts) {
        Ok(f) => f,
        Err(e) => {
            return Err(e);
        },
    };
    let bump: u8 = match authority {
        Some((key, bump)) => {
            if !same_key(&key, &accounts[5].key) {
                return Err(ProcessError::InvalidSeeds);
            }
            bump
        },
        None => {
            return Err(ProcessError::InvalidSeeds);
        },
    };
    let decimals: u8 = match unpack_mint_decimals(accounts[4].data.as_slice()) {
        Ok(d) => d,
        Err(e) => {
            return Err(e);
        },
    };
    if !is_token_program(&accounts[3].key) {
        return Err(ProcessError::IncorrectProgramId);
    }
    if accounts.len() - 6 < amounts.len() {
        return Err(ProcessError::NotEnoughAccountKeys);
    }
    let token_program: [u8; 32] = accounts[3].key;
    let source: [u8; 32] = accounts[0].key;
    let mint: [u8; 32] = accounts[4].key;
    let signer: [u8; 32] = accounts[5].key;
    let ghost want = tokens_plan(accounts@, amounts@, batch_fee, decimals, bump);
    let mut plan: Vec<Action> = Vec::new();
    plan.push(
        Action::TransferChecked {
            token_program,
            source,
            mint,
            destination: accounts[2].key,
            authority: signer,
            amount: batch_fee,
            decimals,
            bump,
        },
    );
    let mut i: usize = 0;
    while i < amounts.len()
        invariant
            0 <= i <= amounts.len(),
            accounts.len() >= 6 + amounts.len(),
            token_program == accounts[3].key,
            source == accounts[0].key,
            mint == accounts[4].key,
            signer == accounts[5].key,
            want == tokens_plan(accounts@, amounts@, batch_fee, decimals, bump),
            plan@.len() == 1 + i,
            forall|j: int| 0 <= j < 1 + i ==> (#[trigger] plan@[j])@ == want[j],
        decreases amounts.len() - i,
    {
        plan.push(
            Action::TransferChecked {
                token_program,
                source,
                mint,
                destination: accounts[6 + i].key,
                authority: signer,
                amount: amounts[i],
                decimals,
                bump,
            },
        );
        i += 1;
    }
    proof {
        assert(steps(plan@) =~= want);
    }
    Ok(plan)
}

/// Handles a token batch for the program `program_id`: derives the program's
/// signing authority and checks the batch against it.
pub fn send_tokens(program_id: &[u8; 32], accounts: &[AccountInfo], amounts: &[u64]) -> (r: Result<
    Vec<Action>,
    ProcessError,
>)
    ensures
        agrees(
            r,
            send_tokens_outcome(
                accounts@,
                amounts@,
                program_address(authority_seed(), program_id@),
            ),
        ),
{
    let authority = authority_address(program_id);
    send_tokens_as(accounts, amounts, authority)
}

/// Handles a settings change, given the settings address derived for the
/// program.
pub fn update_settings_at(
    program_id: &[u8; 32],
    accounts: &[AccountInfo],
    fee: u64,
    derived: Option<([u8; 32], u8)>,
) -> (r: Result<Vec<Action>, ProcessError>)
    ensures
        agrees(
            r,
            update_settings_outcome(
                program_id@,
                accounts@,
                fee,
                match derived {
                    Some((key, bump)) => Some((key@, bump)),
                    None => None,
                },
            ),
        ),
{
    if accounts.len() < 6 {
        return Err(ProcessError::NotEnoughAccountKeys);
    }
    let bump: u8 = match derived {
        Some((key, bump)) => {
            if !same_key(&key, &accounts[1].key) {
                return Err(ProcessError::InvalidArgument);
            }
            bump
        },
        None => {
            return Err(ProcessError::InvalidArgument);
        },
    };
    if !accounts[0].is_signer {
        return Err(ProcessError::MissingRequiredSignature);
    }
    let record = Managment { fee, admin: accounts[3].key, bank: accounts[2].key };
    let store = Action::Store { account: accounts[1].key, record };
    let mut plan: Vec<Action> = Vec::new();
    if accounts[1].data.len() == 0 {
        plan.push(
            Action::CreateAccount {
                payer: accounts[0].key,
                address: accounts[1].key,
                space: 72,
                owner: *program_id,
                bump,
            },
        );
        plan.push(store);
        proof {
            assert(steps(plan@) =~= update_settings_outcome(
                program_id@,
                accounts@,
                fee,
                Some((derived.unwrap().0@, bump)),
            ).unwrap());
        }
        return Ok(plan);
    }
    let current: Managment = match Managment::try_from_slice(accounts[1].data.as_slice()) {
        Ok(m) => m,
        Err(e) => {
            return Err(e);
        },
    };
    if !is_zero_key(&current.admin) && !same_key(&current.admin, &accounts[0].key) {
        return Err(ProcessError::Unauthorized);
    }
    plan.push(store);
    proof {
        assert(steps(plan@) =~= update_settings_outcome(
            program_id@,
            accounts@,
            fee,
            Some((derived.unwrap().0@, bump)),
        ).unwrap());
    }
    Ok(plan)
}

/// Handles a settings change for the program `program_id`: derives the
/// program's settings address and checks the change against it.
pub fn update_settings(program_id: &[u8; 32], accounts: &[AccountInfo], fee: u64) -> (r: Result<
    Vec<Action>,
    ProcessError,
>)
    ensures
        agrees(
            r,
            update_settings_outcome(
                program_id@,
                accounts@,
                fee,
                program_address(settings_seed(), program_id@),
            ),
        ),
{
    let derived = Managment::get_settings_pubkey_with_bump(program_id);
    update_settings_at(program_id, accounts, fee, derived)
}

/// Handles one request: decodes the body and hands it to the handler that it
/// names.
pub fn process_instruction(
    program_id: &[u8; 32],
    accounts: &[AccountInfo],
    instruction_data: &[u8],
) -> (r: Result<Vec<Action>, ProcessError>)
    ensures
        agrees(
            r,
            process_outcome(
                program_id@,
                accounts@,
                instruction_data@,
                program_address(settings_seed(), program_id@),
                program_address(authority_seed(), program_id@),
            ),
        ),
{
    let instruction = match MultisendInstruction::try_from_slice(instruction_data) {
        Ok(i) => i,
        Err(e) => {
            return Err(e);
        },
    };
    match instruction {
        MultisendInstruction::SendLamports { amounts } => send_lamports(
            accounts,
            amounts.as_slice(),
        ),
        MultisendInstruction::SendTokens { amounts } => send_tokens(
            program_id,
            accounts,
            amounts.as_slice(),
        ),
        MultisendInstruction::UpdateSettings { fee } => update_settings(program_id, accounts, fee),
    }
}

} // verus!
