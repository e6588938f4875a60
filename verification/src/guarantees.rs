//! What holds of every request, stated over the outcomes that the handlers'
//! contracts name.

use crate::action::{AccountInfo, Step};
use crate::address::{authority_seed, program_address};
use crate::error::ProcessError;
use crate::fee::{fee_of, lemma_sum_prefix, sum};
use crate::processor::{
    lamports_plan, proposed_settings, send_lamports_outcome, send_tokens_outcome,
    update_settings_outcome,
};
use crate::settings::{
    lemma_settings_round_trip, lemma_zero_filled_is_unclaimed, settings_from_bytes, settings_seed,
    settings_to_bytes, Settings,
};
use crate::wire::zero_key;
use vstd::prelude::*;

verus! {

/// The native balance that a plan takes out of the account `from`.
pub open spec fn debited(plan: Seq<Step>, from: Seq<u8>) -> int
    decreases plan.len(),
{
    if plan.len() == 0 {
        0
    } else {
        debited(plan.drop_last(), from) + match plan.last() {
            Step::Transfer { from: payer, to, lamports } => if payer == from {
                lamports as int
            } else {
                0
            },
            _ => 0,
        }
    }
}

/// The plan of a native batch takes the fee and every amount out of the sender.
pub proof fn lemma_plan_debits_fee_and_amounts(
    accounts: Seq<AccountInfo>,
    amounts: Seq<u64>,
    fee: u64,
)
    ensures
        debited(lamports_plan(accounts, amounts, fee), accounts[0].key@) == fee + sum(amounts),
    decreases amounts.len(),
{
    let plan = lamports_plan(accounts, amounts, fee);
    if amounts.len() == 0 {
        assert(plan.drop_last() =~= Seq::<Step>::empty());
        assert(debited(plan.drop_last(), accounts[0].key@) == 0);
    } else {
        lemma_plan_debits_fee_and_amounts(accounts, amounts.drop_last(), fee);
        assert(plan.drop_last() =~= lamports_plan(accounts, amounts.drop_last(), fee));
    }
}

/// A native batch that is accepted takes out of the sender the sum of its
/// amounts and the fee on that sum at the rate on record, no more and no less.
pub proof fn lemma_batch_debits_total_and_fee(
    accounts: Seq<AccountInfo>,
    amounts: Seq<u64>,
    record: Settings,
)
    requires
        send_lamports_outcome(accounts, amounts) is Ok,
        settings_from_bytes(accounts[1].data@) == Some(record),
    ensures
        debited(send_lamports_outcome(accounts, amounts).unwrap(), accounts[0].key@) == sum(amounts)
            + fee_of(sum(amounts), record.fee as int),
{
    lemma_sum_prefix(amounts, amounts.len() as int);
    let fee = fee_of(sum(amounts), record.fee as int) as u64;
    lemma_plan_debits_fee_and_amounts(accounts, amounts, fee);
    assert(fee_of(sum(amounts), record.fee as int) >= 0) by (nonlinear_arith)
        requires
            sum(amounts) >= 0,
            record.fee >= 0,
    ;
}

/// Once a fee destination is on record, a batch that names another one is
/// refused as unauthorized on either lane, whatever else it holds, and so moves
/// nothing.
pub proof fn lemma_fee_destination_is_enforced(
    accounts: Seq<AccountInfo>,
    amounts: Seq<u64>,
    authority: Option<(Seq<u8>, u8)>,
    record: Settings,
)
    requires
        accounts.len() >= 3,
        settings_from_bytes(accounts[1].data@) == Some(record),
        record.bank != zero_key(),
        record.bank != accounts[2].key@,
    ensures
        send_lamports_outcome(accounts, amounts) == Err::<Seq<Step>, ProcessError>(
            ProcessError::Unauthorized,
        ),
        send_tokens_outcome(accounts, amounts, authority) is Err,
        accounts.len() >= 6 ==> send_tokens_outcome(accounts, amounts, authority) == Err::<
            Seq<Step>,
            ProcessError,
        >(ProcessError::Unauthorized),
{
}

/// Creation changes nothing of what a settings change writes: on an empty
/// settings account the change creates the account and then stores exactly what
/// it would store on the zero-filled account that creation leaves behind, where
/// it succeeds whoever signed.
pub proof fn lemma_created_record_is_unclaimed(
    program_id: Seq<u8>,
    empty: Seq<AccountInfo>,
    created: Seq<AccountInfo>,
    fee: u64,
    derived: Option<(Seq<u8>, u8)>,
)
    requires
        update_settings_outcome(program_id, empty, fee, derived) is Ok,
        empty[1].data@.len() == 0,
        created.len() == empty.len(),
        forall|i: int| 0 <= i < empty.len() && i != 1 ==> created[i] == empty[i],
        created[1].key@ == empty[1].key@,
        created[1].data@.len() == 72,
        forall|j: int| 0 <= j < 72 ==> created[1].data@[j] == 0,
    ensures
        update_settings_outcome(program_id, created, fee, derived) is Ok,
        update_settings_outcome(program_id, empty, fee, derived).unwrap() == seq![
            Step::CreateAccount {
                payer: empty[0].key@,
                address: empty[1].key@,
                space: 72,
                owner: program_id,
                bump: derived.unwrap().1,
            },
        ] + update_settings_outcome(program_id, created, fee, derived).unwrap(),
{
    lemma_zero_filled_is_unclaimed(created[1].data@);
    assert(update_settings_outcome(program_id, empty, fee, derived).unwrap() =~= seq![
        Step::CreateAccount {
            payer: empty[0].key@,
            address: empty[1].key@,
            space: 72,
            owner: program_id,
            bump: derived.unwrap().1,
        },
    ] + update_settings_outcome(program_id, created, fee, derived).unwrap());
}

/// The first settings change to succeed writes the proposed record, and where
/// the signer proposes itself it thereby becomes the administrator. A later
/// change that another key attempts on that record is refused and writes
/// nothing: as unauthorized where that key signed, as unsigned where it did not.
pub proof fn lemma_second_signer_is_refused(
    program_id: Seq<u8>,
    first: Seq<AccountInfo>,
    first_fee: u64,
    second: Seq<AccountInfo>,
    second_fee: u64,
    derived: Option<(Seq<u8>, u8)>,
)
    requires
        update_settings_outcome(program_id, first, first_fee, derived) is Ok,
        first[3].key@ == first[0].key@,
        first[0].key@ != zero_key(),
        second.len() >= 6,
        second[1].key@ == first[1].key@,
        second[1].data@ == settings_to_bytes(proposed_settings(first, first_fee)),
        second[0].key@ != first[0].key@,
    ensures
        update_settings_outcome(program_id, first, first_fee, derived).unwrap().last()
            == (Step::Store {
            account: first[1].key@,
            record: proposed_settings(first, first_fee),
        }),
        proposed_settings(first, first_fee).admin == first[0].key@,
        update_settings_outcome(program_id, second, second_fee, derived) == Err::<
            Seq<Step>,
            ProcessError,
        >(
            if second[0].is_signer {
                ProcessError::Unauthorized
            } else {
                ProcessError::MissingRequiredSignature
            },
        ),
{
    lemma_settings_round_trip(proposed_settings(first, first_fee));
}

/// The administrator on record may change the record: a signed change at the
/// derived settings address succeeds and writes the new fee, the proposed
/// administrator and the proposed fee destination together, and nothing else.
pub proof fn lemma_administrator_may_update(
    program_id: Seq<u8>,
    accounts: Seq<AccountInfo>,
    fee: u64,
    derived: Option<(Seq<u8>, u8)>,
    current: Settings,
)
    requires
        accounts.len() >= 6,
        derived is Some,
        derived.unwrap().0 == accounts[1].key@,
        accounts[0].is_signer,
        current.admin.len() == 32,
        current.bank.len() == 32,
        accounts[1].data@ == settings_to_bytes(current),
        current.admin == accounts[0].key@,
    ensures
        update_settings_outcome(program_id, accounts, fee, derived) == Ok::<
            Seq<Step>,
            ProcessError,
        >(
            seq![
                Step::Store {
                    account: accounts[1].key@,
                    record: Settings { fee, admin: accounts[3].key@, bank: accounts[2].key@ },
                },
            ],
        ),
{
    lemma_settings_round_trip(current);
}

/// A token batch whose signing-authority account is not the derived authority
/// is refused, whatever else it holds, and so moves nothing.
pub proof fn lemma_forged_authority_is_refused(
    accounts: Seq<AccountInfo>,
    amounts: Seq<u64>,
    authority: Option<(Seq<u8>, u8)>,
)
    requires
        accounts.len() >= 6,
        authority is None || authority.unwrap().0 != accounts[5].key@,
    ensures
        send_tokens_outcome(accounts, amounts, authority) is Err,
{
}

/// Deriving the settings address and the signing authority again for the same
/// program gives the same addresses and discriminants.
pub proof fn lemma_derivation_repeats(program_id: Seq<u8>, again: Seq<u8>)
    requires
        program_id == again,
    ensures
        program_address(settings_seed(), program_id) == program_address(settings_seed(), again),
        program_address(authority_seed(), program_id) == program_address(authority_seed(), again),
{
}

} // verus!
