use borsh::BorshSerialize;
use multisend::action::{AccountInfo, Action};
use multisend::address::authority_address;
use multisend::error::ProcessError;
use multisend::fee::{fee, total};
use multisend::instruction::{read_amounts, write_amounts, MultisendInstruction};
use multisend::mint::token_program_key;
use multisend::processor::{
    charge, process_instruction, send_lamports, send_tokens, send_tokens_as, update_settings,
    update_settings_at,
};
use multisend::settings::Managment;
use multisend::wire::{
    is_zero_key, read_key, read_u32, read_u64, same_key, write_key, write_u32, write_u64,
};
use solana_program::program_option::COption;
use solana_program::program_pack::Pack;
use solana_program::pubkey::Pubkey;
use spl_token::state::Mint;
use std::str::FromStr;

fn key(n: u8) -> [u8; 32] {
    [n; 32]
}

fn program_id() -> [u8; 32] {
    Pubkey::from_str("Transfer11111111111111111111111111111111111").unwrap().to_bytes()
}

fn account(key: [u8; 32], data: Vec<u8>) -> AccountInfo {
    AccountInfo { key, is_signer: false, is_writable: true, owner: [0; 32], data, lamports: 10_000_000 }
}

fn signer(key: [u8; 32]) -> AccountInfo {
    AccountInfo { key, is_signer: true, is_writable: true, owner: [0; 32], data: Vec::new(), lamports: 10_000_000 }
}

fn record(fee: u64, admin: [u8; 32], bank: [u8; 32]) -> Vec<u8> {
    Managment { fee, admin, bank }.try_to_vec()
}

fn mint_bytes(decimals: u8, is_initialized: bool) -> Vec<u8> {
    let mut data = vec![0u8; 82];
    let mint = Mint {
        mint_authority: COption::Some(Pubkey::new_from_array(key(77))),
        supply: 5,
        decimals,
        is_initialized,
        freeze_authority: COption::None,
    };
    mint.pack_into_slice(&mut data);
    data
}

/// sender, settings, bank, then the recipients
fn native_accounts(settings: Vec<u8>, bank: [u8; 32], recipients: &[[u8; 32]]) -> Vec<AccountInfo> {
    let mut accounts = vec![signer(key(1)), account(key(50), settings), account(bank, Vec::new())];
    for r in recipients {
        accounts.push(account(*r, Vec::new()));
    }
    accounts
}

/// source, settings, bank, token program, mint, authority, then the recipients
fn token_accounts(
    settings: Vec<u8>,
    token_program: [u8; 32],
    mint: Vec<u8>,
    authority: [u8; 32],
    recipients: &[[u8; 32]],
) -> Vec<AccountInfo> {
    let mut accounts = vec![
        account(key(1), Vec::new()),
        account(key(50), settings),
        account(key(4), Vec::new()),
        account(token_program, Vec::new()),
        account(key(60), mint),
        account(authority, Vec::new()),
    ];
    for r in recipients {
        accounts.push(account(*r, Vec::new()));
    }
    accounts
}

fn update_accounts(signer_key: [u8; 32], signed: bool, settings_key: [u8; 32], data: Vec<u8>) -> Vec<AccountInfo> {
    let mut admin = signer(signer_key);
    admin.is_signer = signed;
    vec![
        admin,
        account(settings_key, data),
        account(key(4), Vec::new()),
        account(key(12), Vec::new()),
        account(key(200), Vec::new()),
        account(key(201), Vec::new()),
    ]
}

#[test]
fn fee_truncates_before_it_multiplies() {
    assert_eq!(fee(9_999, 100), Ok(0));
    assert_eq!(fee(10_000, 100), Ok(100));
    assert_eq!(fee(25_000, 10), Ok(20));
    assert_eq!(fee(300_000, 10), Ok(300));
    assert_eq!(fee(0, u64::MAX), Ok(0));
    assert_eq!(fee(19_999, 7), Ok(7));
    // a true basis-point fee on 19_999 at rate 7 would be 13
    assert_ne!(fee(19_999, 7), Ok(19_999 * 7 / 10_000));
}

#[test]
fn fee_that_does_not_fit_is_refused() {
    assert_eq!(fee(20_000, u64::MAX), Err(ProcessError::ArithmeticOverflow));
    assert_eq!(fee(10_000, u64::MAX), Ok(u64::MAX));
    assert_eq!(fee(u64::MAX, 10_000), Ok((u64::MAX / 10_000) * 10_000));
    assert_eq!(fee(u64::MAX, 10_001), Err(ProcessError::ArithmeticOverflow));
}

#[test]
fn total_sums_and_never_wraps() {
    assert_eq!(total(&[]), Ok(0));
    assert_eq!(total(&[100000, 200000]), Ok(300000));
    assert_eq!(total(&[u64::MAX]), Ok(u64::MAX));
    assert_eq!(total(&[u64::MAX, 1]), Err(ProcessError::ArithmeticOverflow));
    assert_eq!(total(&[1, u64::MAX, 5]), Err(ProcessError::ArithmeticOverflow));
}

#[test]
fn integers_are_little_endian() {
    let bytes = [1u8, 2, 3, 4, 5, 6, 7, 8, 9];
    assert_eq!(read_u64(&bytes, 0), 0x0807060504030201);
    assert_eq!(read_u64(&bytes, 1), 0x0908070605040302);
    assert_eq!(read_u32(&bytes, 0), 0x04030201);
    assert_eq!(read_u32(&bytes, 5), 0x09080706);
    let mut out = vec![9u8];
    write_u64(&mut out, 0x0807060504030201);
    assert_eq!(out, vec![9, 1, 2, 3, 4, 5, 6, 7, 8]);
    for x in [0u64, 1, 255, 256, 10, 300_000, u64::MAX, u64::MAX - 1, 1 << 63] {
        let mut out = Vec::new();
        write_u64(&mut out, x);
        assert_eq!(out, x.to_le_bytes().to_vec());
        assert_eq!(out, x.try_to_vec().unwrap());
        assert_eq!(read_u64(&out, 0), x);
    }
}

#[test]
fn keys_are_read_and_compared_bytewise() {
    let mut data = vec![0u8; 40];
    for (i, b) in data.iter_mut().enumerate() {
        *b = i as u8;
    }
    let k = read_key(&data, 3);
    assert_eq!(k.to_vec(), data[3..35].to_vec());
    let mut out = vec![7u8];
    write_key(&mut out, &k);
    assert_eq!(out[0], 7);
    assert_eq!(out[1..].to_vec(), k.to_vec());
    assert!(same_key(&k, &k));
    let mut other = k;
    other[31] ^= 1;
    assert!(!same_key(&k, &other));
    assert!(is_zero_key(&[0; 32]));
    assert!(!is_zero_key(&other));
    let mut last = [0u8; 32];
    last[31] = 1;
    assert!(!is_zero_key(&last));
}

#[test]
fn record_has_the_layout_of_its_fields_in_order() {
    let m = Managment { fee: 10, admin: key(9), bank: key(4) };
    let bytes = m.try_to_vec();
    let expected = (10u64, key(9), key(4)).try_to_vec().unwrap();
    assert_eq!(bytes, expected);
    assert_eq!(bytes.len(), 72);
    assert_eq!(Managment::try_from_slice(&bytes), Ok(m));
    assert_eq!(
        Managment::try_from_slice(&[0u8; 72]),
        Ok(Managment { fee: 0, admin: [0; 32], bank: [0; 32] })
    );
}

#[test]
fn record_of_another_length_is_refused() {
    assert_eq!(Managment::try_from_slice(&[]), Err(ProcessError::InvalidSettingsData));
    assert_eq!(Managment::try_from_slice(&[0u8; 71]), Err(ProcessError::InvalidSettingsData));
    assert_eq!(Managment::try_from_slice(&[0u8; 73]), Err(ProcessError::InvalidSettingsData));
}

#[test]
fn request_bodies_decode() {
    let mut body = vec![0u8];
    body.extend(vec![100000u64, 200000].try_to_vec().unwrap());
    assert_eq!(
        MultisendInstruction::try_from_slice(&body),
        Ok(MultisendInstruction::SendLamports { amounts: vec![100000, 200000] })
    );
    body[0] = 1;
    assert_eq!(
        MultisendInstruction::try_from_slice(&body),
        Ok(MultisendInstruction::SendTokens { amounts: vec![100000, 200000] })
    );
    assert_eq!(
        MultisendInstruction::try_from_slice(&[0, 0, 0, 0, 0]),
        Ok(MultisendInstruction::SendLamports { amounts: vec![] })
    );
    assert_eq!(
        MultisendInstruction::try_from_slice(&[2, 20, 0, 0, 0, 0, 0, 0, 0]),
        Ok(MultisendInstruction::UpdateSettings { fee: 20 })
    );
    assert_eq!(read_amounts(&[9, 1, 0, 0, 0, 7, 0, 0, 0, 0, 0, 0, 0], 1), Some(vec![7]));
    assert_eq!(read_amounts(&[9, 1, 0, 0, 0, 7, 0, 0, 0, 0, 0, 0, 0], 13), None);
}

#[test]
fn request_bodies_encode_and_read_back() {
    let requests = [
        MultisendInstruction::SendLamports { amounts: vec![] },
        MultisendInstruction::SendLamports { amounts: vec![100000, 200000] },
        MultisendInstruction::SendTokens { amounts: vec![u64::MAX, 0, 1] },
        MultisendInstruction::UpdateSettings { fee: 10 },
        MultisendInstruction::UpdateSettings { fee: u64::MAX },
    ];
    for request in requests {
        let body = request.try_to_vec().unwrap();
        assert_eq!(MultisendInstruction::try_from_slice(&body), Ok(request));
    }
    assert_eq!(
        MultisendInstruction::SendTokens { amounts: vec![258] }.try_to_vec(),
        Some(vec![1, 1, 0, 0, 0, 2, 1, 0, 0, 0, 0, 0, 0])
    );
    assert_eq!(
        MultisendInstruction::UpdateSettings { fee: 10 }.try_to_vec(),
        Some(vec![2, 10, 0, 0, 0, 0, 0, 0, 0])
    );
    let mut out = vec![5u8];
    assert!(write_amounts(&mut out, &[1, 2]));
    assert_eq!(out, vec![5, 2, 0, 0, 0, 1, 0, 0, 0, 0, 0, 0, 0, 2, 0, 0, 0, 0, 0, 0, 0]);
    let mut out = Vec::new();
    write_u32(&mut out, 0x04030201);
    assert_eq!(out, vec![1, 2, 3, 4]);
}

#[test]
fn malformed_request_bodies_are_refused() {
    let bad = Err(ProcessError::InvalidInstructionData);
    assert_eq!(MultisendInstruction::try_from_slice(&[]), bad);
    assert_eq!(MultisendInstruction::try_from_slice(&[3, 0, 0, 0, 0]), bad);
    assert_eq!(MultisendInstruction::try_from_slice(&[0]), bad);
    assert_eq!(MultisendInstruction::try_from_slice(&[0, 1, 0, 0, 0]), bad);
    // one amount announced, two supplied
    assert_eq!(MultisendInstruction::try_from_slice(&[1, 1, 0, 0, 0, 1, 0, 0, 0, 0, 0, 0, 0, 2, 0, 0, 0, 0, 0, 0, 0]), bad);
    // a byte left over
    assert_eq!(MultisendInstruction::try_from_slice(&[0, 0, 0, 0, 0, 0]), bad);
    assert_eq!(MultisendInstruction::try_from_slice(&[2, 20, 0, 0, 0, 0, 0, 0]), bad);
    assert_eq!(MultisendInstruction::try_from_slice(&[2, 20, 0, 0, 0, 0, 0, 0, 0, 0]), bad);
    assert_eq!(process_instruction(&program_id(), &[], &[7]), Err(ProcessError::InvalidInstructionData));
}

#[test]
fn derived_addresses_are_those_of_the_runtime_and_repeat() {
    let program = Pubkey::new_from_array(program_id());
    let (settings, settings_bump) = Pubkey::find_program_address(&[b"settings"], &program);
    let (authority, authority_bump) = Pubkey::find_program_address(&[b"authority"], &program);
    let first = Managment::get_settings_pubkey_with_bump(&program_id());
    assert_eq!(first, Some((settings.to_bytes(), settings_bump)));
    assert_eq!(Managment::get_settings_pubkey_with_bump(&program_id()), first);
    let first = authority_address(&program_id());
    assert_eq!(first, Some((authority.to_bytes(), authority_bump)));
    assert_eq!(authority_address(&program_id()), first);
    assert_ne!(settings, authority);
    assert_ne!(settings.to_bytes(), program_id());
    assert_ne!(Managment::get_settings_pubkey_with_bump(&key(3)), Managment::get_settings_pubkey_with_bump(&program_id()));
}

#[test]
fn charge_follows_the_record() {
    let claimed = Managment { fee: 10, admin: key(9), bank: key(4) };
    assert_eq!(charge(&claimed, &key(4), &[100000, 200000]), Ok(300));
    assert_eq!(charge(&claimed, &key(5), &[100000, 200000]), Err(ProcessError::Unauthorized));
    let open = Managment { fee: 10, admin: key(9), bank: [0; 32] };
    assert_eq!(charge(&open, &key(5), &[25_000]), Ok(20));
    assert_eq!(charge(&open, &key(5), &[9_999]), Ok(0));
    assert_eq!(charge(&open, &key(5), &[u64::MAX, 1]), Err(ProcessError::ArithmeticOverflow));
    let steep = Managment { fee: u64::MAX, admin: key(9), bank: [0; 32] };
    assert_eq!(charge(&steep, &key(5), &[20_000]), Err(ProcessError::ArithmeticOverflow));
}

#[test]
fn native_batch_plans_fee_then_recipients_in_order() {
    let accounts = native_accounts(record(10, key(9), key(4)), key(4), &[key(2), key(3), key(8)]);
    let plan = send_lamports(&accounts, &[100000, 200000]).unwrap();
    assert_eq!(
        plan,
        vec![
            Action::Transfer { from: key(1), to: key(4), lamports: 300 },
            Action::Transfer { from: key(1), to: key(2), lamports: 100000 },
            Action::Transfer { from: key(1), to: key(3), lamports: 200000 },
        ]
    );
    let empty = send_lamports(&accounts, &[]).unwrap();
    assert_eq!(empty, vec![Action::Transfer { from: key(1), to: key(4), lamports: 0 }]);
}

#[test]
fn native_batch_failures() {
    let good = record(10, key(9), key(4));
    assert_eq!(
        send_lamports(&native_accounts(good.clone(), key(4), &[])[..2], &[]),
        Err(ProcessError::NotEnoughAccountKeys)
    );
    assert_eq!(
        send_lamports(&native_accounts(vec![1, 2, 3], key(4), &[key(2)]), &[1]),
        Err(ProcessError::InvalidSettingsData)
    );
    assert_eq!(
        send_lamports(&native_accounts(Vec::new(), key(4), &[key(2)]), &[1]),
        Err(ProcessError::InvalidSettingsData)
    );
    assert_eq!(
        send_lamports(&native_accounts(good.clone(), key(5), &[key(2)]), &[1]),
        Err(ProcessError::Unauthorized)
    );
    assert_eq!(
        send_lamports(&native_accounts(good.clone(), key(4), &[key(2), key(3)]), &[u64::MAX, 1]),
        Err(ProcessError::ArithmeticOverflow)
    );
    assert_eq!(
        send_lamports(&native_accounts(good.clone(), key(4), &[key(2)]), &[1, 2]),
        Err(ProcessError::NotEnoughAccountKeys)
    );
    let mut unsigned = native_accounts(good.clone(), key(4), &[key(2)]);
    unsigned[0].is_signer = false;
    assert_eq!(send_lamports(&unsigned, &[1]), Err(ProcessError::MissingRequiredSignature));
    // an unclaimed fee destination accepts any account
    assert!(send_lamports(&native_accounts(record(10, key(9), [0; 32]), key(5), &[key(2)]), &[1]).is_ok());
}

#[test]
fn token_batch_plans_fee_then_recipients_at_the_mint_decimals() {
    let token_program = spl_token::id().to_bytes();
    let accounts = token_accounts(record(10, key(9), key(4)), token_program, mint_bytes(6, true), key(70), &[key(2), key(3)]);
    let plan = send_tokens_as(&accounts, &[100000, 200000], Some((key(70), 254))).unwrap();
    let transfer = |destination: [u8; 32], amount: u64| Action::TransferChecked {
        token_program,
        source: key(1),
        mint: key(60),
        destination,
        authority: key(70),
        amount,
        decimals: 6,
        bump: 254,
    };
    assert_eq!(plan, vec![transfer(key(4), 300), transfer(key(2), 100000), transfer(key(3), 200000)]);
}

#[test]
fn token_program_key_is_the_token_program() {
    assert_eq!(token_program_key(), spl_token::id().to_bytes());
    assert_eq!(Pubkey::new_from_array(token_program_key()).to_string(), "TokenkegQfeZyiNwAJbNbGKPFXCWuBvf9Ss623VQ5DA");
}

#[test]
fn token_batch_failures() {
    let token_program = spl_token::id().to_bytes();
    let good = record(10, key(9), key(4));
    let derived = Some((key(70), 254));
    let build = |settings: Vec<u8>, program: [u8; 32], mint: Vec<u8>, authority: [u8; 32]| {
        token_accounts(settings, program, mint, authority, &[key(2)])
    };
    let ok = build(good.clone(), token_program, mint_bytes(9, true), key(70));
    assert!(send_tokens_as(&ok, &[1], derived).is_ok());
    assert_eq!(send_tokens_as(&ok[..5], &[], derived), Err(ProcessError::NotEnoughAccountKeys));
    assert_eq!(send_tokens_as(&ok, &[1, 2], derived), Err(ProcessError::NotEnoughAccountKeys));
    assert_eq!(send_tokens_as(&ok, &[u64::MAX, 2], derived), Err(ProcessError::ArithmeticOverflow));
    assert_eq!(send_tokens_as(&ok, &[1], Some((key(71), 254))), Err(ProcessError::InvalidSeeds));
    assert_eq!(send_tokens_as(&ok, &[1], None), Err(ProcessError::InvalidSeeds));
    assert_eq!(
        send_tokens_as(&build(vec![0; 5], token_program, mint_bytes(9, true), key(70)), &[1], derived),
        Err(ProcessError::InvalidSettingsData)
    );
    let mut elsewhere = ok.clone();
    elsewhere[2].key = key(5);
    assert_eq!(send_tokens_as(&elsewhere, &[1], derived), Err(ProcessError::Unauthorized));
    assert_eq!(
        send_tokens_as(&build(good.clone(), token_program, mint_bytes(9, false), key(70)), &[1], derived),
        Err(ProcessError::UninitializedAccount)
    );
    assert_eq!(
        send_tokens_as(&build(good.clone(), token_program, vec![0; 81], key(70)), &[1], derived),
        Err(ProcessError::InvalidAccountData)
    );
    let mut bad_flag = mint_bytes(9, true);
    bad_flag[45] = 2;
    assert_eq!(
        send_tokens_as(&build(good.clone(), token_program, bad_flag, key(70)), &[1], derived),
        Err(ProcessError::InvalidAccountData)
    );
    let mut bad_tag = mint_bytes(9, true);
    bad_tag[47] = 1;
    assert_eq!(
        send_tokens_as(&build(good.clone(), token_program, bad_tag, key(70)), &[1], derived),
        Err(ProcessError::InvalidAccountData)
    );
    assert_eq!(
        send_tokens_as(&build(good.clone(), key(33), mint_bytes(9, true), key(70)), &[1], derived),
        Err(ProcessError::IncorrectProgramId)
    );
}

#[test]
fn token_batch_with_a_forged_authority_is_refused() {
    let token_program = spl_token::id().to_bytes();
    let (authority, bump) = authority_address(&program_id()).unwrap();
    let forged = token_accounts(record(10, key(9), key(4)), token_program, mint_bytes(9, true), key(70), &[key(2)]);
    assert_eq!(send_tokens(&program_id(), &forged, &[1]), Err(ProcessError::InvalidSeeds));
    let honest = token_accounts(record(10, key(9), key(4)), token_program, mint_bytes(9, true), authority, &[key(2)]);
    let plan = send_tokens(&program_id(), &honest, &[20_000]).unwrap();
    assert_eq!(plan.len(), 2);
    assert_eq!(
        plan[0],
        Action::TransferChecked {
            token_program,
            source: key(1),
            mint: key(60),
            destination: key(4),
            authority,
            amount: 20,
            decimals: 9,
            bump,
        }
    );
}

#[test]
fn settings_change_failures() {
    let (address, bump) = Managment::get_settings_pubkey_with_bump(&program_id()).unwrap();
    let derived = Some((address, bump));
    let claimed = record(10, key(9), key(4));
    let ok = update_accounts(key(9), true, address, claimed.clone());
    assert_eq!(
        update_settings_at(&program_id(), &ok, 20, derived),
        Ok(vec![Action::Store { account: address, record: Managment { fee: 20, admin: key(12), bank: key(4) } }])
    );
    assert_eq!(update_settings(&program_id(), &ok, 20), update_settings_at(&program_id(), &ok, 20, derived));
    assert_eq!(update_settings_at(&program_id(), &ok[..5], 20, derived), Err(ProcessError::NotEnoughAccountKeys));
    assert_eq!(update_settings_at(&program_id(), &ok, 20, None), Err(ProcessError::InvalidArgument));
    assert_eq!(
        update_settings(&program_id(), &update_accounts(key(9), true, key(50), claimed.clone()), 20),
        Err(ProcessError::InvalidArgument)
    );
    assert_eq!(
        update_settings(&program_id(), &update_accounts(key(9), false, address, claimed.clone()), 20),
        Err(ProcessError::MissingRequiredSignature)
    );
    assert_eq!(
        update_settings(&program_id(), &update_accounts(key(10), true, address, claimed.clone()), 20),
        Err(ProcessError::Unauthorized)
    );
    assert_eq!(
        update_settings(&program_id(), &update_accounts(key(9), true, address, vec![0; 10]), 20),
        Err(ProcessError::InvalidSettingsData)
    );
    // an unclaimed record accepts any signer
    assert!(update_settings(&program_id(), &update_accounts(key(10), true, address, vec![0; 72]), 20).is_ok());
    // an empty account is created first
    assert_eq!(
        update_settings(&program_id(), &update_accounts(key(10), true, address, Vec::new()), 20),
        Ok(vec![
            Action::CreateAccount { payer: key(10), address, space: 72, owner: program_id(), bump },
            Action::Store { account: address, record: Managment { fee: 20, admin: key(12), bank: key(4) } },
        ])
    );
}
