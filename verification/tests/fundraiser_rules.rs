use custody_engine::account::{Account, AccountData};
use custody_engine::fundraiser::{
    contribute, initialize, process_instruction, refund, FundraiserEffects,
    MAX_CONTRIBUTION_PERCENTAGE, MIN_AMOUNT_TO_RAISE, PERCENTAGE_SCALER,
};
use custody_engine::state::{
    decode_contributor, decode_fundraiser, encode_contributor, encode_fundraiser, Contributor,
    Fundraiser,
};
use custody_engine::token::TokenAccount;
use custody_engine::{ProtocolError, PROGRAM_ID, SYSTEM_PROGRAM_ID, TOKEN_PROGRAM_ID};

fn pda(seeds: &[&[u8]]) -> ([u8; 32], u8) {
    let pid = solana_pubkey::Pubkey::new_from_array(PROGRAM_ID);
    let (k, b) = solana_pubkey::Pubkey::find_program_address(seeds, &pid);
    (k.to_bytes(), b)
}

fn two_u64_args(first: u64, second: u64) -> Vec<u8> {
    let mut v = Vec::new();
    v.extend_from_slice(&first.to_le_bytes());
    v.extend_from_slice(&second.to_le_bytes());
    v
}

fn signer(key: [u8; 32], lamports: u64) -> Account {
    Account {
        key,
        lamports,
        owner: SYSTEM_PROGRAM_ID,
        is_signer: true,
        is_writable: true,
        data: AccountData::Bytes(vec![]),
    }
}

fn plain(key: [u8; 32]) -> Account {
    Account {
        key,
        lamports: 0,
        owner: SYSTEM_PROGRAM_ID,
        is_signer: false,
        is_writable: true,
        data: AccountData::Bytes(vec![]),
    }
}

fn record_account(key: [u8; 32], bytes: Vec<u8>) -> Account {
    Account {
        key,
        lamports: 1_613_920,
        owner: PROGRAM_ID,
        is_signer: false,
        is_writable: true,
        data: AccountData::Bytes(bytes),
    }
}

fn token_account(key: [u8; 32], mint: [u8; 32], authority: [u8; 32], amount: u64) -> Account {
    Account {
        key,
        lamports: 2_039_280,
        owner: TOKEN_PROGRAM_ID,
        is_signer: false,
        is_writable: true,
        data: AccountData::Token(TokenAccount { mint, authority, amount }),
    }
}

fn fundraiser_record(maker: [u8; 32], mint: [u8; 32], target: u64, current: u64, bump: u64) -> Vec<u8> {
    encode_fundraiser(&Fundraiser {
        maker,
        mint_to_raise: mint,
        amount_to_raise: target,
        current_amount: current,
        time_started: 0,
        duration: 30,
        bump,
    })
}

fn contribute_accounts(
    contributor: [u8; 32],
    contributor_signs: bool,
    fundraiser_bytes: Vec<u8>,
    contributor_amount: u64,
    ta_amount: u64,
    ta_mint: [u8; 32],
    vault_amount: u64,
) -> (Vec<Account>, u8) {
    let maker = [7u8; 32];
    let mint = [9u8; 32];
    let (fund_key, _) = pda(&[b"fundraiser", &maker]);
    let (vault_key, vault_bump) = pda(&[b"vault", &fund_key]);
    let (rec_key, rec_bump) = pda(&[b"contributor", &contributor]);
    let mut contributor_account = signer(contributor, 1_000_000_000);
    contributor_account.is_signer = contributor_signs;
    let accounts = vec![
        contributor_account,
        record_account(fund_key, fundraiser_bytes),
        token_account([12u8; 32], ta_mint, contributor, ta_amount),
        record_account(
            rec_key,
            encode_contributor(&Contributor {
                amount: contributor_amount,
                contributor_bump: rec_bump as u64,
            }),
        ),
        token_account(vault_key, mint, fund_key, vault_amount),
        plain(TOKEN_PROGRAM_ID),
    ];
    (accounts, vault_bump)
}

/// Three contributions of 1_000 from three contributors: the record's
/// current amount and the vault's balance both reach 3_000, and each
/// contributor record reflects only its own share.
#[test]
fn three_contributions_accumulate() {
    let maker = [7u8; 32];
    let mint = [9u8; 32];
    let (fund_key, fund_bump) = pda(&[b"fundraiser", &maker]);
    let (vault_key, vault_bump) = pda(&[b"vault", &fund_key]);

    let init_accounts = vec![
        signer(maker, 1_000_000_000),
        plain(mint),
        plain(fund_key),
        plain(SYSTEM_PROGRAM_ID),
    ];
    let mut init_args = Vec::new();
    init_args.extend_from_slice(&1_000_000u64.to_le_bytes());
    init_args.extend_from_slice(&30i64.to_le_bytes());
    init_args.extend_from_slice(&(fund_bump as u64).to_le_bytes());
    let init_out = initialize(&init_accounts, &init_args, 0, 1_613_920).unwrap();

    let mut fundraiser_bytes = match init_out.fundraiser.data {
        AccountData::Bytes(b) => b,
        _ => panic!("record bytes expected"),
    };
    let mut vault_amount: u64 = 0;
    for i in 0..3u8 {
        let contributor = [20 + i; 32];
        let (rec_key, rec_bump) = pda(&[b"contributor", &contributor]);
        let accounts = vec![
            signer(contributor, 1_000_000_000),
            record_account(fund_key, fundraiser_bytes.clone()),
            token_account([12u8; 32], mint, contributor, 1_000_000_000),
            record_account(
                rec_key,
                encode_contributor(&Contributor { amount: 0, contributor_bump: rec_bump as u64 }),
            ),
            token_account(vault_key, mint, fund_key, vault_amount),
            plain(TOKEN_PROGRAM_ID),
        ];
        let out = contribute(&accounts, &two_u64_args(1_000, vault_bump as u64)).unwrap();
        fundraiser_bytes = out.fundraiser_data;
        vault_amount = out.vault.amount;
        let own = decode_contributor(&out.contributor_data).unwrap();
        assert_eq!(own.amount, 1_000);
    }
    let rec = decode_fundraiser(&fundraiser_bytes).unwrap();
    assert_eq!(rec.current_amount, 3_000);
    assert_eq!(vault_amount, 3_000);
}

/// A contribution that would push a contributor past the per-contributor
/// ceiling fails; the handler returns the error and hands back nothing, so
/// records and vault stay as they were.
#[test]
fn cap_violation_rejected() {
    let maker = [7u8; 32];
    let mint = [9u8; 32];
    let (_, fund_bump) = pda(&[b"fundraiser", &maker]);
    let cap = 1_000_000 * MAX_CONTRIBUTION_PERCENTAGE / PERCENTAGE_SCALER;
    let (accounts, vault_bump) = contribute_accounts(
        [11u8; 32],
        true,
        fundraiser_record(maker, mint, 1_000_000, 0, fund_bump as u64),
        cap - 500,
        1_000_000_000,
        mint,
        0,
    );
    let r = contribute(&accounts, &two_u64_args(1_000, vault_bump as u64));
    let e = match r {
        Ok(_) => panic!("a contribution past the cap must fail"),
        Err(e) => e,
    };
    assert_eq!(e, ProtocolError::InvariantViolation);
}

#[test]
fn below_minimum_rejected() {
    let maker = [7u8; 32];
    let mint = [9u8; 32];
    let (_, fund_bump) = pda(&[b"fundraiser", &maker]);
    let (accounts, vault_bump) = contribute_accounts(
        [11u8; 32],
        true,
        fundraiser_record(maker, mint, 1_000_000, 0, fund_bump as u64),
        0,
        1_000_000_000,
        mint,
        0,
    );
    let r = contribute(&accounts, &two_u64_args(MIN_AMOUNT_TO_RAISE - 1, vault_bump as u64));
    let e = match r {
        Ok(_) => panic!("a contribution below the minimum must fail"),
        Err(e) => e,
    };
    assert_eq!(e, ProtocolError::InvariantViolation);
}

#[test]
fn over_goal_ceiling_rejected() {
    let maker = [7u8; 32];
    let mint = [9u8; 32];
    let (_, fund_bump) = pda(&[b"fundraiser", &maker]);
    let (accounts, vault_bump) = contribute_accounts(
        [11u8; 32],
        true,
        fundraiser_record(maker, mint, 1_000_000, 999_900, fund_bump as u64),
        0,
        1_000_000_000,
        mint,
        999_900,
    );
    let r = contribute(&accounts, &two_u64_args(200, vault_bump as u64));
    let e = match r {
        Ok(_) => panic!("a contribution past the goal must fail"),
        Err(e) => e,
    };
    assert_eq!(e, ProtocolError::InvariantViolation);
}

#[test]
fn cap_computation_overflow_rejected() {
    let maker = [7u8; 32];
    let mint = [9u8; 32];
    let (_, fund_bump) = pda(&[b"fundraiser", &maker]);
    let (accounts, vault_bump) = contribute_accounts(
        [11u8; 32],
        true,
        fundraiser_record(maker, mint, u64::MAX, 0, fund_bump as u64),
        0,
        1_000_000_000,
        mint,
        0,
    );
    let r = contribute(&accounts, &two_u64_args(1_000, vault_bump as u64));
    let e = match r {
        Ok(_) => panic!("an overflowing ceiling computation must fail"),
        Err(e) => e,
    };
    assert_eq!(e, ProtocolError::ArithmeticOverflow);
}

#[test]
fn contributor_without_funds_rejected() {
    let maker = [7u8; 32];
    let mint = [9u8; 32];
    let (_, fund_bump) = pda(&[b"fundraiser", &maker]);
    let (accounts, vault_bump) = contribute_accounts(
        [11u8; 32],
        true,
        fundraiser_record(maker, mint, 1_000_000, 0, fund_bump as u64),
        0,
        10,
        mint,
        0,
    );
    let r = contribute(&accounts, &two_u64_args(50_000, vault_bump as u64));
    let e = match r {
        Ok(_) => panic!("a deposit beyond the balance must fail"),
        Err(e) => e,
    };
    assert_eq!(e, ProtocolError::ResourceUnavailable);
}

#[test]
fn mismatched_asset_rejected() {
    let maker = [7u8; 32];
    let mint = [9u8; 32];
    let other_mint = [10u8; 32];
    let (_, fund_bump) = pda(&[b"fundraiser", &maker]);
    let (accounts, vault_bump) = contribute_accounts(
        [11u8; 32],
        true,
        fundraiser_record(maker, mint, 1_000_000, 0, fund_bump as u64),
        0,
        1_000_000_000,
        other_mint,
        0,
    );
    let r = contribute(&accounts, &two_u64_args(1_000, vault_bump as u64));
    let e = match r {
        Ok(_) => panic!("a deposit of the wrong asset must fail"),
        Err(e) => e,
    };
    assert_eq!(e, ProtocolError::ExternalCallFailure);
}

#[test]
fn unsigned_contribution_rejected() {
    let maker = [7u8; 32];
    let mint = [9u8; 32];
    let (_, fund_bump) = pda(&[b"fundraiser", &maker]);
    let (accounts, vault_bump) = contribute_accounts(
        [11u8; 32],
        false,
        fundraiser_record(maker, mint, 1_000_000, 0, fund_bump as u64),
        0,
        1_000_000_000,
        mint,
        0,
    );
    let r = contribute(&accounts, &two_u64_args(1_000, vault_bump as u64));
    let e = match r {
        Ok(_) => panic!("an unsigned contribution must fail"),
        Err(e) => e,
    };
    assert_eq!(e, ProtocolError::AuthorizationFailure);
}

#[test]
fn wrong_vault_address_rejected() {
    let maker = [7u8; 32];
    let mint = [9u8; 32];
    let (_, fund_bump) = pda(&[b"fundraiser", &maker]);
    let (accounts, vault_bump) = contribute_accounts(
        [11u8; 32],
        true,
        fundraiser_record(maker, mint, 1_000_000, 0, fund_bump as u64),
        0,
        1_000_000_000,
        mint,
        0,
    );
    // A bump that does not reproduce the vault's address is rejected.
    let r = contribute(&accounts, &two_u64_args(1_000, (vault_bump as u64) ^ 1));
    let e = match r {
        Ok(_) => panic!("a wrong vault derivation must fail"),
        Err(e) => e,
    };
    assert_eq!(e, ProtocolError::AuthorizationFailure);
}

/// Refund before the duration elapses fails with an invariant violation;
/// after it elapses with the goal unreached, it succeeds and returns the
/// contributor's full recorded amount.
#[test]
fn refund_timing() {
    let maker = [7u8; 32];
    let mint = [9u8; 32];
    let contributor = [11u8; 32];
    let (fund_key, fund_bump) = pda(&[b"fundraiser", &maker]);
    let (vault_key, vault_bump) = pda(&[b"vault", &fund_key]);
    let (rec_key, rec_bump) = pda(&[b"contributor", &fund_key, &contributor]);
    let build = || {
        vec![
            signer(contributor, 1_000_000_000),
            record_account(
                fund_key,
                fundraiser_record(maker, mint, 1_000_000, 100_000, fund_bump as u64),
            ),
            token_account([12u8; 32], mint, contributor, 123),
            record_account(
                rec_key,
                encode_contributor(&Contributor {
                    amount: 100_000,
                    contributor_bump: rec_bump as u64,
                }),
            ),
            token_account(vault_key, mint, fund_key, 100_000),
            plain(TOKEN_PROGRAM_ID),
        ]
    };
    let args = two_u64_args(fund_bump as u64, vault_bump as u64);

    let early = refund(&build(), &args, 10);
    let e = match early {
        Ok(_) => panic!("a refund before the duration elapses must fail"),
        Err(e) => e,
    };
    assert_eq!(e, ProtocolError::InvariantViolation);

    let late = refund(&build(), &args, 31).unwrap();
    assert_eq!(late.amount, 100_000);
    assert_eq!(late.vault.amount, 0);
    assert_eq!(late.contributor_ta.amount, 123 + 100_000);
}

/// Refund when the goal has been reached fails even after the deadline.
#[test]
fn refund_after_goal_reached_rejected() {
    let maker = [7u8; 32];
    let mint = [9u8; 32];
    let contributor = [11u8; 32];
    let (fund_key, fund_bump) = pda(&[b"fundraiser", &maker]);
    let (vault_key, vault_bump) = pda(&[b"vault", &fund_key]);
    let (rec_key, rec_bump) = pda(&[b"contributor", &fund_key, &contributor]);
    let accounts = vec![
        signer(contributor, 1_000_000_000),
        record_account(
            fund_key,
            fundraiser_record(maker, mint, 1_000_000, 1_000_000, fund_bump as u64),
        ),
        token_account([12u8; 32], mint, contributor, 123),
        record_account(
            rec_key,
            encode_contributor(&Contributor { amount: 100_000, contributor_bump: rec_bump as u64 }),
        ),
        token_account(vault_key, mint, fund_key, 1_000_000),
        plain(TOKEN_PROGRAM_ID),
    ];
    let r = refund(&accounts, &two_u64_args(fund_bump as u64, vault_bump as u64), 31);
    let e = match r {
        Ok(_) => panic!("a refund after the goal is reached must fail"),
        Err(e) => e,
    };
    assert_eq!(e, ProtocolError::InvariantViolation);
}

/// Checker with the goal unreached fails; together with the refund checks
/// this keeps release and refund mutually exclusive on one record state.
#[test]
fn checker_below_goal_rejected() {
    let maker = [7u8; 32];
    let mint = [9u8; 32];
    let (fund_key, fund_bump) = pda(&[b"fundraiser", &maker]);
    let (vault_key, vault_bump) = pda(&[b"vault", &fund_key]);
    let accounts = vec![
        signer(maker, 1_000_000_000),
        record_account(
            fund_key,
            fundraiser_record(maker, mint, 1_000_000, 999_999, fund_bump as u64),
        ),
        token_account(vault_key, mint, fund_key, 999_999),
        token_account([13u8; 32], mint, maker, 0),
        plain(TOKEN_PROGRAM_ID),
    ];
    let r = custody_engine::fundraiser::checker(
        &accounts,
        &two_u64_args(fund_bump as u64, vault_bump as u64),
    );
    let e = match r {
        Ok(_) => panic!("a release below the goal must fail"),
        Err(e) => e,
    };
    assert_eq!(e, ProtocolError::InvariantViolation);
}

#[test]
fn unknown_discriminator_rejected() {
    let accounts: Vec<Account> = Vec::new();
    let data = vec![9u8];
    let r = process_instruction(&PROGRAM_ID, &accounts, &data, 0, 0);
    let e = match r {
        Ok(_) => panic!("an unknown discriminator must fail"),
        Err(e) => e,
    };
    assert_eq!(e, ProtocolError::UnknownInstruction);
}

#[test]
fn wrong_program_id_rejected() {
    let accounts: Vec<Account> = Vec::new();
    let data = vec![0u8];
    let r = process_instruction(&[42u8; 32], &accounts, &data, 0, 0);
    let e = match r {
        Ok(_) => panic!("a wrong program identifier must fail"),
        Err(e) => e,
    };
    assert_eq!(e, ProtocolError::AuthorizationFailure);
}

#[test]
fn dispatcher_routes_contribute() {
    let maker = [7u8; 32];
    let mint = [9u8; 32];
    let (_, fund_bump) = pda(&[b"fundraiser", &maker]);
    let (accounts, vault_bump) = contribute_accounts(
        [11u8; 32],
        true,
        fundraiser_record(maker, mint, 1_000_000, 0, fund_bump as u64),
        0,
        1_000_000_000,
        mint,
        0,
    );
    let mut data = vec![1u8];
    data.extend_from_slice(&1_000u64.to_le_bytes());
    data.extend_from_slice(&(vault_bump as u64).to_le_bytes());
    let r = process_instruction(&PROGRAM_ID, &accounts, &data, 0, 0).unwrap();
    match r {
        FundraiserEffects::Contributed(out) => assert_eq!(out.vault.amount, 1_000),
        _ => panic!("the contribute operation was selected"),
    }
}

#[test]
fn initialize_without_funds_rejected() {
    let maker = [7u8; 32];
    let (fund_key, bump) = pda(&[b"fundraiser", &maker]);
    let accounts = vec![
        signer(maker, 100),
        plain([9u8; 32]),
        plain(fund_key),
        plain(SYSTEM_PROGRAM_ID),
    ];
    let mut args = Vec::new();
    args.extend_from_slice(&1_000_000u64.to_le_bytes());
    args.extend_from_slice(&30i64.to_le_bytes());
    args.extend_from_slice(&(bump as u64).to_le_bytes());
    let r = initialize(&accounts, &args, 0, 1_613_920);
    let e = match r {
        Ok(_) => panic!("an underfunded creation must fail"),
        Err(e) => e,
    };
    assert_eq!(e, ProtocolError::ResourceUnavailable);
}

#[test]
fn initialize_on_used_address_rejected() {
    let maker = [7u8; 32];
    let (fund_key, bump) = pda(&[b"fundraiser", &maker]);
    let accounts = vec![
        signer(maker, 1_000_000_000),
        plain([9u8; 32]),
        record_account(fund_key, vec![1u8; 104]),
        plain(SYSTEM_PROGRAM_ID),
    ];
    let mut args = Vec::new();
    args.extend_from_slice(&1_000_000u64.to_le_bytes());
    args.extend_from_slice(&30i64.to_le_bytes());
    args.extend_from_slice(&(bump as u64).to_le_bytes());
    let r = initialize(&accounts, &args, 0, 1_613_920);
    let e = match r {
        Ok(_) => panic!("creation on a used address must fail"),
        Err(e) => e,
    };
    assert_eq!(e, ProtocolError::InvariantViolation);
}

#[test]
fn short_argument_buffer_rejected() {
    let maker = [7u8; 32];
    let (fund_key, _) = pda(&[b"fundraiser", &maker]);
    let accounts = vec![
        signer(maker, 1_000_000_000),
        plain([9u8; 32]),
        plain(fund_key),
        plain(SYSTEM_PROGRAM_ID),
    ];
    let r = initialize(&accounts, &vec![0u8; 23], 0, 1_613_920);
    let e = match r {
        Ok(_) => panic!("a wrongly sized argument record must fail"),
        Err(e) => e,
    };
    assert_eq!(e, ProtocolError::MalformedInput);
}
