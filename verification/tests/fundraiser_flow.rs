use custody_engine::account::{Account, AccountData};
use custody_engine::fundraiser::{checker, contribute, initialize, refund};
use custody_engine::state::{
    decode_contributor, decode_fundraiser, encode_contributor, encode_fundraiser, Contributor,
    Fundraiser,
};
use custody_engine::token::TokenAccount;
use custody_engine::{ProtocolError, PROGRAM_ID, SYSTEM_PROGRAM_ID, TOKEN_PROGRAM_ID};

const AMOUNT_TO_RAISE: u64 = 1_000_000;
const DURATION: i64 = 30;

fn pda(seeds: &[&[u8]]) -> ([u8; 32], u8) {
    let pid = solana_pubkey::Pubkey::new_from_array(PROGRAM_ID);
    let (k, b) = solana_pubkey::Pubkey::find_program_address(seeds, &pid);
    (k.to_bytes(), b)
}

fn init_args(amount: u64, duration: i64, bump: u64) -> Vec<u8> {
    let mut v = Vec::new();
    v.extend_from_slice(&amount.to_le_bytes());
    v.extend_from_slice(&duration.to_le_bytes());
    v.extend_from_slice(&bump.to_le_bytes());
    v
}

fn two_u64_args(first: u64, second: u64) -> Vec<u8> {
    let mut v = Vec::new();
    v.extend_from_slice(&first.to_le_bytes());
    v.extend_from_slice(&second.to_le_bytes());
    v
}

fn signer(key: [u8; 32], lamports: u64) -> Account {
    Account {
        key,
        lamports,
        owner: SYSTEM_PROGRAM_ID,
        is_signer: true,
        is_writable: true,
        data: AccountData::Bytes(vec![]),
    }
}

fn plain(key: [u8; 32]) -> Account {
    Account {
        key,
        lamports: 0,
        owner: SYSTEM_PROGRAM_ID,
        is_signer: false,
        is_writable: true,
        data: AccountData::Bytes(vec![]),
    }
}

fn record_account(key: [u8; 32], bytes: Vec<u8>) -> Account {
    Account {
        key,
        lamports: 1_613_920,
        owner: PROGRAM_ID,
        is_signer: false,
        is_writable: true,
        data: AccountData::Bytes(bytes),
    }
}

fn token_account(key: [u8; 32], mint: [u8; 32], authority: [u8; 32], amount: u64) -> Account {
    Account {
        key,
        lamports: 2_039_280,
        owner: TOKEN_PROGRAM_ID,
        is_signer: false,
        is_writable: true,
        data: AccountData::Token(TokenAccount { mint, authority, amount }),
    }
}

fn fundraiser_record(
    maker: [u8; 32],
    mint_to_raise: [u8; 32],
    current_amount: u64,
    time_started: i64,
    bump: u64,
) -> Vec<u8> {
    encode_fundraiser(&Fundraiser {
        maker,
        mint_to_raise,
        amount_to_raise: AMOUNT_TO_RAISE,
        current_amount,
        time_started,
        duration: DURATION,
        bump,
    })
}

fn run_initialize() {
    let maker = [7u8; 32];
    let (fund_key, bump) = pda(&[b"fundraiser", &maker]);
    let mint_to_raise = [9u8; 32];
    let accounts = vec![
        signer(maker, 1_000_000_000),
        plain(mint_to_raise),
        plain(fund_key),
        plain(SYSTEM_PROGRAM_ID),
    ];
    let args = init_args(1_000_000, 30, bump as u64);
    let out = initialize(&accounts, &args, 0, 1_613_920).unwrap();
    let rec_bytes = match &out.fundraiser.data {
        AccountData::Bytes(b) => b.clone(),
        _ => panic!("record bytes expected"),
    };
    let rec = decode_fundraiser(&rec_bytes).unwrap();
    assert_eq!(rec.current_amount, 0);
    assert_eq!(rec.amount_to_raise, 1_000_000);
    assert_eq!(rec.duration, 30);
    assert_eq!(rec.maker, maker);
    assert_eq!(rec.mint_to_raise, mint_to_raise);
    assert_eq!(out.maker_lamports, 1_000_000_000 - 1_613_920);
    assert_eq!(out.fundraiser.owner, PROGRAM_ID);
}

#[test]
fn initialize_initialize() {
    run_initialize();
}

#[test]
fn mod_initialize() {
    run_initialize();
}

fn run_contribute() {
    let maker = [7u8; 32];
    let mint_to_raise = [9u8; 32];
    let (fund_key, fund_bump) = pda(&[b"fundraiser", &maker]);
    let contributor = [11u8; 32];
    let contributor_ata = [12u8; 32];
    let (contributor_rec_key, contributor_bump) = pda(&[b"contributor", &contributor]);
    let (vault_key, vault_bump) = pda(&[b"vault", &fund_key]);
    let accounts = vec![
        signer(contributor, 1_000_000_000),
        record_account(
            fund_key,
            fundraiser_record(maker, mint_to_raise, 0, 0, fund_bump as u64),
        ),
        token_account(contributor_ata, mint_to_raise, contributor, 1_000_000_000),
        record_account(
            contributor_rec_key,
            encode_contributor(&Contributor { amount: 0, contributor_bump: contributor_bump as u64 }),
        ),
        token_account(vault_key, mint_to_raise, fund_key, 0),
        plain(TOKEN_PROGRAM_ID),
    ];
    let args = two_u64_args(1_000, vault_bump as u64);
    let out = contribute(&accounts, &args).unwrap();
    assert_eq!(out.vault.amount, 1_000);
    assert_eq!(out.contributor_ta.amount, 1_000_000_000 - 1_000);
    let rec = decode_fundraiser(&out.fundraiser_data).unwrap();
    assert_eq!(rec.current_amount, 1_000);
    let crec = decode_contributor(&out.contributor_data).unwrap();
    assert_eq!(crec.amount, 1_000);
}

#[test]
fn contribute_contribute() {
    run_contribute();
}

#[test]
fn mod_contribute() {
    run_contribute();
}

fn run_checker() {
    let maker = [7u8; 32];
    let mint_to_raise = [9u8; 32];
    let (fund_key, fund_bump) = pda(&[b"fundraiser", &maker]);
    let (vault_key, vault_bump) = pda(&[b"vault", &fund_key]);
    let maker_ata = [13u8; 32];
    let accounts = vec![
        signer(maker, 1_000_000_000),
        record_account(
            fund_key,
            fundraiser_record(maker, mint_to_raise, 1_000_000, 0, fund_bump as u64),
        ),
        token_account(vault_key, mint_to_raise, fund_key, 1_000_000),
        token_account(maker_ata, mint_to_raise, maker, 1_000_000_000),
        plain(TOKEN_PROGRAM_ID),
    ];
    let args = two_u64_args(fund_bump as u64, vault_bump as u64);
    let out = checker(&accounts, &args).unwrap();
    assert_eq!(out.vault.amount, 0);
    assert_eq!(out.maker_ata.amount, 1_000_000_000 + 1_000_000);
    assert_eq!(out.amount, 1_000_000);
}

#[test]
fn checker_checker() {
    run_checker();
}

#[test]
fn mod_checker() {
    run_checker();
}

fn run_refund() {
    let maker = [7u8; 32];
    let mint_to_raise = [9u8; 32];
    let contributor = [11u8; 32];
    let (fund_key, fund_bump) = pda(&[b"fundraiser", &maker]);
    let (vault_key, vault_bump) = pda(&[b"vault", &fund_key]);
    let (contributor_rec_key, contributor_bump) =
        pda(&[b"contributor", &fund_key, &contributor]);
    let contributor_ata = [12u8; 32];
    let accounts = vec![
        signer(contributor, 1_000_000_000),
        record_account(
            fund_key,
            fundraiser_record(maker, mint_to_raise, 100_000, 0, fund_bump as u64),
        ),
        token_account(contributor_ata, mint_to_raise, contributor, 123),
        record_account(
            contributor_rec_key,
            encode_contributor(&Contributor {
                amount: 100_000,
                contributor_bump: contributor_bump as u64,
            }),
        ),
        token_account(vault_key, mint_to_raise, fund_key, 100_000),
        plain(TOKEN_PROGRAM_ID),
    ];
    let args = two_u64_args(fund_bump as u64, vault_bump as u64);
    let out = refund(&accounts, &args, 31).unwrap();
    assert_eq!(out.vault.amount, 0);
    assert_eq!(out.contributor_ta.amount, 123 + 100_000);
    assert_eq!(out.amount, 100_000);
}

#[test]
fn refund_refund() {
    run_refund();
}

#[test]
fn mod_refund() {
    run_refund();
}
