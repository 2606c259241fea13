use vstd::prelude::*;
use vstd::bytes::spec_u64_from_le_bytes;
use crate::account::{create_record_account, spec_untouched, Account, AccountData};
use crate::codec::{read_i64_le, read_u64_le, spec_i64_from_le_bytes, spec_tail, tail_vec};
use crate::error::ProtocolError;
use crate::keys::{Pubkey, PROGRAM_ID};
use crate::pda::{
    bump_byte, derived_address, fundraiser_seeds, spec_fundraiser_seeds, spec_vault_seeds,
    validate_pda, vault_seeds,
};
use crate::state::{
    decode_contributor, decode_fundraiser, encode_contributor, encode_fundraiser,
    lemma_contributor_fields, lemma_fundraiser_fields, spec_contributor_amount,
    spec_contributor_bump, spec_encode_fundraiser, spec_fundraiser_amount_to_raise,
    spec_fundraiser_bump, spec_fundraiser_current, spec_fundraiser_duration, spec_fundraiser_maker,
    spec_fundraiser_mint, spec_fundraiser_time_started, Contributor, Fundraiser, CONTRIBUTOR_LEN,
    FUNDRAISER_LEN,
};
use crate::token::{custody_transfer, TokenAccount, TransferAuthority};

verus! {

/// Smallest contribution accepted.
pub const MIN_AMOUNT_TO_RAISE: u64 = 3;

/// Per-contributor ceiling, as a share of the goal: no single contributor
/// may hold more than this percentage of `amount_to_raise`.
pub const MAX_CONTRIBUTION_PERCENTAGE: u64 = 10;

/// The percentage scale: parts per hundred.
pub const PERCENTAGE_SCALER: u64 = 100;

/// The four operations of the fundraiser state machine, selected by the
/// leading discriminator byte of an instruction.
pub enum FundraiserInstructions {
    Initialize,
    Contribute,
    Checker,
    Refund,
}

impl FundraiserInstructions {
    /// Decodes the discriminator byte; any byte beyond the last operation
    /// selects nothing.
    pub fn try_from(value: &u8) -> (r: Result<FundraiserInstructions, ProtocolError>)
        ensures
            *value == 0 ==> (r matches Ok(i) && i is Initialize),
            *value == 1 ==> (r matches Ok(i) && i is Contribute),
            *value == 2 ==> (r matches Ok(i) && i is Checker),
            *value == 3 ==> (r matches Ok(i) && i is Refund),
            *value > 3 ==> r == Err::<FundraiserInstructions, ProtocolError>(
                ProtocolError::UnknownInstruction,
            ),
    {
        match *value {
            0 => Ok(FundraiserInstructions::Initialize),
            1 => Ok(FundraiserInstructions::Contribute),
            2 => Ok(FundraiserInstructions::Checker),
            3 => Ok(FundraiserInstructions::Refund),
            _ => Err(ProtocolError::UnknownInstruction),
        }
    }
}

/// The argument record of Initialize: 24 bytes, three 64-bit fields.
#[derive(Clone, Copy)]
pub struct InitializeArgs {
    /// The target amount to raise.
    pub amount: u64,
    /// The timeframe to collect contributions.
    pub duration: i64,
    /// The derivation nonce of the fundraiser record's address.
    pub fundraiser_bump: u64,
}

pub open spec fn spec_init_amount(s: Seq<u8>) -> u64 {
    spec_u64_from_le_bytes(s.subrange(0, 8))
}

pub open spec fn spec_init_duration(s: Seq<u8>) -> i64 {
    spec_i64_from_le_bytes(s.subrange(8, 16))
}

pub open spec fn spec_init_bump(s: Seq<u8>) -> u64 {
    spec_u64_from_le_bytes(s.subrange(16, 24))
}

impl InitializeArgs {
    /// Interprets a 24-byte argument buffer; any other size is rejected.
    pub fn try_from(data: &Vec<u8>) -> (r: Result<InitializeArgs, ProtocolError>)
        ensures
            r is Ok <==> data@.len() == 24,
            r matches Ok(a) ==> (a.amount == spec_init_amount(data@) && a.duration
                == spec_init_duration(data@) && a.fundraiser_bump == spec_init_bump(data@)),
            r is Err ==> r == Err::<InitializeArgs, ProtocolError>(ProtocolError::MalformedInput),
    {
        if data.len() != 24 {
            return Err(ProtocolError::MalformedInput);
        }
        Ok(InitializeArgs {
            amount: read_u64_le(data, 0),
            duration: read_i64_le(data, 8),
            fundraiser_bump: read_u64_le(data, 16),
        })
    }
}

/// The argument record of Contribute: 16 bytes, two 64-bit fields.
#[derive(Clone, Copy)]
pub struct ContributeArgs {
    /// The amount to contribute.
    pub amount: u64,
    /// The derivation nonce of the vault's address.
    pub vault_bump: u64,
}

pub open spec fn spec_contribute_amount(s: Seq<u8>) -> u64 {
    spec_u64_from_le_bytes(s.subrange(0, 8))
}

pub open spec fn spec_contribute_vault_bump(s: Seq<u8>) -> u64 {
    spec_u64_from_le_bytes(s.subrange(8, 16))
}

impl ContributeArgs {
    /// Interprets a 16-byte argument buffer; any other size is rejected.
    pub fn try_from(data: &Vec<u8>) -> (r: Result<ContributeArgs, ProtocolError>)
        ensures
            r is Ok <==> data@.len() == 16,
            r matches Ok(a) ==> (a.amount == spec_contribute_amount(data@) && a.vault_bump
                == spec_contribute_vault_bump(data@)),
            r is Err ==> r == Err::<ContributeArgs, ProtocolError>(ProtocolError::MalformedInput),
    {
        if data.len() != 16 {
            return Err(ProtocolError::MalformedInput);
        }
        Ok(ContributeArgs { amount: read_u64_le(data, 0), vault_bump: read_u64_le(data, 8) })
    }
}

/// The argument record of Checker: 16 bytes, two 64-bit fields.
#[derive(Clone, Copy)]
pub struct CheckerArgs {
    /// The derivation nonce of the fundraiser record's address.
    pub fundraiser_bump: u64,
    /// The derivation nonce of the vault's address.
    pub vault_bump: u64,
}

pub open spec fn spec_two_bump_first(s: Seq<u8>) -> u64 {
    spec_u64_from_le_bytes(s.subrange(0, 8))
}

pub open spec fn spec_two_bump_second(s: Seq<u8>) -> u64 {
    spec_u64_from_le_bytes(s.subrange(8, 16))
}

impl CheckerArgs {
    /// Interprets a 16-byte argument buffer; any other size is rejected.
    pub fn try_from(data: &Vec<u8>) -> (r: Result<CheckerArgs, ProtocolError>)
        ensures
            r is Ok <==> data@.len() == 16,
            r matches Ok(a) ==> (a.fundraiser_bump == spec_two_bump_first(data@) && a.vault_bump
                == spec_two_bump_second(data@)),
            r is Err ==> r == Err::<CheckerArgs, ProtocolError>(ProtocolError::MalformedInput),
    {
        if data.len() != 16 {
            return Err(ProtocolError::MalformedInput);
        }
        Ok(CheckerArgs { fundraiser_bump: read_u64_le(data, 0), vault_bump: read_u64_le(data, 8) })
    }
}

/// The argument record of Refund: 16 bytes, two 64-bit fields.
#[derive(Clone, Copy)]
pub struct RefundArgs {
    /// The derivation nonce of the fundraiser record's address.
    pub fundraiser_bump: u64,
    /// The derivation nonce of the vault's address.
    pub vault_bump: u64,
}

impl RefundArgs {
    /// Interprets a 16-byte argument buffer; any other size is rejected.
    pub fn try_from(data: &Vec<u8>) -> (r: Result<RefundArgs, ProtocolError>)
        ensures
            r is Ok <==> data@.len() == 16,
            r matches Ok(a) ==> (a.fundraiser_bump == spec_two_bump_first(data@) && a.vault_bump
                == spec_two_bump_second(data@)),
            r is Err ==> r == Err::<RefundArgs, ProtocolError>(ProtocolError::MalformedInput),
    {
        if data.len() != 16 {
            return Err(ProtocolError::MalformedInput);
        }
        Ok(RefundArgs { fundraiser_bump: read_u64_le(data, 0), vault_bump: read_u64_le(data, 8) })
    }
}

/// What Initialize leaves behind on success: the payer's reduced balance
/// and the newly created fundraiser record account.
pub struct InitializeEffects {
    pub maker_lamports: u64,
    pub fundraiser: Account,
}

/// When Initialize succeeds: four accounts, a signing maker, well-sized
/// arguments, a fundraiser address that matches its derivation from the
/// maker's seed material, an untouched target account, and a payer that can
/// cover the fee-exempt minimum.
pub open spec fn spec_initialize_ok(accounts: Seq<Account>, args: Seq<u8>, rent_minimum: u64) -> bool {
    &&& accounts.len() == 4
    &&& accounts[0].is_signer
    &&& args.len() == 24
    &&& derived_address(
        spec_fundraiser_seeds(accounts[0].key@, (spec_init_bump(args) % 256) as u8),
        PROGRAM_ID@,
    ) == Some(accounts[2].key@)
    &&& spec_untouched(accounts[2])
    &&& rent_minimum <= accounts[0].lamports
}

/// The single failure reason of a rejected Initialize: the first check that
/// fails, in the order the handler performs them.
pub open spec fn spec_initialize_err(accounts: Seq<Account>, args: Seq<u8>, rent_minimum: u64) -> ProtocolError {
    if accounts.len() != 4 {
        ProtocolError::MalformedInput
    } else if !accounts[0].is_signer {
        ProtocolError::AuthorizationFailure
    } else if args.len() != 24 {
        ProtocolError::MalformedInput
    } else if derived_address(
        spec_fundraiser_seeds(accounts[0].key@, (spec_init_bump(args) % 256) as u8),
        PROGRAM_ID@,
    ) != Some(accounts[2].key@) {
        ProtocolError::AuthorizationFailure
    } else if !spec_untouched(accounts[2]) {
        ProtocolError::InvariantViolation
    } else {
        ProtocolError::ResourceUnavailable
    }
}

/// The record Initialize writes: nothing contributed yet, started now.
pub open spec fn spec_initial_record(accounts: Seq<Account>, args: Seq<u8>, now: i64) -> Fundraiser {
    Fundraiser {
        maker: accounts[0].key,
        mint_to_raise: accounts[1].key,
        amount_to_raise: spec_init_amount(args),
        current_amount: 0,
        time_started: now,
        duration: spec_init_duration(args),
        bump: spec_init_bump(args),
    }
}

/// What a successful Initialize returns: the maker paid the fee-exempt
/// minimum, and the new account at the fundraiser address is owned by this
/// program and holds the encoding of the initial record.
pub open spec fn spec_initialize_post(
    accounts: Seq<Account>,
    args: Seq<u8>,
    now: i64,
    rent_minimum: u64,
    out: InitializeEffects,
) -> bool {
    &&& out.maker_lamports == accounts[0].lamports - rent_minimum
    &&& out.fundraiser.key == accounts[2].key
    &&& out.fundraiser.lamports == rent_minimum
    &&& out.fundraiser.owner@ == PROGRAM_ID@
    &&& (out.fundraiser.data matches AccountData::Bytes(b) && b@ == spec_encode_fundraiser(
        spec_initial_record(accounts, args, now),
    ))
}

/// Starts a fundraiser. Expects the accounts `[maker, mint_to_raise,
/// fundraiser, system_program]`; `now` is the clock oracle's current
/// timestamp and `rent_minimum` the fee-exemption calculator's minimum
/// balance for the record's size, both supplied by the host.
///
/// Succeeds exactly on the inputs of `spec_initialize_ok`; then the new
/// account at the fundraiser address is owned by this program, funded with
/// `rent_minimum` taken from the maker, and holds the encoding of the
/// initial record. Any failure reports `spec_initialize_err` and has no
/// effect.
pub fn initialize(accounts: &Vec<Account>, args: &Vec<u8>, now: i64, rent_minimum: u64) -> (r:
    Result<InitializeEffects, ProtocolError>)
    ensures
        r is Ok <==> spec_initialize_ok(accounts@, args@, rent_minimum),
        r matches Err(e) ==> e == spec_initialize_err(accounts@, args@, rent_minimum),
        r matches Ok(out) ==> spec_initialize_post(accounts@, args@, now, rent_minimum, out),
{
    if accounts.len() != 4 {
        return Err(ProtocolError::MalformedInput);
    }
    let maker = &accounts[0];
    let mint_to_raise = &accounts[1];
    let fundraiser = &accounts[2];
    if !maker.is_signer {
        return Err(ProtocolError::AuthorizationFailure);
    }
    let a = match InitializeArgs::try_from(args) {
        Ok(a) => a,
        Err(e) => {
            return Err(e);
        },
    };
    let bump = bump_byte(a.fundraiser_bump);
    let seeds = fundraiser_seeds(&maker.key, bump);
    match validate_pda(&seeds, &PROGRAM_ID, &fundraiser.key) {
        Ok(()) => (),
        Err(e) => {
            return Err(e);
        },
    }
    let record = encode_fundraiser(
        &Fundraiser {
            maker: maker.key,
            mint_to_raise: mint_to_raise.key,
            amount_to_raise: a.amount,
            current_amount: 0,
            time_started: now,
            duration: a.duration,
            bump: a.fundraiser_bump,
        },
    );
    match create_record_account(maker.lamports, fundraiser, &PROGRAM_ID, rent_minimum, record) {
        Ok((pl, acct)) => Ok(InitializeEffects { maker_lamports: pl, fundraiser: acct }),
        Err(e) => Err(e),
    }
}

/// The per-contributor ceiling of a fundraiser with the given goal.
pub open spec fn spec_cap(amount_to_raise: u64) -> int {
    (amount_to_raise * MAX_CONTRIBUTION_PERCENTAGE) / (PERCENTAGE_SCALER as int)
}

/// What Contribute leaves behind on success: both records rewritten whole,
/// and the two custody balances after the deposit moved.
pub struct ContributeEffects {
    /// The fundraiser record's new buffer.
    pub fundraiser_data: Vec<u8>,
    /// The contributor record's new buffer.
    pub contributor_data: Vec<u8>,
    /// The contributor's token account after the deposit left it.
    pub contributor_ta: TokenAccount,
    /// The vault after the deposit reached it.
    pub vault: TokenAccount,
    /// The amount moved.
    pub amount: u64,
}

/// When Contribute succeeds: six accounts, a signing contributor,
/// well-sized arguments, a vault address that matches its derivation, the
/// minimum met, both records well-sized, the goal ceiling and the
/// per-contributor cap kept, and a deposit the custody service accepts.
pub open spec fn spec_contribute_ok(accounts: Seq<Account>, args: Seq<u8>) -> bool {
    &&& accounts.len() == 6
    &&& accounts[0].is_signer
    &&& args.len() == 16
    &&& derived_address(
        spec_vault_seeds(accounts[1].key@, (spec_contribute_vault_bump(args) % 256) as u8),
        PROGRAM_ID@,
    ) == Some(accounts[4].key@)
    &&& spec_contribute_amount(args) >= MIN_AMOUNT_TO_RAISE
    &&& (accounts[1].data matches AccountData::Bytes(fd) && {
        &&& fd@.len() == FUNDRAISER_LEN
        &&& spec_contribute_amount(args) + spec_fundraiser_current(fd@)
            <= spec_fundraiser_amount_to_raise(fd@)
        &&& (accounts[3].data matches AccountData::Bytes(cd) && {
            &&& cd@.len() == CONTRIBUTOR_LEN
            &&& spec_fundraiser_amount_to_raise(fd@) * MAX_CONTRIBUTION_PERCENTAGE <= u64::MAX
            &&& spec_contribute_amount(args) + spec_contributor_amount(cd@) <= spec_cap(
                spec_fundraiser_amount_to_raise(fd@),
            )
            &&& (accounts[2].data matches AccountData::Token(ta) && (
            accounts[4].data matches AccountData::Token(va) && {
                &&& ta.authority@ == accounts[0].key@
                &&& ta.mint@ == va.mint@
                &&& spec_contribute_amount(args) <= ta.amount
                &&& va.amount + spec_contribute_amount(args) <= u64::MAX
            }))
        })
    })
}

/// The single failure reason of a rejected Contribute: the first check that
/// fails, in the order the handler performs them.
pub open spec fn spec_contribute_err(accounts: Seq<Account>, args: Seq<u8>) -> ProtocolError {
    if accounts.len() != 6 {
        ProtocolError::MalformedInput
    } else if !accounts[0].is_signer {
        ProtocolError::AuthorizationFailure
    } else if args.len() != 16 {
        ProtocolError::MalformedInput
    } else if derived_address(
        spec_vault_seeds(accounts[1].key@, (spec_contribute_vault_bump(args) % 256) as u8),
        PROGRAM_ID@,
    ) != Some(accounts[4].key@) {
        ProtocolError::AuthorizationFailure
    } else if spec_contribute_amount(args) < MIN_AMOUNT_TO_RAISE {
        ProtocolError::InvariantViolation
    } else {
        match accounts[1].data {
            AccountData::Bytes(fd) => if fd@.len() != FUNDRAISER_LEN {
                ProtocolError::MalformedInput
            } else if spec_contribute_amount(args) + spec_fundraiser_current(fd@)
                > spec_fundraiser_amount_to_raise(fd@) {
                ProtocolError::InvariantViolation
            } else {
                match accounts[3].data {
                    AccountData::Bytes(cd) => if cd@.len() != CONTRIBUTOR_LEN {
                        ProtocolError::MalformedInput
                    } else if spec_fundraiser_amount_to_raise(fd@) * MAX_CONTRIBUTION_PERCENTAGE
                        > u64::MAX {
                        ProtocolError::ArithmeticOverflow
                    } else if spec_contribute_amount(args) + spec_contributor_amount(cd@)
                        > spec_cap(spec_fundraiser_amount_to_raise(fd@)) {
                        ProtocolError::InvariantViolation
                    } else {
                        match (accounts[2].data, accounts[4].data) {
                            (AccountData::Token(ta), AccountData::Token(va)) => if ta.authority@
                                != accounts[0].key@ {
                                ProtocolError::AuthorizationFailure
                            } else if ta.mint@ != va.mint@ {
                                ProtocolError::ExternalCallFailure
                            } else if spec_contribute_amount(args) > ta.amount {
                                ProtocolError::ResourceUnavailable
                            } else {
                                ProtocolError::ArithmeticOverflow
                            },
                            _ => ProtocolError::MalformedInput,
                        }
                    },
                    AccountData::Token(_) => ProtocolError::MalformedInput,
                }
            },
            AccountData::Token(_) => ProtocolError::MalformedInput,
        }
    }
}

/// What a successful Contribute returns: both records rewritten whole with
/// the same single increment, and the deposit moved from the contributor's
/// token account into the vault.
pub open spec fn spec_contribute_post(
    accounts: Seq<Account>,
    args: Seq<u8>,
    out: ContributeEffects,
) -> bool {
    let amount = spec_contribute_amount(args);
    &&& out.amount == amount
    &&& (accounts[1].data matches AccountData::Bytes(fd) && {
        &&& out.fundraiser_data@.len() == FUNDRAISER_LEN
        &&& spec_fundraiser_maker(out.fundraiser_data@) == spec_fundraiser_maker(fd@)
        &&& spec_fundraiser_mint(out.fundraiser_data@) == spec_fundraiser_mint(fd@)
        &&& spec_fundraiser_amount_to_raise(out.fundraiser_data@) == spec_fundraiser_amount_to_raise(
            fd@,
        )
        &&& spec_fundraiser_current(out.fundraiser_data@) == spec_fundraiser_current(fd@) + amount
        &&& spec_fundraiser_time_started(out.fundraiser_data@) == spec_fundraiser_time_started(fd@)
        &&& spec_fundraiser_duration(out.fundraiser_data@) == spec_fundraiser_duration(fd@)
        &&& spec_fundraiser_bump(out.fundraiser_data@) == spec_fundraiser_bump(fd@)
    })
    &&& (accounts[3].data matches AccountData::Bytes(cd) && {
        &&& out.contributor_data@.len() == CONTRIBUTOR_LEN
        &&& spec_contributor_amount(out.contributor_data@) == spec_contributor_amount(cd@) + amount
        &&& spec_contributor_bump(out.contributor_data@) == spec_contributor_bump(cd@)
    })
    &&& (accounts[2].data matches AccountData::Token(ta) && {
        &&& out.contributor_ta.amount == ta.amount - amount
        &&& out.contributor_ta.mint == ta.mint
        &&& out.contributor_ta.authority == ta.authority
    })
    &&& (accounts[4].data matches AccountData::Token(va) && {
        &&& out.vault.amount == va.amount + amount
        &&& out.vault.mint == va.mint
        &&& out.vault.authority == va.authority
    })
}

/// Accepts a contribution. Expects the accounts `[contributor, fundraiser,
/// contributor_ta, contributor_record, vault, token_program]`.
///
/// The three checks — minimum, goal ceiling, per-contributor cap — and the
/// two increments are evaluated against one consistent read of both
/// records, and both records are written back whole, with the same single
/// increment that the vault's balance receives. Succeeds exactly on the
/// inputs of `spec_contribute_ok`; any failure reports
/// `spec_contribute_err` and has no effect.
pub fn contribute(accounts: &Vec<Account>, args: &Vec<u8>) -> (r: Result<
    ContributeEffects,
    ProtocolError,
>)
    ensures
        r is Ok <==> spec_contribute_ok(accounts@, args@),
        r matches Err(e) ==> e == spec_contribute_err(accounts@, args@),
        r matches Ok(out) ==> spec_contribute_post(accounts@, args@, out),
{
    if accounts.len() != 6 {
        return Err(ProtocolError::MalformedInput);
    }
    let contributor = &accounts[0];
    let fundraiser = &accounts[1];
    let contributor_ta = &accounts[2];
    let contributor_rec = &accounts[3];
    let vault = &accounts[4];
    if !contributor.is_signer {
        return Err(ProtocolError::AuthorizationFailure);
    }
    let a = match ContributeArgs::try_from(args) {
        Ok(a) => a,
        Err(e) => {
            return Err(e);
        },
    };
    let seeds = vault_seeds(&fundraiser.key, bump_byte(a.vault_bump));
    match validate_pda(&seeds, &PROGRAM_ID, &vault.key) {
        Ok(()) => (),
        Err(e) => {
            return Err(e);
        },
    }
    if a.amount < MIN_AMOUNT_TO_RAISE {
        return Err(ProtocolError::InvariantViolation);
    }
    let fd = match &fundraiser.data {
        AccountData::Bytes(b) => b,
        AccountData::Token(_) => {
            return Err(ProtocolError::MalformedInput);
        },
    };
    let f = match decode_fundraiser(fd) {
        Some(f) => f,
        None => {
            return Err(ProtocolError::MalformedInput);
        },
    };
    proof {
        lemma_fundraiser_fields(f, fd@);
    }
    if a.amount > f.amount_to_raise || f.current_amount > f.amount_to_raise - a.amount {
        return Err(ProtocolError::InvariantViolation);
    }
    let cd = match &contributor_rec.data {
        AccountData::Bytes(b) => b,
        AccountData::Token(_) => {
            return Err(ProtocolError::MalformedInput);
        },
    };
    let c = match decode_contributor(cd) {
        Some(c) => c,
        None => {
            return Err(ProtocolError::MalformedInput);
        },
    };
    proof {
        lemma_contributor_fields(c, cd@);
    }
    let cap: u64 = match f.amount_to_raise.checked_mul(MAX_CONTRIBUTION_PERCENTAGE) {
        Some(p) => p / PERCENTAGE_SCALER,
        None => {
            return Err(ProtocolError::ArithmeticOverflow);
        },
    };
    if a.amount > cap || c.amount > cap - a.amount {
        return Err(ProtocolError::InvariantViolation);
    }
    let ta = match &contributor_ta.data {
        AccountData::Token(t) => *t,
        AccountData::Bytes(_) => {
            return Err(ProtocolError::MalformedInput);
        },
    };
    let va = match &vault.data {
        AccountData::Token(t) => *t,
        AccountData::Bytes(_) => {
            return Err(ProtocolError::MalformedInput);
        },
    };
    let auth = TransferAuthority::Direct { key: contributor.key, is_signer: contributor.is_signer };
    let (ta2, va2) = match custody_transfer(&PROGRAM_ID, &ta, &va, &auth, a.amount) {
        Ok(p) => p,
        Err(e) => {
            return Err(e);
        },
    };
    let new_f = Fundraiser {
        maker: f.maker,
        mint_to_raise: f.mint_to_raise,
        amount_to_raise: f.amount_to_raise,
        current_amount: f.current_amount + a.amount,
        time_started: f.time_started,
        duration: f.duration,
        bump: f.bump,
    };
    let new_c = Contributor { amount: c.amount + a.amount, contributor_bump: c.contributor_bump };
    let fundraiser_data = encode_fundraiser(&new_f);
    let contributor_data = encode_contributor(&new_c);
    proof {
        lemma_fundraiser_fields(new_f, fundraiser_data@);
        lemma_contributor_fields(new_c, contributor_data@);
    }
    Ok(ContributeEffects {
        fundraiser_data,
        contributor_data,
        contributor_ta: ta2,
        vault: va2,
        amount: a.amount,
    })
}

/// What Checker leaves behind on success: the vault drained into the
/// maker's token account.
pub struct CheckerEffects {
    /// The vault after its entire balance left it.
    pub vault: TokenAccount,
    /// The maker's token account after the payout reached it.
    pub maker_ata: TokenAccount,
    /// The amount paid out: the vault's entire balance.
    pub amount: u64,
}

/// When Checker succeeds: five accounts, a signing maker, well-sized
/// arguments, both derived addresses matching their derivations, a
/// well-sized record whose goal has been reached, and a payout the custody
/// service accepts under the fundraiser's delegated authority.
pub open spec fn spec_checker_ok(accounts: Seq<Account>, args: Seq<u8>) -> bool {
    &&& accounts.len() == 5
    &&& accounts[0].is_signer
    &&& args.len() == 16
    &&& derived_address(
        spec_fundraiser_seeds(accounts[0].key@, (spec_two_bump_first(args) % 256) as u8),
        PROGRAM_ID@,
    ) == Some(accounts[1].key@)
    &&& derived_address(
        spec_vault_seeds(accounts[1].key@, (spec_two_bump_second(args) % 256) as u8),
        PROGRAM_ID@,
    ) == Some(accounts[2].key@)
    &&& (accounts[1].data matches AccountData::Bytes(fd) && {
        &&& fd@.len() == FUNDRAISER_LEN
        &&& spec_fundraiser_current(fd@) >= spec_fundraiser_amount_to_raise(fd@)
        &&& (accounts[2].data matches AccountData::Token(va) && (
        accounts[3].data matches AccountData::Token(ata) && {
            &&& va.authority@ == accounts[1].key@
            &&& va.mint@ == ata.mint@
            &&& ata.amount + va.amount <= u64::MAX
        }))
    })
}

/// The single failure reason of a rejected Checker: the first check that
/// fails, in the order the handler performs them.
pub open spec fn spec_checker_err(accounts: Seq<Account>, args: Seq<u8>) -> ProtocolError {
    if accounts.len() != 5 {
        ProtocolError::MalformedInput
    } else if !accounts[0].is_signer {
        ProtocolError::AuthorizationFailure
    } else if args.len() != 16 {
        ProtocolError::MalformedInput
    } else if derived_address(
        spec_fundraiser_seeds(accounts[0].key@, (spec_two_bump_first(args) % 256) as u8),
        PROGRAM_ID@,
    ) != Some(accounts[1].key@) {
        ProtocolError::AuthorizationFailure
    } else if derived_address(
        spec_vault_seeds(accounts[1].key@, (spec_two_bump_second(args) % 256) as u8),
        PROGRAM_ID@,
    ) != Some(accounts[2].key@) {
        ProtocolError::AuthorizationFailure
    } else {
        match accounts[1].data {
            AccountData::Bytes(fd) => if fd@.len() != FUNDRAISER_LEN {
                ProtocolError::MalformedInput
            } else if spec_fundraiser_current(fd@) < spec_fundraiser_amount_to_raise(fd@) {
                ProtocolError::InvariantViolation
            } else {
                match (accounts[2].data, accounts[3].data) {
                    (AccountData::Token(va), AccountData::Token(ata)) => if va.authority@
                        != accounts[1].key@ {
                        ProtocolError::AuthorizationFailure
                    } else if va.mint@ != ata.mint@ {
                        ProtocolError::ExternalCallFailure
                    } else {
                        ProtocolError::ArithmeticOverflow
                    },
                    _ => ProtocolError::MalformedInput,
                }
            },
            AccountData::Token(_) => ProtocolError::MalformedInput,
        }
    }
}

/// What a successful Checker returns: the vault's entire balance moved to
/// the maker's token account.
pub open spec fn spec_checker_post(accounts: Seq<Account>, out: CheckerEffects) -> bool {
    &&& (accounts[2].data matches AccountData::Token(va) && {
        &&& out.amount == va.amount
        &&& out.vault.amount == 0
        &&& out.vault.mint == va.mint
        &&& out.vault.authority == va.authority
    })
    &&& (accounts[3].data matches AccountData::Token(ata) && {
        &&& (accounts[2].data matches AccountData::Token(va) && out.maker_ata.amount == ata.amount
            + va.amount)
        &&& out.maker_ata.mint == ata.mint
        &&& out.maker_ata.authority == ata.authority
    })
}

/// Releases a reached goal to the maker. Expects the accounts `[maker,
/// fundraiser, vault, maker_ata, token_program]`.
///
/// Succeeds only if `current_amount >= amount_to_raise`, and then moves the
/// vault's entire balance to the maker's token account under the
/// fundraiser's delegated authority: the seed material presented is exactly
/// the proof that the record authorizing the payout is the derived one.
/// Any failure reports `spec_checker_err` and has no effect.
pub fn checker(accounts: &Vec<Account>, args: &Vec<u8>) -> (r: Result<
    CheckerEffects,
    ProtocolError,
>)
    ensures
        r is Ok <==> spec_checker_ok(accounts@, args@),
        r matches Err(e) ==> e == spec_checker_err(accounts@, args@),
        r matches Ok(out) ==> spec_checker_post(accounts@, out),
{
    if accounts.len() != 5 {
        return Err(ProtocolError::MalformedInput);
    }
    let maker = &accounts[0];
    let fundraiser = &accounts[1];
    let vault = &accounts[2];
    let maker_ata = &accounts[3];
    if !maker.is_signer {
        return Err(ProtocolError::AuthorizationFailure);
    }
    let a = match CheckerArgs::try_from(args) {
        Ok(a) => a,
        Err(e) => {
            return Err(e);
        },
    };
    let f_seeds = fundraiser_seeds(&maker.key, bump_byte(a.fundraiser_bump));
    match validate_pda(&f_seeds, &PROGRAM_ID, &fundraiser.key) {
        Ok(()) => (),
        Err(e) => {
            return Err(e);
        },
    }
    let v_seeds = vault_seeds(&fundraiser.key, bump_byte(a.vault_bump));
    match validate_pda(&v_seeds, &PROGRAM_ID, &vault.key) {
        Ok(()) => (),
        Err(e) => {
            return Err(e);
        },
    }
    let fd = match &fundraiser.data {
        AccountData::Bytes(b) => b,
        AccountData::Token(_) => {
            return Err(ProtocolError::MalformedInput);
        },
    };
    let f = match decode_fundraiser(fd) {
        Some(f) => f,
        None => {
            return Err(ProtocolError::MalformedInput);
        },
    };
    proof {
        lemma_fundraiser_fields(f, fd@);
    }
    if f.current_amount < f.amount_to_raise {
        return Err(ProtocolError::InvariantViolation);
    }
    let va = match &vault.data {
        AccountData::Token(t) => *t,
        AccountData::Bytes(_) => {
            return Err(ProtocolError::MalformedInput);
        },
    };
    let ata = match &maker_ata.data {
        AccountData::Token(t) => *t,
        AccountData::Bytes(_) => {
            return Err(ProtocolError::MalformedInput);
        },
    };
    let auth = TransferAuthority::Delegated { key: fundraiser.key, seeds: f_seeds };
    let (va2, ata2) = match custody_transfer(&PROGRAM_ID, &va, &ata, &auth, va.amount) {
        Ok(p) => p,
        Err(e) => {
            return Err(e);
        },
    };
    Ok(CheckerEffects { vault: va2, maker_ata: ata2, amount: va.amount })
}

/// What Refund leaves behind on success: the contributor's recorded amount
/// moved back out of the vault.
pub struct RefundEffects {
    /// The vault after the refund left it.
    pub vault: TokenAccount,
    /// The contributor's token account after the refund reached it.
    pub contributor_ta: TokenAccount,
    /// The amount refunded: the contributor's full recorded amount.
    pub amount: u64,
}

/// When Refund succeeds: six accounts, a signing contributor, well-sized
/// arguments, both records well-sized, both derived addresses matching
/// their derivations, the duration elapsed, the goal not reached, and a
/// refund the custody service accepts under the fundraiser's delegated
/// authority.
pub open spec fn spec_refund_ok(accounts: Seq<Account>, args: Seq<u8>, now: i64) -> bool {
    &&& accounts.len() == 6
    &&& accounts[0].is_signer
    &&& args.len() == 16
    &&& (accounts[1].data matches AccountData::Bytes(fd) && {
        &&& fd@.len() == FUNDRAISER_LEN
        &&& (accounts[3].data matches AccountData::Bytes(cd) && {
            &&& cd@.len() == CONTRIBUTOR_LEN
            &&& derived_address(
                spec_fundraiser_seeds(
                    spec_fundraiser_maker(fd@),
                    (spec_two_bump_first(args) % 256) as u8,
                ),
                PROGRAM_ID@,
            ) == Some(accounts[1].key@)
            &&& derived_address(
                spec_vault_seeds(accounts[1].key@, (spec_two_bump_second(args) % 256) as u8),
                PROGRAM_ID@,
            ) == Some(accounts[4].key@)
            &&& spec_fundraiser_duration(fd@) <= now - spec_fundraiser_time_started(fd@)
            &&& spec_fundraiser_current(fd@) < spec_fundraiser_amount_to_raise(fd@)
            &&& (accounts[4].data matches AccountData::Token(va) && (
            accounts[2].data matches AccountData::Token(ta) && {
                &&& va.authority@ == accounts[1].key@
                &&& va.mint@ == ta.mint@
                &&& spec_contributor_amount(cd@) <= va.amount
                &&& ta.amount + spec_contributor_amount(cd@) <= u64::MAX
            }))
        })
    })
}

/// The single failure reason of a rejected Refund: the first check that
/// fails, in the order the handler performs them.
pub open spec fn spec_refund_err(accounts: Seq<Account>, args: Seq<u8>, now: i64) -> ProtocolError {
    if accounts.len() != 6 {
        ProtocolError::MalformedInput
    } else if !accounts[0].is_signer {
        ProtocolError::AuthorizationFailure
    } else if args.len() != 16 {
        ProtocolError::MalformedInput
    } else {
        match accounts[1].data {
            AccountData::Bytes(fd) => if fd@.len() != FUNDRAISER_LEN {
                ProtocolError::MalformedInput
            } else {
                match accounts[3].data {
                    AccountData::Bytes(cd) => if cd@.len() != CONTRIBUTOR_LEN {
                        ProtocolError::MalformedInput
                    } else if derived_address(
                        spec_fundraiser_seeds(
                            spec_fundraiser_maker(fd@),
                            (spec_two_bump_first(args) % 256) as u8,
                        ),
                        PROGRAM_ID@,
                    ) != Some(accounts[1].key@) {
                        ProtocolError::AuthorizationFailure
                    } else if derived_address(
                        spec_vault_seeds(
                            accounts[1].key@,
                            (spec_two_bump_second(args) % 256) as u8,
                        ),
                        PROGRAM_ID@,
                    ) != Some(accounts[4].key@) {
                        ProtocolError::AuthorizationFailure
                    } else if !(spec_fundraiser_duration(fd@) <= now - spec_fundraiser_time_started(
                        fd@,
                    )) {
                        ProtocolError::InvariantViolation
                    } else if spec_fundraiser_current(fd@) >= spec_fundraiser_amount_to_raise(fd@) {
                        ProtocolError::InvariantViolation
                    } else {
                        match (accounts[4].data, accounts[2].data) {
                            (AccountData::Token(va), AccountData::Token(ta)) => if va.authority@
                                != accounts[1].key@ {
                                ProtocolError::AuthorizationFailure
                            } else if va.mint@ != ta.mint@ {
                                ProtocolError::ExternalCallFailure
                            } else if spec_contributor_amount(cd@) > va.amount {
                                ProtocolError::ResourceUnavailable
                            } else {
                                ProtocolError::ArithmeticOverflow
                            },
                            _ => ProtocolError::MalformedInput,
                        }
                    },
                    AccountData::Token(_) => ProtocolError::MalformedInput,
                }
            },
            AccountData::Token(_) => ProtocolError::MalformedInput,
        }
    }
}

/// What a successful Refund returns: the contributor's full recorded
/// amount moved from the vault back to the contributor's token account.
pub open spec fn spec_refund_post(accounts: Seq<Account>, out: RefundEffects) -> bool {
    &&& (accounts[3].data matches AccountData::Bytes(cd) && out.amount == spec_contributor_amount(
        cd@,
    ))
    &&& (accounts[4].data matches AccountData::Token(va) && {
        &&& out.vault.amount == va.amount - out.amount
        &&& out.vault.mint == va.mint
        &&& out.vault.authority == va.authority
    })
    &&& (accounts[2].data matches AccountData::Token(ta) && {
        &&& out.contributor_ta.amount == ta.amount + out.amount
        &&& out.contributor_ta.mint == ta.mint
        &&& out.contributor_ta.authority == ta.authority
    })
}

/// Returns a contribution after an expired fundraiser. Expects the accounts
/// `[contributor, fundraiser, contributor_ta, contributor_record, vault,
/// token_program]`; `now` is the clock oracle's current timestamp.
///
/// Succeeds only if the duration has elapsed and the goal was not reached,
/// and then moves the contributor's full recorded amount from the vault to
/// the contributor's token account under the fundraiser's delegated
/// authority. Any failure reports `spec_refund_err` and has no effect.
pub fn refund(accounts: &Vec<Account>, args: &Vec<u8>, now: i64) -> (r: Result<
    RefundEffects,
    ProtocolError,
>)
    ensures
        r is Ok <==> spec_refund_ok(accounts@, args@, now),
        r matches Err(e) ==> e == spec_refund_err(accounts@, args@, now),
        r matches Ok(out) ==> spec_refund_post(accounts@, out),
{
    if accounts.len() != 6 {
        return Err(ProtocolError::MalformedInput);
    }
    let contributor = &accounts[0];
    let fundraiser = &accounts[1];
    let contributor_ta = &accounts[2];
    let contributor_rec = &accounts[3];
    let vault = &accounts[4];
    if !contributor.is_signer {
        return Err(ProtocolError::AuthorizationFailure);
    }
    let a = match RefundArgs::try_from(args) {
        Ok(a) => a,
        Err(e) => {
            return Err(e);
        },
    };
    let fd = match &fundraiser.data {
        AccountData::Bytes(b) => b,
        AccountData::Token(_) => {
            return Err(ProtocolError::MalformedInput);
        },
    };
    let f = match decode_fundraiser(fd) {
        Some(f) => f,
        None => {
            return Err(ProtocolError::MalformedInput);
        },
    };
    proof {
        lemma_fundraiser_fields(f, fd@);
    }
    let cd = match &contributor_rec.data {
        AccountData::Bytes(b) => b,
        AccountData::Token(_) => {
            return Err(ProtocolError::MalformedInput);
        },
    };
    let c = match decode_contributor(cd) {
        Some(c) => c,
        None => {
            return Err(ProtocolError::MalformedInput);
        },
    };
    proof {
        lemma_contributor_fields(c, cd@);
    }
    let f_seeds = fundraiser_seeds(&f.maker, bump_byte(a.fundraiser_bump));
    match validate_pda(&f_seeds, &PROGRAM_ID, &fundraiser.key) {
        Ok(()) => (),
        Err(e) => {
            return Err(e);
        },
    }
    let v_seeds = vault_seeds(&fundraiser.key, bump_byte(a.vault_bump));
    match validate_pda(&v_seeds, &PROGRAM_ID, &vault.key) {
        Ok(()) => (),
        Err(e) => {
            return Err(e);
        },
    }
    let elapsed_ok: bool = match now.checked_sub(f.time_started) {
        Some(el) => f.duration <= el,
        // The subtraction leaves the 64-bit range: past the far end when the
        // start lies before the epoch, before the far start when it lies
        // after `now` by more than the range.
        None => f.time_started < 0,
    };
    if !elapsed_ok {
        return Err(ProtocolError::InvariantViolation);
    }
    if f.current_amount >= f.amount_to_raise {
        return Err(ProtocolError::InvariantViolation);
    }
    let va = match &vault.data {
        AccountData::Token(t) => *t,
        AccountData::Bytes(_) => {
            return Err(ProtocolError::MalformedInput);
        },
    };
    let ta = match &contributor_ta.data {
        AccountData::Token(t) => *t,
        AccountData::Bytes(_) => {
            return Err(ProtocolError::MalformedInput);
        },
    };
    let auth = TransferAuthority::Delegated { key: fundraiser.key, seeds: f_seeds };
    let (va2, ta2) = match custody_transfer(&PROGRAM_ID, &va, &ta, &auth, c.amount) {
        Ok(p) => p,
        Err(e) => {
            return Err(e);
        },
    };
    Ok(RefundEffects { vault: va2, contributor_ta: ta2, amount: c.amount })
}

/// What one fundraiser instruction leaves behind, by operation.
pub enum FundraiserEffects {
    Initialized(InitializeEffects),
    Contributed(ContributeEffects),
    Checked(CheckerEffects),
    Refunded(RefundEffects),
}

/// Routes one decoded instruction to its handler. The program-identifier
/// guard runs once here, before dispatch; the leading byte selects the
/// operation and the rest of the buffer is its argument record. `now` and
/// `rent_minimum` come from the host's clock oracle and fee-exemption
/// calculator.
pub fn process_instruction(
    program_id: &Pubkey,
    accounts: &Vec<Account>,
    instruction_data: &Vec<u8>,
    now: i64,
    rent_minimum: u64,
) -> (r: Result<FundraiserEffects, ProtocolError>)
    ensures
        program_id@ != PROGRAM_ID@ ==> r == Err::<FundraiserEffects, ProtocolError>(
            ProtocolError::AuthorizationFailure,
        ),
        (program_id@ == PROGRAM_ID@ && instruction_data@.len() == 0) ==> r == Err::<
            FundraiserEffects,
            ProtocolError,
        >(ProtocolError::MalformedInput),
        (program_id@ == PROGRAM_ID@ && instruction_data@.len() > 0 && instruction_data@[0] > 3)
            ==> r == Err::<FundraiserEffects, ProtocolError>(ProtocolError::UnknownInstruction),
        (program_id@ == PROGRAM_ID@ && instruction_data@.len() > 0 && instruction_data@[0] == 0)
            ==> ({
            &&& (r is Ok <==> spec_initialize_ok(
                accounts@,
                spec_tail(instruction_data@),
                rent_minimum,
            ))
            &&& (r matches Ok(eff) ==> (eff matches FundraiserEffects::Initialized(out)
                && spec_initialize_post(
                accounts@,
                spec_tail(instruction_data@),
                now,
                rent_minimum,
                out,
            )))
            &&& (r matches Err(e) ==> e == spec_initialize_err(
                accounts@,
                spec_tail(instruction_data@),
                rent_minimum,
            ))
        }),
        (program_id@ == PROGRAM_ID@ && instruction_data@.len() > 0 && instruction_data@[0] == 1)
            ==> ({
            &&& (r is Ok <==> spec_contribute_ok(accounts@, spec_tail(instruction_data@)))
            &&& (r matches Ok(eff) ==> (eff matches FundraiserEffects::Contributed(out)
                && spec_contribute_post(accounts@, spec_tail(instruction_data@), out)))
            &&& (r matches Err(e) ==> e == spec_contribute_err(
                accounts@,
                spec_tail(instruction_data@),
            ))
        }),
        (program_id@ == PROGRAM_ID@ && instruction_data@.len() > 0 && instruction_data@[0] == 2)
            ==> ({
            &&& (r is Ok <==> spec_checker_ok(accounts@, spec_tail(instruction_data@)))
            &&& (r matches Ok(eff) ==> (eff matches FundraiserEffects::Checked(out)
                && spec_checker_post(accounts@, out)))
            &&& (r matches Err(e) ==> e == spec_checker_err(accounts@, spec_tail(instruction_data@)))
        }),
        (program_id@ == PROGRAM_ID@ && instruction_data@.len() > 0 && instruction_data@[0] == 3)
            ==> ({
            &&& (r is Ok <==> spec_refund_ok(accounts@, spec_tail(instruction_data@), now))
            &&& (r matches Ok(eff) ==> (eff matches FundraiserEffects::Refunded(out)
                && spec_refund_post(accounts@, out)))
            &&& (r matches Err(e) ==> e == spec_refund_err(
                accounts@,
                spec_tail(instruction_data@),
                now,
            ))
        }),
{
    if !crate::keys::key_eq(program_id, &PROGRAM_ID) {
        return Err(ProtocolError::AuthorizationFailure);
    }
    if instruction_data.len() == 0 {
        return Err(ProtocolError::MalformedInput);
    }
    let discriminator: u8 = instruction_data[0];
    let data = tail_vec(instruction_data);
    match FundraiserInstructions::try_from(&discriminator) {
        Ok(FundraiserInstructions::Initialize) => match initialize(
            accounts,
            &data,
            now,
            rent_minimum,
        ) {
            Ok(out) => Ok(FundraiserEffects::Initialized(out)),
            Err(e) => Err(e),
        },
        Ok(FundraiserInstructions::Contribute) => match contribute(accounts, &data) {
            Ok(out) => Ok(FundraiserEffects::Contributed(out)),
            Err(e) => Err(e),
        },
        Ok(FundraiserInstructions::Checker) => match checker(accounts, &data) {
            Ok(out) => Ok(FundraiserEffects::Checked(out)),
            Err(e) => Err(e),
        },
        Ok(FundraiserInstructions::Refund) => match refund(accounts, &data, now) {
            Ok(out) => Ok(FundraiserEffects::Refunded(out)),
            Err(e) => Err(e),
        },
        Err(e) => Err(e),
    }
}

} // verus!
