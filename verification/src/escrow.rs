use vstd::prelude::*;
use vstd::bytes::spec_u64_from_le_bytes;
use crate::account::{
    close_record_account, create_record_account, spec_untouched, Account, AccountData,
};
use crate::codec::{read_key, read_u64_le};
use crate::error::ProtocolError;
use crate::keys::{key_eq, Pubkey, PROGRAM_ID, SYSTEM_PROGRAM_ID, TOKEN_PROGRAM_ID};
use crate::pda::{derived_address, escrow_seeds, spec_escrow_seeds, validate_pda};
use crate::state::{
    decode_escrow, encode_escrow, lemma_escrow_fields, spec_encode_escrow, Escrow, ESCROW_LEN,
};
use crate::token::{
    custody_close, custody_transfer_checked, mint_decimals_of, unpack_mint_decimals, TokenAccount,
    TransferAuthority,
};

verus! {

/// The argument record of Make: the maker's address, the deposit amount,
/// the amount wanted in return, and the escrow record's derivation nonce.
#[derive(Clone, Copy)]
pub struct EscrowArgs {
    pub maker: Pubkey,
    pub amount: u64,
    pub receive: u64,
    pub escrow_bump: u8,
}

/// The three operations of the escrow state machine, selected by the
/// leading discriminator byte of an instruction.
pub enum EscrowInstruction {
    Make(EscrowArgs),
    Take,
    Refund,
}

/// The fields of a Make argument record, read off the instruction buffer
/// that carries the discriminator in its first byte.
pub open spec fn spec_make_maker(s: Seq<u8>) -> Seq<u8> {
    s.subrange(1, 33)
}

pub open spec fn spec_make_amount(s: Seq<u8>) -> u64 {
    spec_u64_from_le_bytes(s.subrange(33, 41))
}

pub open spec fn spec_make_receive(s: Seq<u8>) -> u64 {
    spec_u64_from_le_bytes(s.subrange(41, 49))
}

pub open spec fn spec_make_bump(s: Seq<u8>) -> u8 {
    s[49]
}

impl EscrowInstruction {
    /// Decodes one instruction buffer: the discriminator byte selects the
    /// operation, followed by its fixed-size argument record and nothing
    /// else. Unknown discriminators and wrongly sized buffers are rejected.
    pub fn try_from_slice(data: &Vec<u8>) -> (r: Result<EscrowInstruction, ProtocolError>)
        ensures
            data@.len() == 0 ==> r == Err::<EscrowInstruction, ProtocolError>(
                ProtocolError::MalformedInput,
            ),
            (data@.len() > 0 && data@[0] > 2) ==> r == Err::<EscrowInstruction, ProtocolError>(
                ProtocolError::UnknownInstruction,
            ),
            (data@.len() > 0 && data@[0] == 0) ==> (if data@.len() == 50 {
                r matches Ok(i) && (i matches EscrowInstruction::Make(a) && a.maker@
                    == spec_make_maker(data@) && a.amount == spec_make_amount(data@) && a.receive
                    == spec_make_receive(data@) && a.escrow_bump == spec_make_bump(data@))
            } else {
                r == Err::<EscrowInstruction, ProtocolError>(ProtocolError::MalformedInput)
            }),
            (data@.len() > 0 && data@[0] == 1) ==> (if data@.len() == 1 {
                r matches Ok(i) && i is Take
            } else {
                r == Err::<EscrowInstruction, ProtocolError>(ProtocolError::MalformedInput)
            }),
            (data@.len() > 0 && data@[0] == 2) ==> (if data@.len() == 1 {
                r matches Ok(i) && i is Refund
            } else {
                r == Err::<EscrowInstruction, ProtocolError>(ProtocolError::MalformedInput)
            }),
    {
        if data.len() == 0 {
            return Err(ProtocolError::MalformedInput);
        }
        let tag: u8 = data[0];
        if tag == 0 {
            if data.len() != 50 {
                return Err(ProtocolError::MalformedInput);
            }
            Ok(EscrowInstruction::Make(EscrowArgs {
                maker: read_key(data, 1),
                amount: read_u64_le(data, 33),
                receive: read_u64_le(data, 41),
                escrow_bump: data[49],
            }))
        } else if tag == 1 {
            if data.len() != 1 {
                return Err(ProtocolError::MalformedInput);
            }
            Ok(EscrowInstruction::Take)
        } else if tag == 2 {
            if data.len() != 1 {
                return Err(ProtocolError::MalformedInput);
            }
            Ok(EscrowInstruction::Refund)
        } else {
            Err(ProtocolError::UnknownInstruction)
        }
    }
}

/// What Make leaves behind on success: the record created and funded, and
/// the deposit moved into the vault.
pub struct MakeEffects {
    /// The maker's balance after funding the record account.
    pub maker_lamports: u64,
    /// The newly created escrow record account.
    pub escrow: Account,
    /// The maker's token account after the deposit left it.
    pub maker_ta_a: TokenAccount,
    /// The vault after the deposit reached it.
    pub vault: TokenAccount,
    /// The amount deposited.
    pub amount: u64,
    /// The deposited asset's decimal precision, read from its own metadata.
    pub decimals_a: u8,
}

/// The record Make writes: the trade's terms under the maker's identity.
pub open spec fn spec_make_record(accounts: Seq<Account>, receive: u64, bump: u8) -> Escrow {
    Escrow {
        maker: accounts[0].key,
        mint_a: accounts[1].key,
        mint_b: accounts[2].key,
        receive: receive,
        bump: bump as u64,
    }
}

/// When Make succeeds: eight accounts in their roles, the claimed programs
/// genuine, a signing writable maker, readable deposit-asset metadata, a
/// writable escrow address that matches its derivation, an untouched target
/// account, a payer that can cover the minimum, and a deposit the custody
/// service accepts.
pub open spec fn spec_make_ok(
    program_id: Seq<u8>,
    accounts: Seq<Account>,
    amount: u64,
    bump: u8,
    rent_minimum: u64,
) -> bool {
    &&& accounts.len() == 8
    &&& accounts[7].key@ == SYSTEM_PROGRAM_ID@
    &&& program_id == PROGRAM_ID@
    &&& accounts[0].is_signer
    &&& accounts[0].is_writable
    &&& (accounts[1].data matches AccountData::Bytes(md) && {
        &&& mint_decimals_of(md@) is Some
        &&& accounts[3].is_writable
        &&& derived_address(
            spec_escrow_seeds(accounts[0].key@, bump),
            PROGRAM_ID@,
        ) == Some(accounts[3].key@)
        &&& spec_untouched(accounts[3])
        &&& rent_minimum <= accounts[0].lamports
        &&& (accounts[4].data matches AccountData::Token(ta) && (
        accounts[5].data matches AccountData::Token(va) && {
            &&& ta.authority@ == accounts[0].key@
            &&& ta.mint@ == va.mint@
            &&& amount <= ta.amount
            &&& va.amount + amount <= u64::MAX
        }))
    })
}

/// The single failure reason of a rejected Make: the first check that
/// fails, in the order the handler performs them.
pub open spec fn spec_make_err(
    program_id: Seq<u8>,
    accounts: Seq<Account>,
    amount: u64,
    bump: u8,
    rent_minimum: u64,
) -> ProtocolError {
    if accounts.len() != 8 {
        ProtocolError::MalformedInput
    } else if accounts[7].key@ != SYSTEM_PROGRAM_ID@ {
        ProtocolError::AuthorizationFailure
    } else if program_id != PROGRAM_ID@ {
        ProtocolError::AuthorizationFailure
    } else if !accounts[0].is_signer {
        ProtocolError::AuthorizationFailure
    } else if !accounts[0].is_writable {
        ProtocolError::AuthorizationFailure
    } else {
        match accounts[1].data {
            AccountData::Bytes(md) => if mint_decimals_of(md@) is None {
                ProtocolError::MalformedInput
            } else if !accounts[3].is_writable {
                ProtocolError::AuthorizationFailure
            } else if derived_address(
                spec_escrow_seeds(accounts[0].key@, bump),
                PROGRAM_ID@,
            ) != Some(accounts[3].key@) {
                ProtocolError::AuthorizationFailure
            } else if !spec_untouched(accounts[3]) {
                ProtocolError::InvariantViolation
            } else if rent_minimum > accounts[0].lamports {
                ProtocolError::ResourceUnavailable
            } else {
                match (accounts[4].data, accounts[5].data) {
                    (AccountData::Token(ta), AccountData::Token(va)) => if ta.authority@
                        != accounts[0].key@ {
                        ProtocolError::AuthorizationFailure
                    } else if ta.mint@ != va.mint@ {
                        ProtocolError::ExternalCallFailure
                    } else if amount > ta.amount {
                        ProtocolError::ResourceUnavailable
                    } else {
                        ProtocolError::ArithmeticOverflow
                    },
                    _ => ProtocolError::MalformedInput,
                }
            },
            AccountData::Token(_) => ProtocolError::MalformedInput,
        }
    }
}

/// What a successful Make returns: the record account created, funded from
/// the maker, holding the encoded trade terms; and the deposit moved from
/// the maker's token account into the vault.
pub open spec fn spec_make_post(
    accounts: Seq<Account>,
    amount: u64,
    receive: u64,
    bump: u8,
    rent_minimum: u64,
    out: MakeEffects,
) -> bool {
    &&& out.amount == amount
    &&& out.maker_lamports == accounts[0].lamports - rent_minimum
    &&& out.escrow.key == accounts[3].key
    &&& out.escrow.lamports == rent_minimum
    &&& out.escrow.owner@ == PROGRAM_ID@
    &&& (out.escrow.data matches AccountData::Bytes(b) && b@ == spec_encode_escrow(
        spec_make_record(accounts, receive, bump),
    ))
    &&& (accounts[1].data matches AccountData::Bytes(md) && mint_decimals_of(md@) == Some(
        out.decimals_a,
    ))
    &&& (accounts[4].data matches AccountData::Token(ta) && {
        &&& out.maker_ta_a.amount == ta.amount - amount
        &&& out.maker_ta_a.mint == ta.mint
        &&& out.maker_ta_a.authority == ta.authority
    })
    &&& (accounts[5].data matches AccountData::Token(va) && {
        &&& out.vault.amount == va.amount + amount
        &&& out.vault.mint == va.mint
        &&& out.vault.authority == va.authority
    })
}

/// Opens a trade. Expects the accounts `[maker, mint_a, mint_b, escrow,
/// maker_ta_a, vault, token_program, system_program]`; `rent_minimum` is
/// the fee-exemption calculator's minimum balance for the record's size.
///
/// Creates the escrow record sized exactly to the record's bytes, populates
/// it, and moves the deposit from the maker's token account into the vault
/// under the maker's direct authority. Succeeds exactly on the inputs of
/// `spec_make_ok`; any failure reports `spec_make_err` and has no effect —
/// in particular, the record's creation does not persist when the deposit
/// is refused.
pub fn make(program_id: &Pubkey, accounts: &Vec<Account>, args: EscrowArgs, rent_minimum: u64) -> (r:
    Result<MakeEffects, ProtocolError>)
    ensures
        r is Ok <==> spec_make_ok(program_id@, accounts@, args.amount, args.escrow_bump, rent_minimum),
        r matches Err(e) ==> e == spec_make_err(
            program_id@,
            accounts@,
            args.amount,
            args.escrow_bump,
            rent_minimum,
        ),
        r matches Ok(out) ==> spec_make_post(
            accounts@,
            args.amount,
            args.receive,
            args.escrow_bump,
            rent_minimum,
            out,
        ),
{
    if accounts.len() != 8 {
        return Err(ProtocolError::MalformedInput);
    }
    let maker = &accounts[0];
    let mint_a = &accounts[1];
    let mint_b = &accounts[2];
    let escrow = &accounts[3];
    let maker_ta_a = &accounts[4];
    let vault = &accounts[5];
    let system_program = &accounts[7];
    if !key_eq(&system_program.key, &SYSTEM_PROGRAM_ID) {
        return Err(ProtocolError::AuthorizationFailure);
    }
    if !key_eq(program_id, &PROGRAM_ID) {
        return Err(ProtocolError::AuthorizationFailure);
    }
    if !maker.is_signer {
        return Err(ProtocolError::AuthorizationFailure);
    }
    if !maker.is_writable {
        return Err(ProtocolError::AuthorizationFailure);
    }
    let md = match &mint_a.data {
        AccountData::Bytes(b) => b,
        AccountData::Token(_) => {
            return Err(ProtocolError::MalformedInput);
        },
    };
    let decimals_a = match unpack_mint_decimals(md) {
        Some(d) => d,
        None => {
            return Err(ProtocolError::MalformedInput);
        },
    };
    if !escrow.is_writable {
        return Err(ProtocolError::AuthorizationFailure);
    }
    let seeds = escrow_seeds(&maker.key, args.escrow_bump);
    match validate_pda(&seeds, &PROGRAM_ID, &escrow.key) {
        Ok(()) => (),
        Err(e) => {
            return Err(e);
        },
    }
    let record = encode_escrow(
        &Escrow {
            maker: maker.key,
            mint_a: mint_a.key,
            mint_b: mint_b.key,
            receive: args.receive,
            bump: args.escrow_bump as u64,
        },
    );
    let (maker_lamports, escrow_account) = match create_record_account(
        maker.lamports,
        escrow,
        &PROGRAM_ID,
        rent_minimum,
        record,
    ) {
        Ok(p) => p,
        Err(e) => {
            return Err(e);
        },
    };
    let ta = match &maker_ta_a.data {
        AccountData::Token(t) => *t,
        AccountData::Bytes(_) => {
            return Err(ProtocolError::MalformedInput);
        },
    };
    let va = match &vault.data {
        AccountData::Token(t) => *t,
        AccountData::Bytes(_) => {
            return Err(ProtocolError::MalformedInput);
        },
    };
    let auth = TransferAuthority::Direct { key: maker.key, is_signer: maker.is_signer };
    let (ta2, va2) = match custody_transfer_checked(
        &PROGRAM_ID,
        &ta,
        &va,
        &auth,
        args.amount,
        decimals_a,
        md,
    ) {
        Ok(p) => p,
        Err(e) => {
            return Err(e);
        },
    };
    Ok(MakeEffects {
        maker_lamports,
        escrow: escrow_account,
        maker_ta_a: ta2,
        vault: va2,
        amount: args.amount,
        decimals_a,
    })
}

/// What Take leaves behind on success: both legs of the swap settled, and
/// the record and the vault closed, their rent balances reclaimed by the
/// maker.
pub struct TakeEffects {
    /// The maker's balance after reclaiming both closed accounts' rent.
    pub maker_lamports: u64,
    /// The escrow record account, closed: zeroed and drained.
    pub escrow: Account,
    /// The vault account, closed: emptied and drained.
    pub vault: Account,
    /// The taker's account for the deposited asset, after receiving the
    /// vault's entire balance.
    pub taker_ta_a: TokenAccount,
    /// The taker's account for the wanted asset, after paying the maker.
    pub taker_ta_b: TokenAccount,
    /// The maker's account for the wanted asset, after being paid.
    pub maker_ta_b: TokenAccount,
    /// What the taker received: the vault's entire balance, not the
    /// originally deposited amount.
    pub amount_a: u64,
    /// What the maker received: the record's `receive` amount.
    pub amount_b: u64,
    /// The two assets' decimal precisions, read from their own metadata.
    pub decimals_a: u8,
    pub decimals_b: u8,
}

/// When Take succeeds: eleven accounts in their roles, the claimed programs
/// genuine, a signing writable taker, readable metadata for both assets, a
/// present escrow record whose address matches its derivation from the
/// stored bump, and two legs the custody service accepts — the vault
/// drained to the taker under the record's delegated authority, and the
/// taker paying the maker directly.
pub open spec fn spec_take_ok(program_id: Seq<u8>, accounts: Seq<Account>) -> bool {
    &&& accounts.len() == 11
    &&& accounts[10].key@ == SYSTEM_PROGRAM_ID@
    &&& accounts[9].key@ == TOKEN_PROGRAM_ID@
    &&& program_id == PROGRAM_ID@
    &&& accounts[0].is_signer
    &&& accounts[0].is_writable
    &&& (accounts[2].data matches AccountData::Bytes(ma) && {
        &&& mint_decimals_of(ma@) is Some
        &&& (accounts[3].data matches AccountData::Bytes(mb) && {
            &&& mint_decimals_of(mb@) is Some
            &&& accounts[4].lamports > 0
            &&& (accounts[4].data matches AccountData::Bytes(ed) && {
                &&& ed@.len() == ESCROW_LEN
                &&& derived_address(
                    spec_escrow_seeds(
                        accounts[1].key@,
                        (crate::state::spec_escrow_bump(ed@) % 256) as u8,
                    ),
                    PROGRAM_ID@,
                ) == Some(accounts[4].key@)
                &&& (accounts[8].data matches AccountData::Token(va) && (
                accounts[6].data matches AccountData::Token(taa) && {
                    &&& va.authority@ == accounts[4].key@
                    &&& va.mint@ == taa.mint@
                    &&& taa.amount + va.amount <= u64::MAX
                    &&& (accounts[7].data matches AccountData::Token(tab) && (
                    accounts[5].data matches AccountData::Token(mtb) && {
                        &&& tab.authority@ == accounts[0].key@
                        &&& tab.mint@ == mtb.mint@
                        &&& crate::state::spec_escrow_receive(ed@) <= tab.amount
                        &&& mtb.amount + crate::state::spec_escrow_receive(ed@) <= u64::MAX
                        &&& accounts[1].lamports + accounts[4].lamports <= u64::MAX
                        &&& accounts[1].lamports + accounts[4].lamports + accounts[8].lamports
                            <= u64::MAX
                    }))
                }))
            })
        })
    })
}

/// The single failure reason of a rejected Take: the first check that
/// fails, in the order the handler performs them.
pub open spec fn spec_take_err(program_id: Seq<u8>, accounts: Seq<Account>) -> ProtocolError {
    if accounts.len() != 11 {
        ProtocolError::MalformedInput
    } else if accounts[10].key@ != SYSTEM_PROGRAM_ID@ {
        ProtocolError::AuthorizationFailure
    } else if accounts[9].key@ != TOKEN_PROGRAM_ID@ {
        ProtocolError::AuthorizationFailure
    } else if program_id != PROGRAM_ID@ {
        ProtocolError::AuthorizationFailure
    } else if !accounts[0].is_signer {
        ProtocolError::AuthorizationFailure
    } else if !accounts[0].is_writable {
        ProtocolError::AuthorizationFailure
    } else {
        match accounts[2].data {
            AccountData::Bytes(ma) => if mint_decimals_of(ma@) is None {
                ProtocolError::MalformedInput
            } else {
                match accounts[3].data {
                    AccountData::Bytes(mb) => if mint_decimals_of(mb@) is None {
                        ProtocolError::MalformedInput
                    } else if accounts[4].lamports == 0 {
                        ProtocolError::MalformedInput
                    } else {
                        match accounts[4].data {
                            AccountData::Bytes(ed) => if ed@.len() != ESCROW_LEN {
                                ProtocolError::MalformedInput
                            } else if derived_address(
                                spec_escrow_seeds(
                                    accounts[1].key@,
                                    (crate::state::spec_escrow_bump(ed@) % 256) as u8,
                                ),
                                PROGRAM_ID@,
                            ) != Some(accounts[4].key@) {
                                ProtocolError::AuthorizationFailure
                            } else {
                                spec_take_settle_err(accounts, ed@)
                            },
                            AccountData::Token(_) => ProtocolError::MalformedInput,
                        }
                    },
                    AccountData::Token(_) => ProtocolError::MalformedInput,
                }
            },
            AccountData::Token(_) => ProtocolError::MalformedInput,
        }
    }
}

/// The failure reason of Take's settlement phase: the two custody legs and
/// the two closes, checked in order.
pub open spec fn spec_take_settle_err(accounts: Seq<Account>, ed: Seq<u8>) -> ProtocolError {
    match (accounts[8].data, accounts[6].data) {
        (AccountData::Token(va), AccountData::Token(taa)) => if va.authority@ != accounts[4].key@ {
            ProtocolError::AuthorizationFailure
        } else if va.mint@ != taa.mint@ {
            ProtocolError::ExternalCallFailure
        } else if taa.amount + va.amount > u64::MAX {
            ProtocolError::ArithmeticOverflow
        } else {
            match (accounts[7].data, accounts[5].data) {
                (AccountData::Token(tab), AccountData::Token(mtb)) => if tab.authority@
                    != accounts[0].key@ {
                    ProtocolError::AuthorizationFailure
                } else if tab.mint@ != mtb.mint@ {
                    ProtocolError::ExternalCallFailure
                } else if crate::state::spec_escrow_receive(ed) > tab.amount {
                    ProtocolError::ResourceUnavailable
                } else if mtb.amount + crate::state::spec_escrow_receive(ed) > u64::MAX {
                    ProtocolError::ArithmeticOverflow
                } else {
                    ProtocolError::ArithmeticOverflow
                },
                _ => ProtocolError::MalformedInput,
            }
        },
        _ => ProtocolError::MalformedInput,
    }
}

/// What a successful Take returns: the vault's entire balance with the
/// taker, the `receive` amount with the maker, both closed accounts zeroed
/// and drained, and their rent balances with the maker.
pub open spec fn spec_take_post(accounts: Seq<Account>, out: TakeEffects) -> bool {
    &&& (accounts[4].data matches AccountData::Bytes(ed) && out.amount_b
        == crate::state::spec_escrow_receive(ed@))
    &&& (accounts[2].data matches AccountData::Bytes(ma) && mint_decimals_of(ma@) == Some(
        out.decimals_a,
    ))
    &&& (accounts[3].data matches AccountData::Bytes(mb) && mint_decimals_of(mb@) == Some(
        out.decimals_b,
    ))
    &&& (accounts[8].data matches AccountData::Token(va) && out.amount_a == va.amount)
    &&& (accounts[6].data matches AccountData::Token(taa) && {
        &&& out.taker_ta_a.amount == taa.amount + out.amount_a
        &&& out.taker_ta_a.mint == taa.mint
        &&& out.taker_ta_a.authority == taa.authority
    })
    &&& (accounts[7].data matches AccountData::Token(tab) && {
        &&& out.taker_ta_b.amount == tab.amount - out.amount_b
        &&& out.taker_ta_b.mint == tab.mint
        &&& out.taker_ta_b.authority == tab.authority
    })
    &&& (accounts[5].data matches AccountData::Token(mtb) && {
        &&& out.maker_ta_b.amount == mtb.amount + out.amount_b
        &&& out.maker_ta_b.mint == mtb.mint
        &&& out.maker_ta_b.authority == mtb.authority
    })
    &&& out.maker_lamports == accounts[1].lamports + accounts[4].lamports + accounts[8].lamports
    &&& out.escrow.key == accounts[4].key
    &&& out.escrow.lamports == 0
    &&& (out.escrow.data matches AccountData::Bytes(b) && b@.len() == ESCROW_LEN && (forall|i: int|
        0 <= i < b@.len() ==> b@[i] == 0u8))
    &&& out.vault.key == accounts[8].key
    &&& out.vault.lamports == 0
}

/// Settles a trade. Expects the accounts `[taker, maker, mint_a, mint_b,
/// escrow, maker_ta_b, taker_ta_a, taker_ta_b, vault, token_program,
/// system_program]`.
///
/// Pays the taker the vault's entire current balance — a deliberate choice:
/// the vault is always drained of exactly what it holds — under the
/// record's delegated authority, pays the maker the record's `receive`
/// amount under the taker's direct authority, then closes the record and
/// the vault, crediting both reclaimed balances to the maker, atomically
/// with the settlement. Succeeds exactly on the inputs of `spec_take_ok`;
/// any failure reports `spec_take_err` and has no effect.
pub fn take(program_id: &Pubkey, accounts: &Vec<Account>) -> (r: Result<
    TakeEffects,
    ProtocolError,
>)
    ensures
        r is Ok <==> spec_take_ok(program_id@, accounts@),
        r matches Err(e) ==> e == spec_take_err(program_id@, accounts@),
        r matches Ok(out) ==> spec_take_post(accounts@, out),
        accounts@.len() == 11 && accounts@[4].lamports == 0 ==> r is Err,
{
    if accounts.len() != 11 {
        return Err(ProtocolError::MalformedInput);
    }
    let taker = &accounts[0];
    let maker = &accounts[1];
    let mint_a = &accounts[2];
    let mint_b = &accounts[3];
    let escrow = &accounts[4];
    let maker_ta_b = &accounts[5];
    let taker_ta_a = &accounts[6];
    let taker_ta_b = &accounts[7];
    let vault = &accounts[8];
    let token_program = &accounts[9];
    let system_program = &accounts[10];
    if !key_eq(&system_program.key, &SYSTEM_PROGRAM_ID) {
        return Err(ProtocolError::AuthorizationFailure);
    }
    if !key_eq(&token_program.key, &TOKEN_PROGRAM_ID) {
        return Err(ProtocolError::AuthorizationFailure);
    }
    if !key_eq(program_id, &PROGRAM_ID) {
        return Err(ProtocolError::AuthorizationFailure);
    }
    if !taker.is_signer {
        return Err(ProtocolError::AuthorizationFailure);
    }
    if !taker.is_writable {
        return Err(ProtocolError::AuthorizationFailure);
    }
    let ma = match &mint_a.data {
        AccountData::Bytes(b) => b,
        AccountData::Token(_) => {
            return Err(ProtocolError::MalformedInput);
        },
    };
    let decimals_a = match unpack_mint_decimals(ma) {
        Some(d) => d,
        None => {
            return Err(ProtocolError::MalformedInput);
        },
    };
    let mb = match &mint_b.data {
        AccountData::Bytes(b) => b,
        AccountData::Token(_) => {
            return Err(ProtocolError::MalformedInput);
        },
    };
    let decimals_b = match unpack_mint_decimals(mb) {
        Some(d) => d,
        None => {
            return Err(ProtocolError::MalformedInput);
        },
    };
    if escrow.lamports == 0 {
        return Err(ProtocolError::MalformedInput);
    }
    let ed = match &escrow.data {
        AccountData::Bytes(b) => b,
        AccountData::Token(_) => {
            return Err(ProtocolError::MalformedInput);
        },
    };
    let e = match decode_escrow(ed) {
        Some(e) => e,
        None => {
            return Err(ProtocolError::MalformedInput);
        },
    };
    proof {
        lemma_escrow_fields(e, ed@);
    }
    let seeds = escrow_seeds(&maker.key, crate::pda::bump_byte(e.bump));
    match validate_pda(&seeds, &PROGRAM_ID, &escrow.key) {
        Ok(()) => (),
        Err(err) => {
            return Err(err);
        },
    }
    let va = match &vault.data {
        AccountData::Token(t) => *t,
        AccountData::Bytes(_) => {
            return Err(ProtocolError::MalformedInput);
        },
    };
    let taa = match &taker_ta_a.data {
        AccountData::Token(t) => *t,
        AccountData::Bytes(_) => {
            return Err(ProtocolError::MalformedInput);
        },
    };
    let auth_a = TransferAuthority::Delegated { key: escrow.key, seeds };
    let (va2, taa2) = match custody_transfer_checked(
        &PROGRAM_ID,
        &va,
        &taa,
        &auth_a,
        va.amount,
        decimals_a,
        ma,
    ) {
        Ok(p) => p,
        Err(err) => {
            return Err(err);
        },
    };
    let tab = match &taker_ta_b.data {
        AccountData::Token(t) => *t,
        AccountData::Bytes(_) => {
            return Err(ProtocolError::MalformedInput);
        },
    };
    let mtb = match &maker_ta_b.data {
        AccountData::Token(t) => *t,
        AccountData::Bytes(_) => {
            return Err(ProtocolError::MalformedInput);
        },
    };
    let auth_b = TransferAuthority::Direct { key: taker.key, is_signer: taker.is_signer };
    let (tab2, mtb2) = match custody_transfer_checked(
        &PROGRAM_ID,
        &tab,
        &mtb,
        &auth_b,
        e.receive,
        decimals_b,
        mb,
    ) {
        Ok(p) => p,
        Err(err) => {
            return Err(err);
        },
    };
    let (maker_lamports_1, escrow_closed) = match close_record_account(escrow, maker.lamports) {
        Ok(p) => p,
        Err(err) => {
            return Err(err);
        },
    };
    let close_seeds = escrow_seeds(&maker.key, crate::pda::bump_byte(e.bump));
    let close_auth = TransferAuthority::Delegated { key: escrow.key, seeds: close_seeds };
    match custody_close(&PROGRAM_ID, &va2, &close_auth) {
        Ok(()) => (),
        Err(err) => {
            return Err(err);
        },
    }
    let (maker_lamports, vault_closed) = match close_record_account(vault, maker_lamports_1) {
        Ok(p) => p,
        Err(err) => {
            return Err(err);
        },
    };
    Ok(TakeEffects {
        maker_lamports,
        escrow: escrow_closed,
        vault: vault_closed,
        taker_ta_a: taa2,
        taker_ta_b: tab2,
        maker_ta_b: mtb2,
        amount_a: va.amount,
        amount_b: e.receive,
        decimals_a,
        decimals_b,
    })
}

/// What Refund leaves behind on success: the record's `receive` amount back
/// with the maker, and the record and the vault closed, their rent balances
/// reclaimed by the maker.
pub struct RefundEffects {
    /// The maker's balance after reclaiming both closed accounts' rent.
    pub maker_lamports: u64,
    /// The escrow record account, closed: zeroed and drained.
    pub escrow: Account,
    /// The vault account, closed: emptied and drained.
    pub vault: Account,
    /// The maker's token account after the refund reached it.
    pub maker_ta_a: TokenAccount,
    /// The amount refunded: the record's `receive` amount.
    pub amount: u64,
    /// The refunded asset's decimal precision, read from its own metadata.
    pub decimals_a: u8,
}

/// When Refund succeeds: seven accounts in their roles, the claimed
/// programs genuine, a signing writable maker, readable asset metadata, a
/// present escrow record whose address matches its derivation, a vault that
/// holds exactly the record's `receive` amount — the close that follows the
/// refunding transfer demands a drained vault — and a transfer the custody
/// service accepts under the record's delegated authority.
pub open spec fn spec_escrow_refund_ok(program_id: Seq<u8>, accounts: Seq<Account>) -> bool {
    &&& accounts.len() == 7
    &&& accounts[6].key@ == SYSTEM_PROGRAM_ID@
    &&& accounts[5].key@ == TOKEN_PROGRAM_ID@
    &&& program_id == PROGRAM_ID@
    &&& accounts[0].is_signer
    &&& accounts[0].is_writable
    &&& (accounts[1].data matches AccountData::Bytes(ma) && {
        &&& mint_decimals_of(ma@) is Some
        &&& accounts[2].lamports > 0
        &&& (accounts[2].data matches AccountData::Bytes(ed) && {
            &&& ed@.len() == ESCROW_LEN
            &&& derived_address(
                spec_escrow_seeds(
                    accounts[0].key@,
                    (crate::state::spec_escrow_bump(ed@) % 256) as u8,
                ),
                PROGRAM_ID@,
            ) == Some(accounts[2].key@)
            &&& (accounts[4].data matches AccountData::Token(va) && (
            accounts[3].data matches AccountData::Token(ta) && {
                &&& va.authority@ == accounts[2].key@
                &&& va.mint@ == ta.mint@
                &&& crate::state::spec_escrow_receive(ed@) <= va.amount
                &&& ta.amount + crate::state::spec_escrow_receive(ed@) <= u64::MAX
                &&& accounts[0].lamports + accounts[2].lamports <= u64::MAX
                &&& va.amount == crate::state::spec_escrow_receive(ed@)
                &&& accounts[0].lamports + accounts[2].lamports + accounts[4].lamports <= u64::MAX
            }))
        })
    })
}

/// The single failure reason of a rejected Refund: the first check that
/// fails, in the order the handler performs them.
pub open spec fn spec_escrow_refund_err(program_id: Seq<u8>, accounts: Seq<Account>) -> ProtocolError {
    if accounts.len() != 7 {
        ProtocolError::MalformedInput
    } else if accounts[6].key@ != SYSTEM_PROGRAM_ID@ {
        ProtocolError::AuthorizationFailure
    } else if accounts[5].key@ != TOKEN_PROGRAM_ID@ {
        ProtocolError::AuthorizationFailure
    } else if program_id != PROGRAM_ID@ {
        ProtocolError::AuthorizationFailure
    } else if !accounts[0].is_signer {
        ProtocolError::AuthorizationFailure
    } else if !accounts[0].is_writable {
        ProtocolError::AuthorizationFailure
    } else {
        match accounts[1].data {
            AccountData::Bytes(ma) => if mint_decimals_of(ma@) is None {
                ProtocolError::MalformedInput
            } else if accounts[2].lamports == 0 {
                ProtocolError::MalformedInput
            } else {
                match accounts[2].data {
                    AccountData::Bytes(ed) => if ed@.len() != ESCROW_LEN {
                        ProtocolError::MalformedInput
                    } else if derived_address(
                        spec_escrow_seeds(
                            accounts[0].key@,
                            (crate::state::spec_escrow_bump(ed@) % 256) as u8,
                        ),
                        PROGRAM_ID@,
                    ) != Some(accounts[2].key@) {
                        ProtocolError::AuthorizationFailure
                    } else {
                        match (accounts[4].data, accounts[3].data) {
                            (AccountData::Token(va), AccountData::Token(ta)) => if va.authority@
                                != accounts[2].key@ {
                                ProtocolError::AuthorizationFailure
                            } else if va.mint@ != ta.mint@ {
                                ProtocolError::ExternalCallFailure
                            } else if crate::state::spec_escrow_receive(ed@) > va.amount {
                                ProtocolError::ResourceUnavailable
                            } else if ta.amount + crate::state::spec_escrow_receive(ed@)
                                > u64::MAX {
                                ProtocolError::ArithmeticOverflow
                            } else if accounts[0].lamports + accounts[2].lamports > u64::MAX {
                                ProtocolError::ArithmeticOverflow
                            } else if va.amount != crate::state::spec_escrow_receive(ed@) {
                                ProtocolError::ExternalCallFailure
                            } else {
                                ProtocolError::ArithmeticOverflow
                            },
                            _ => ProtocolError::MalformedInput,
                        }
                    },
                    AccountData::Token(_) => ProtocolError::MalformedInput,
                }
            },
            AccountData::Token(_) => ProtocolError::MalformedInput,
        }
    }
}

/// What a successful Refund returns: the `receive` amount back with the
/// maker, both closed accounts zeroed and drained, and their rent balances
/// with the maker.
pub open spec fn spec_escrow_refund_post(accounts: Seq<Account>, out: RefundEffects) -> bool {
    &&& (accounts[2].data matches AccountData::Bytes(ed) && out.amount
        == crate::state::spec_escrow_receive(ed@))
    &&& (accounts[1].data matches AccountData::Bytes(ma) && mint_decimals_of(ma@) == Some(
        out.decimals_a,
    ))
    &&& (accounts[3].data matches AccountData::Token(ta) && {
        &&& out.maker_ta_a.amount == ta.amount + out.amount
        &&& out.maker_ta_a.mint == ta.mint
        &&& out.maker_ta_a.authority == ta.authority
    })
    &&& out.maker_lamports == accounts[0].lamports + accounts[2].lamports + accounts[4].lamports
    &&& out.escrow.key == accounts[2].key
    &&& out.escrow.lamports == 0
    &&& (out.escrow.data matches AccountData::Bytes(b) && b@.len() == ESCROW_LEN && (forall|i: int|
        0 <= i < b@.len() ==> b@[i] == 0u8))
    &&& out.vault.key == accounts[4].key
    &&& out.vault.lamports == 0
}

/// Returns a pending trade to its maker. Expects the accounts `[maker,
/// mint_a, escrow, maker_ta_a, vault, token_program, system_program]`.
///
/// Pays the maker the record's `receive` amount out of the vault under the
/// record's delegated authority, then closes the record and the vault,
/// crediting both reclaimed balances to the maker. Succeeds exactly on the
/// inputs of `spec_escrow_refund_ok`; any failure reports
/// `spec_escrow_refund_err` and has no effect.
pub fn refund(program_id: &Pubkey, accounts: &Vec<Account>) -> (r: Result<
    RefundEffects,
    ProtocolError,
>)
    ensures
        r is Ok <==> spec_escrow_refund_ok(program_id@, accounts@),
        r matches Err(e) ==> e == spec_escrow_refund_err(program_id@, accounts@),
        r matches Ok(out) ==> spec_escrow_refund_post(accounts@, out),
        accounts@.len() == 7 && accounts@[2].lamports == 0 ==> r is Err,
{
    if accounts.len() != 7 {
        return Err(ProtocolError::MalformedInput);
    }
    let maker = &accounts[0];
    let mint_a = &accounts[1];
    let escrow = &accounts[2];
    let maker_ta_a = &accounts[3];
    let vault = &accounts[4];
    let token_program = &accounts[5];
    let system_program = &accounts[6];
    if !key_eq(&system_program.key, &SYSTEM_PROGRAM_ID) {
        return Err(ProtocolError::AuthorizationFailure);
    }
    if !key_eq(&token_program.key, &TOKEN_PROGRAM_ID) {
        return Err(ProtocolError::AuthorizationFailure);
    }
    if !key_eq(program_id, &PROGRAM_ID) {
        return Err(ProtocolError::AuthorizationFailure);
    }
    if !maker.is_signer {
        return Err(ProtocolError::AuthorizationFailure);
    }
    if !maker.is_writable {
        return Err(ProtocolError::AuthorizationFailure);
    }
    let ma = match &mint_a.data {
        AccountData::Bytes(b) => b,
        AccountData::Token(_) => {
            return Err(ProtocolError::MalformedInput);
        },
    };
    let decimals_a = match unpack_mint_decimals(ma) {
        Some(d) => d,
        None => {
            return Err(ProtocolError::MalformedInput);
        },
    };
    if escrow.lamports == 0 {
        return Err(ProtocolError::MalformedInput);
    }
    let ed = match &escrow.data {
        AccountData::Bytes(b) => b,
        AccountData::Token(_) => {
            return Err(ProtocolError::MalformedInput);
        },
    };
    let e = match decode_escrow(ed) {
        Some(e) => e,
        None => {
            return Err(ProtocolError::MalformedInput);
        },
    };
    proof {
        lemma_escrow_fields(e, ed@);
    }
    let seeds = escrow_seeds(&maker.key, crate::pda::bump_byte(e.bump));
    match validate_pda(&seeds, &PROGRAM_ID, &escrow.key) {
        Ok(()) => (),
        Err(err) => {
            return Err(err);
        },
    }
    let va = match &vault.data {
        AccountData::Token(t) => *t,
        AccountData::Bytes(_) => {
            return Err(ProtocolError::MalformedInput);
        },
    };
    let ta = match &maker_ta_a.data {
        AccountData::Token(t) => *t,
        AccountData::Bytes(_) => {
            return Err(ProtocolError::MalformedInput);
        },
    };
    let auth = TransferAuthority::Delegated { key: escrow.key, seeds };
    let (va2, ta2) = match custody_transfer_checked(
        &PROGRAM_ID,
        &va,
        &ta,
        &auth,
        e.receive,
        decimals_a,
        ma,
    ) {
        Ok(p) => p,
        Err(err) => {
            return Err(err);
        },
    };
    let (maker_lamports_1, escrow_closed) = match close_record_account(escrow, maker.lamports) {
        Ok(p) => p,
        Err(err) => {
            return Err(err);
        },
    };
    let close_seeds = escrow_seeds(&maker.key, crate::pda::bump_byte(e.bump));
    let close_auth = TransferAuthority::Delegated { key: escrow.key, seeds: close_seeds };
    match custody_close(&PROGRAM_ID, &va2, &close_auth) {
        Ok(()) => (),
        Err(err) => {
            return Err(err);
        },
    }
    let (maker_lamports, vault_closed) = match close_record_account(vault, maker_lamports_1) {
        Ok(p) => p,
        Err(err) => {
            return Err(err);
        },
    };
    Ok(RefundEffects {
        maker_lamports,
        escrow: escrow_closed,
        vault: vault_closed,
        maker_ta_a: ta2,
        amount: e.receive,
        decimals_a,
    })
}

/// What one escrow instruction leaves behind, by operation.
pub enum EscrowEffects {
    Made(MakeEffects),
    Taken(TakeEffects),
    Refunded(RefundEffects),
}

/// Routes one decoded instruction to its handler: the leading byte selects
/// the operation and the rest of the buffer is its fixed-size argument
/// record. `rent_minimum` comes from the host's fee-exemption calculator.
pub fn process_instruction(
    program_id: &Pubkey,
    accounts: &Vec<Account>,
    data: &Vec<u8>,
    rent_minimum: u64,
) -> (r: Result<EscrowEffects, ProtocolError>)
    ensures
        data@.len() == 0 ==> r == Err::<EscrowEffects, ProtocolError>(ProtocolError::MalformedInput),
        (data@.len() > 0 && data@[0] > 2) ==> r == Err::<EscrowEffects, ProtocolError>(
            ProtocolError::UnknownInstruction,
        ),
        (data@.len() > 0 && data@[0] == 0 && data@.len() != 50) ==> r == Err::<
            EscrowEffects,
            ProtocolError,
        >(ProtocolError::MalformedInput),
        (data@.len() == 50 && data@[0] == 0) ==> ({
            &&& (r is Ok <==> spec_make_ok(
                program_id@,
                accounts@,
                spec_make_amount(data@),
                spec_make_bump(data@),
                rent_minimum,
            ))
            &&& (r matches Ok(eff) ==> (eff matches EscrowEffects::Made(out) && spec_make_post(
                accounts@,
                spec_make_amount(data@),
                spec_make_receive(data@),
                spec_make_bump(data@),
                rent_minimum,
                out,
            )))
            &&& (r matches Err(e) ==> e == spec_make_err(
                program_id@,
                accounts@,
                spec_make_amount(data@),
                spec_make_bump(data@),
                rent_minimum,
            ))
        }),
        (data@.len() > 0 && data@[0] == 1 && data@.len() != 1) ==> r == Err::<
            EscrowEffects,
            ProtocolError,
        >(ProtocolError::MalformedInput),
        (data@.len() == 1 && data@[0] == 1) ==> ({
            &&& (r is Ok <==> spec_take_ok(program_id@, accounts@))
            &&& (r matches Ok(eff) ==> (eff matches EscrowEffects::Taken(out) && spec_take_post(
                accounts@,
                out,
            )))
            &&& (r matches Err(e) ==> e == spec_take_err(program_id@, accounts@))
        }),
        (data@.len() > 0 && data@[0] == 2 && data@.len() != 1) ==> r == Err::<
            EscrowEffects,
            ProtocolError,
        >(ProtocolError::MalformedInput),
        (data@.len() == 1 && data@[0] == 2) ==> ({
            &&& (r is Ok <==> spec_escrow_refund_ok(program_id@, accounts@))
            &&& (r matches Ok(eff) ==> (eff matches EscrowEffects::Refunded(out)
                && spec_escrow_refund_post(accounts@, out)))
            &&& (r matches Err(e) ==> e == spec_escrow_refund_err(program_id@, accounts@))
        }),
{
    let instruction = match EscrowInstruction::try_from_slice(data) {
        Ok(i) => i,
        Err(e) => {
            return Err(e);
        },
    };
    match instruction {
        EscrowInstruction::Make(args) => match make(program_id, accounts, args, rent_minimum) {
            Ok(out) => Ok(EscrowEffects::Made(out)),
            Err(e) => Err(e),
        },
        EscrowInstruction::Take => match take(program_id, accounts) {
            Ok(out) => Ok(EscrowEffects::Taken(out)),
            Err(e) => Err(e),
        },
        EscrowInstruction::Refund => match refund(program_id, accounts) {
            Ok(out) => Ok(EscrowEffects::Refunded(out)),
            Err(e) => Err(e),
        },
    }
}

} // verus!

