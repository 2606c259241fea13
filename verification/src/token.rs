use vstd::prelude::*;
use spl_token::solana_program::program_pack::Pack;
use crate::error::ProtocolError;
use crate::keys::Pubkey;
use crate::pda::{derived_address, seeds_view};

verus! {

/// The custody-side view of a token account: the asset type it holds, the
/// authority entitled to move its balance, and the balance itself. The
/// balance is the ground truth for funds held; state records never duplicate
/// it, only track logical entitlements.
#[derive(Clone, Copy)]
pub struct TokenAccount {
    /// The asset type held.
    pub mint: Pubkey,
    /// The authority entitled to move the balance.
    pub authority: Pubkey,
    /// The balance.
    pub amount: u64,
}

/// The two authorization modes for a custody movement, kept as distinct
/// shapes so a transfer cannot accidentally use the wrong one: a human
/// principal consents by signing, while a vault's derived authority — which
/// has no key to sign with — is exercised by presenting its seed material.
pub enum TransferAuthority {
    /// The human principal authorizes: it must have signed the invocation.
    Direct { key: Pubkey, is_signer: bool },
    /// A derived address authorizes: the presented seed material must
    /// recompute to exactly that address.
    Delegated { key: Pubkey, seeds: Vec<Vec<u8>> },
}

/// When an authority may move a custody account's balance: a direct
/// authority must be the account's authority and a signer; a delegated one
/// must be the account's authority and the recomputation of its seed
/// material.
pub open spec fn spec_authority_ok(
    auth: TransferAuthority,
    account_authority: Seq<u8>,
    program_id: Seq<u8>,
) -> bool {
    match auth {
        TransferAuthority::Direct { key, is_signer } => is_signer && key@ == account_authority,
        TransferAuthority::Delegated { key, seeds } => key@ == account_authority
            && derived_address(seeds_view(seeds@), program_id) == Some(key@),
    }
}

/// Checks one authorization mode against a custody account's authority.
pub fn check_authority(
    program_id: &Pubkey,
    account_authority: &Pubkey,
    auth: &TransferAuthority,
) -> (r: bool)
    ensures
        r == spec_authority_ok(*auth, account_authority@, program_id@),
{
    match auth {
        TransferAuthority::Direct { key, is_signer } => {
            *is_signer && crate::keys::key_eq(key, account_authority)
        },
        TransferAuthority::Delegated { key, seeds } => {
            crate::keys::key_eq(key, account_authority)
                && crate::pda::validate_pda(seeds, program_id, key).is_ok()
        },
    }
}

/// Issues a transfer to the custody service, in the model: moves `amount`
/// from `source` to `dest`. Succeeds exactly when the authority is entitled
/// to move the source's balance, the asset types agree, the source holds
/// enough, and the destination balance does not overflow; checked in that
/// order, and a failure has no effect.
pub fn custody_transfer(
    program_id: &Pubkey,
    source: &TokenAccount,
    dest: &TokenAccount,
    authority: &TransferAuthority,
    amount: u64,
) -> (r: Result<(TokenAccount, TokenAccount), ProtocolError>)
    ensures
        r is Ok <==> (spec_authority_ok(*authority, source.authority@, program_id@)
            && source.mint@ == dest.mint@ && amount <= source.amount && dest.amount + amount
            <= u64::MAX),
        r matches Ok((s2, d2)) ==> (s2.amount == source.amount - amount && d2.amount == dest.amount
            + amount && s2.mint == source.mint && s2.authority == source.authority && d2.mint
            == dest.mint && d2.authority == dest.authority),
        !spec_authority_ok(*authority, source.authority@, program_id@) ==> r == Err::<
            (TokenAccount, TokenAccount),
            ProtocolError,
        >(ProtocolError::AuthorizationFailure),
        (spec_authority_ok(*authority, source.authority@, program_id@) && source.mint@
            != dest.mint@) ==> r == Err::<(TokenAccount, TokenAccount), ProtocolError>(
            ProtocolError::ExternalCallFailure,
        ),
        (spec_authority_ok(*authority, source.authority@, program_id@) && source.mint@
            == dest.mint@ && amount > source.amount) ==> r == Err::<
            (TokenAccount, TokenAccount),
            ProtocolError,
        >(ProtocolError::ResourceUnavailable),
        (spec_authority_ok(*authority, source.authority@, program_id@) && source.mint@
            == dest.mint@ && amount <= source.amount && dest.amount + amount > u64::MAX) ==> r
            == Err::<(TokenAccount, TokenAccount), ProtocolError>(ProtocolError::ArithmeticOverflow),
{
    if !check_authority(program_id, &source.authority, authority) {
        return Err(ProtocolError::AuthorizationFailure);
    }
    if !crate::keys::key_eq(&source.mint, &dest.mint) {
        return Err(ProtocolError::ExternalCallFailure);
    }
    if amount > source.amount {
        return Err(ProtocolError::ResourceUnavailable);
    }
    if dest.amount > u64::MAX - amount {
        return Err(ProtocolError::ArithmeticOverflow);
    }
    let s2 = TokenAccount {
        mint: source.mint,
        authority: source.authority,
        amount: source.amount - amount,
    };
    let d2 = TokenAccount { mint: dest.mint, authority: dest.authority, amount: dest.amount + amount };
    Ok((s2, d2))
}

/// What the custody service's mint interpreter returns for a buffer: the
/// mint's decimal-precision field, or nothing when the buffer is not a valid
/// initialized mint. The result depends on the buffer alone.
pub uninterp spec fn mint_decimals_of(data: Seq<u8>) -> Option<u8>;

/// Relies on spl_token::state::Mint::unpack: interprets an 82-byte mint
/// buffer and yields its decimal-precision field; rejects any other buffer
/// length, malformed optional-field tags, and uninitialized mints.
#[allow(deprecated)]
#[verifier::external_body]
pub fn unpack_mint_decimals(data: &Vec<u8>) -> (r: Option<u8>)
    ensures
        r == mint_decimals_of(data@),
        data@.len() != 82 ==> r is None,
{
    spl_token::state::Mint::unpack(data.as_slice()).ok().map(|m| m.decimals)
}

/// A transfer that also names the asset's decimal precision, which must be
/// read from the asset's own metadata: a claimed precision that differs from
/// the mint's own field is rejected before anything moves, closing the
/// decimal-confusion hole.
pub fn custody_transfer_checked(
    program_id: &Pubkey,
    source: &TokenAccount,
    dest: &TokenAccount,
    authority: &TransferAuthority,
    amount: u64,
    decimals: u8,
    mint_data: &Vec<u8>,
) -> (r: Result<(TokenAccount, TokenAccount), ProtocolError>)
    ensures
        r is Ok <==> (mint_decimals_of(mint_data@) == Some(decimals) && spec_authority_ok(
            *authority,
            source.authority@,
            program_id@,
        ) && source.mint@ == dest.mint@ && amount <= source.amount && dest.amount + amount
            <= u64::MAX),
        r matches Ok((s2, d2)) ==> (s2.amount == source.amount - amount && d2.amount == dest.amount
            + amount && s2.mint == source.mint && s2.authority == source.authority && d2.mint
            == dest.mint && d2.authority == dest.authority),
        mint_decimals_of(mint_data@) != Some(decimals) ==> r == Err::<
            (TokenAccount, TokenAccount),
            ProtocolError,
        >(ProtocolError::ExternalCallFailure),
        (mint_decimals_of(mint_data@) == Some(decimals) && !spec_authority_ok(
            *authority,
            source.authority@,
            program_id@,
        )) ==> r == Err::<(TokenAccount, TokenAccount), ProtocolError>(
            ProtocolError::AuthorizationFailure,
        ),
        (mint_decimals_of(mint_data@) == Some(decimals) && spec_authority_ok(
            *authority,
            source.authority@,
            program_id@,
        ) && source.mint@ != dest.mint@) ==> r == Err::<(TokenAccount, TokenAccount), ProtocolError>(
            ProtocolError::ExternalCallFailure,
        ),
        (mint_decimals_of(mint_data@) == Some(decimals) && spec_authority_ok(
            *authority,
            source.authority@,
            program_id@,
        ) && source.mint@ == dest.mint@ && amount > source.amount) ==> r == Err::<
            (TokenAccount, TokenAccount),
            ProtocolError,
        >(ProtocolError::ResourceUnavailable),
        (mint_decimals_of(mint_data@) == Some(decimals) && spec_authority_ok(
            *authority,
            source.authority@,
            program_id@,
        ) && source.mint@ == dest.mint@ && amount <= source.amount && dest.amount + amount
            > u64::MAX) ==> r == Err::<(TokenAccount, TokenAccount), ProtocolError>(
            ProtocolError::ArithmeticOverflow,
        ),
{
    let d = unpack_mint_decimals(mint_data);
    match d {
        Some(md) => {
            if md != decimals {
                return Err(ProtocolError::ExternalCallFailure);
            }
        },
        None => {
            return Err(ProtocolError::ExternalCallFailure);
        },
    }
    custody_transfer(program_id, source, dest, authority, amount)
}

/// Issues a close to the custody service, in the model: succeeds exactly
/// when the authority is entitled and the balance has already been drained
/// to zero. The caller then reclaims the closed account's rent balance.
pub fn custody_close(
    program_id: &Pubkey,
    account: &TokenAccount,
    authority: &TransferAuthority,
) -> (r: Result<(), ProtocolError>)
    ensures
        r is Ok <==> (spec_authority_ok(*authority, account.authority@, program_id@)
            && account.amount == 0),
        !spec_authority_ok(*authority, account.authority@, program_id@) ==> r == Err::<
            (),
            ProtocolError,
        >(ProtocolError::AuthorizationFailure),
        (spec_authority_ok(*authority, account.authority@, program_id@) && account.amount != 0)
            ==> r == Err::<(), ProtocolError>(ProtocolError::ExternalCallFailure),
{
    if !check_authority(program_id, &account.authority, authority) {
        return Err(ProtocolError::AuthorizationFailure);
    }
    if account.amount != 0 {
        return Err(ProtocolError::ExternalCallFailure);
    }
    Ok(())
}

} // verus!
