use vstd::prelude::*;
use crate::codec::zero_vec;
use crate::error::ProtocolError;
use crate::keys::{Pubkey, SYSTEM_PROGRAM_ID};
use crate::token::TokenAccount;

verus! {

/// What one account's buffer holds in the snapshot handed to a handler:
/// either raw bytes (a state record, a mint's metadata, or nothing), or a
/// custody account in its typed form — the custody service owns that
/// layout, so the snapshot carries it already interpreted.
pub enum AccountData {
    Bytes(Vec<u8>),
    Token(TokenAccount),
}

/// One account of the snapshot supplied by the host runtime for a single
/// instruction invocation, exclusively borrowed for its duration.
pub struct Account {
    /// The account's address.
    pub key: Pubkey,
    /// Its balance in the host's native unit.
    pub lamports: u64,
    /// The program that owns the account.
    pub owner: Pubkey,
    /// Whether this account signed the invocation.
    pub is_signer: bool,
    /// Whether the invocation may write to this account.
    pub is_writable: bool,
    /// The account's contents.
    pub data: AccountData,
}

/// An account that the allocation primitive would accept as a creation
/// target: never funded, never assigned, no contents.
pub open spec fn spec_untouched(a: Account) -> bool {
    &&& a.lamports == 0
    &&& a.owner@ == SYSTEM_PROGRAM_ID@
    &&& (a.data matches AccountData::Bytes(b) && b@.len() == 0)
}

/// Creates a new state-record account: the payer funds the fee-exempt
/// minimum for the record's size, the new account is owned by `owner` and
/// holds exactly the record bytes. Succeeds exactly when the target is
/// untouched and the payer can cover the minimum; a failure changes nothing.
pub fn create_record_account(
    payer_lamports: u64,
    target: &Account,
    owner: &Pubkey,
    rent_minimum: u64,
    record: Vec<u8>,
) -> (r: Result<(u64, Account), ProtocolError>)
    ensures
        r is Ok <==> (spec_untouched(*target) && rent_minimum <= payer_lamports),
        r matches Ok((pl, a)) ==> (pl == payer_lamports - rent_minimum && a.key == target.key
            && a.lamports == rent_minimum && a.owner@ == owner@ && a.is_signer == target.is_signer
            && a.is_writable == target.is_writable && (a.data matches AccountData::Bytes(b) && b
            == record)),
        !spec_untouched(*target) ==> r == Err::<(u64, Account), ProtocolError>(
            ProtocolError::InvariantViolation,
        ),
        (spec_untouched(*target) && rent_minimum > payer_lamports) ==> r == Err::<
            (u64, Account),
            ProtocolError,
        >(ProtocolError::ResourceUnavailable),
{
    let untouched = target.lamports == 0 && crate::keys::key_eq(&target.owner, &SYSTEM_PROGRAM_ID)
        && (match &target.data {
        AccountData::Bytes(b) => b.len() == 0,
        AccountData::Token(_) => false,
    });
    if !untouched {
        return Err(ProtocolError::InvariantViolation);
    }
    if rent_minimum > payer_lamports {
        return Err(ProtocolError::ResourceUnavailable);
    }
    let created = Account {
        key: target.key,
        lamports: rent_minimum,
        owner: *owner,
        is_signer: target.is_signer,
        is_writable: target.is_writable,
        data: AccountData::Bytes(record),
    };
    Ok((payer_lamports - rent_minimum, created))
}

/// Closes a record account: zeroes its entire buffer and moves its full
/// balance to the recipient, leaving the account absent. Fails only when the
/// recipient's balance would overflow, and then changes nothing.
pub fn close_record_account(account: &Account, recipient_lamports: u64) -> (r: Result<
    (u64, Account),
    ProtocolError,
>)
    ensures
        r is Ok <==> recipient_lamports + account.lamports <= u64::MAX,
        r matches Ok((rl, a)) ==> (rl == recipient_lamports + account.lamports && a.lamports == 0
            && a.key == account.key && a.owner == account.owner && (a.data
            matches AccountData::Bytes(b) && b@.len() == spec_account_data_len(*account)
            && (forall|i: int| 0 <= i < b@.len() ==> b@[i] == 0u8))),
        r is Err ==> r == Err::<(u64, Account), ProtocolError>(ProtocolError::ArithmeticOverflow),
{
    if recipient_lamports > u64::MAX - account.lamports {
        return Err(ProtocolError::ArithmeticOverflow);
    }
    let len: usize = match &account.data {
        AccountData::Bytes(b) => b.len(),
        AccountData::Token(_) => 0,
    };
    let zeroed = Account {
        key: account.key,
        lamports: 0,
        owner: account.owner,
        is_signer: account.is_signer,
        is_writable: account.is_writable,
        data: AccountData::Bytes(zero_vec(len)),
    };
    Ok((recipient_lamports + account.lamports, zeroed))
}

/// The buffer length of an account's contents; a typed custody account
/// carries no raw buffer of its own here.
pub open spec fn spec_account_data_len(a: Account) -> int {
    match a.data {
        AccountData::Bytes(b) => b@.len() as int,
        AccountData::Token(_) => 0,
    }
}

} // verus!
