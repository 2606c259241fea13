use vstd::prelude::*;
use crate::account::{Account, AccountData};
use crate::error::ProtocolError;
use crate::escrow::{spec_take_err, spec_take_ok, spec_take_post, TakeEffects};
use crate::escrow::{spec_escrow_refund_err, spec_escrow_refund_ok};
use crate::fundraiser::{
    spec_cap, spec_checker_ok, spec_contribute_amount, spec_contribute_ok, spec_contribute_post,
    spec_refund_ok, ContributeEffects,
};
use crate::state::{
    spec_contributor_amount, spec_fundraiser_amount_to_raise, spec_fundraiser_current,
};

verus! {

/// The sum of a sequence of contribution amounts.
pub open spec fn spec_sum(amounts: Seq<u64>) -> int
    decreases amounts.len(),
{
    if amounts.len() == 0 {
        0
    } else {
        spec_sum(amounts.drop_last()) + amounts.last()
    }
}

/// One successful contribution, seen at the record-and-vault level: the
/// record's current amount and the vault's balance grow by the same amount.
pub open spec fn spec_contribution_step(
    cur: int,
    vault: int,
    amount: u64,
    cur2: int,
    vault2: int,
) -> bool {
    &&& cur2 == cur + amount
    &&& vault2 == vault + amount
}

/// Every successful Contribute performs `spec_contribution_step`: what its
/// contract promises for the record buffer and the vault it returns.
pub proof fn lemma_contribute_is_step(accounts: Seq<Account>, args: Seq<u8>, out: ContributeEffects)
    requires
        spec_contribute_ok(accounts, args),
        spec_contribute_post(accounts, args, out),
    ensures
        accounts[1].data matches AccountData::Bytes(fd) ==> (
        accounts[4].data matches AccountData::Token(va) ==> spec_contribution_step(
            spec_fundraiser_current(fd@) as int,
            va.amount as int,
            spec_contribute_amount(args),
            spec_fundraiser_current(out.fundraiser_data@) as int,
            out.vault.amount as int,
        )),
{
}

/// Conservation: along any trace that starts with nothing contributed and
/// an empty vault and advances only by successful contribution steps, the
/// record's current amount equals the sum of all contributed amounts, and
/// the vault's balance equals the current amount.
pub proof fn lemma_conservation(trace: Seq<(int, int)>, amounts: Seq<u64>)
    requires
        trace.len() == amounts.len() + 1,
        trace[0].0 == 0,
        trace[0].1 == 0,
        forall|i: int|
            0 <= i < amounts.len() ==> spec_contribution_step(
                #[trigger] trace[i].0,
                trace[i].1,
                amounts[i],
                trace[i + 1].0,
                trace[i + 1].1,
            ),
    ensures
        trace.last().0 == spec_sum(amounts),
        trace.last().1 == trace.last().0,
    decreases amounts.len(),
{
    if amounts.len() > 0 {
        let n = amounts.len() as int;
        lemma_conservation(trace.drop_last(), amounts.drop_last());
        assert(trace.drop_last().last() == trace[n - 1]);
        assert(spec_contribution_step(
            trace[n - 1].0,
            trace[n - 1].1,
            amounts[n - 1],
            trace[n].0,
            trace[n].1,
        ));
        assert(trace.last() == trace[n]);
    }
}

/// Cap enforcement: a contribution that would push the contributor's
/// cumulative amount past the per-contributor ceiling is not accepted —
/// Contribute then returns an error, and a failed invocation leaves every
/// account untouched.
pub proof fn lemma_cap_enforcement(accounts: Seq<Account>, args: Seq<u8>)
    requires
        accounts.len() == 6,
        args.len() == 16,
        (accounts[1].data matches AccountData::Bytes(fd) && (
        accounts[3].data matches AccountData::Bytes(cd) && spec_contribute_amount(args)
            + spec_contributor_amount(cd@) > spec_cap(spec_fundraiser_amount_to_raise(fd@)))),
    ensures
        !spec_contribute_ok(accounts, args),
{
}

/// Mutual exclusivity: on one fixed record state, the release and the
/// refund cannot both be possible — Checker demands a reached goal, Refund
/// an unreached one.
pub proof fn lemma_mutual_exclusivity(
    checker_accounts: Seq<Account>,
    checker_args: Seq<u8>,
    refund_accounts: Seq<Account>,
    refund_args: Seq<u8>,
    now: i64,
    record: Seq<u8>,
)
    requires
        checker_accounts.len() == 5,
        refund_accounts.len() == 6,
        (checker_accounts[1].data matches AccountData::Bytes(b) && b@ == record),
        (refund_accounts[1].data matches AccountData::Bytes(b) && b@ == record),
    ensures
        !(spec_checker_ok(checker_accounts, checker_args) && spec_refund_ok(
            refund_accounts,
            refund_args,
            now,
        )),
{
}

/// Idempotent closure: an escrow record account that has been drained to
/// zero — as Take and Refund leave it — is absent, and a further Take on
/// it can only fail, with a malformed-input or authorization error.
pub proof fn lemma_take_after_close(program_id: Seq<u8>, accounts: Seq<Account>)
    requires
        accounts.len() == 11,
        accounts[4].lamports == 0,
    ensures
        !spec_take_ok(program_id, accounts),
        spec_take_err(program_id, accounts) == ProtocolError::MalformedInput || spec_take_err(
            program_id,
            accounts,
        ) == ProtocolError::AuthorizationFailure,
{
}

/// Idempotent closure, refund side: a drained escrow record account makes
/// any further Refund fail, with a malformed-input or authorization error.
pub proof fn lemma_refund_after_close(program_id: Seq<u8>, accounts: Seq<Account>)
    requires
        accounts.len() == 7,
        accounts[2].lamports == 0,
    ensures
        !spec_escrow_refund_ok(program_id, accounts),
        spec_escrow_refund_err(program_id, accounts) == ProtocolError::MalformedInput
            || spec_escrow_refund_err(program_id, accounts) == ProtocolError::AuthorizationFailure,
{
}

/// Idempotent closure, composed: the record a successful Take leaves
/// behind, placed into any further Take's snapshot, makes that Take fail.
pub proof fn lemma_take_not_twice(
    accounts: Seq<Account>,
    out: TakeEffects,
    program_id2: Seq<u8>,
    accounts2: Seq<Account>,
)
    requires
        spec_take_post(accounts, out),
        accounts2.len() == 11,
        accounts2[4] == out.escrow,
    ensures
        !spec_take_ok(program_id2, accounts2),
{
    lemma_take_after_close(program_id2, accounts2);
}

} // verus!
