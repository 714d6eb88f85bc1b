use vstd::prelude::*;

use crate::account::{Account, Address};
use crate::campaign::{admits, finish_outcome, CampaignAccount, CampaignError};
use crate::transfer::{donate_outcome, withdraw_outcome};

verus! {

/// One request against a campaign, with the accounts it names.
#[derive(Clone, Copy, Debug)]
pub enum Operation {
    Donate { donor: Account, amount: u64 },
    Withdraw { caller: Account, reserve: u64, amount: u64 },
    Finish { caller: Address },
}

/// The campaign after one operation, whether it succeeded or was rejected.
pub open spec fn step(c: CampaignAccount, op: Operation) -> CampaignAccount {
    match op {
        Operation::Donate { donor, amount } => donate_outcome(c, donor, amount).1,
        Operation::Withdraw { caller, reserve, amount } => withdraw_outcome(
            c,
            caller,
            reserve,
            amount,
        ).1,
        Operation::Finish { caller } => finish_outcome(c, caller).1,
    }
}

/// The campaign after a sequence of operations, applied in order.
pub open spec fn run(c: CampaignAccount, ops: Seq<Operation>) -> CampaignAccount
    decreases ops.len(),
{
    if ops.len() == 0 {
        c
    } else {
        step(run(c, ops.drop_last()), ops.last())
    }
}

/// The sum of a sequence of amounts.
pub open spec fn total(amounts: Seq<u64>) -> int
    decreases amounts.len(),
{
    if amounts.len() == 0 {
        0
    } else {
        total(amounts.drop_last()) + amounts.last()
    }
}

/// The campaign after donations by `donors[i]` of `amounts[i]`, in order, or
/// `None` where one of them was rejected.
pub open spec fn donate_all(c: CampaignAccount, donors: Seq<Account>, amounts: Seq<u64>) -> Option<
    CampaignAccount,
>
    decreases amounts.len(),
{
    if amounts.len() == 0 {
        Some(c)
    } else if donors.len() != amounts.len() {
        None
    } else {
        match donate_all(c, donors.drop_last(), amounts.drop_last()) {
            None => None,
            Some(mid) => {
                let (r, next, _) = donate_outcome(mid, donors.last(), amounts.last());
                if r is Ok {
                    Some(next)
                } else {
                    None
                }
            },
        }
    }
}

/// After a run of donations to an open campaign that all succeed, the
/// donation total and the campaign's custody have each grown by exactly the
/// sum of the amounts, and the campaign is still open.
pub proof fn donations_add_up(c: CampaignAccount, donors: Seq<Account>, amounts: Seq<u64>)
    requires
        !c.data.finished,
        donate_all(c, donors, amounts) is Some,
    ensures
        ({
            let after = donate_all(c, donors, amounts)->Some_0;
            &&& after.data.amount_donated == c.data.amount_donated + total(amounts)
            &&& after.lamports == c.lamports + total(amounts)
            &&& after.data.admin == c.data.admin
            &&& !after.data.finished
        }),
    decreases amounts.len(),
{
    if amounts.len() > 0 {
        donations_add_up(c, donors.drop_last(), amounts.drop_last());
    }
}

/// A withdrawal never takes the campaign's custody below the reserve: one that
/// would by an admin is refused with `InsufficientFunds`, and leaves the
/// campaign and the caller as they were.
pub proof fn withdraw_keeps_reserve(c: CampaignAccount, caller: Account, reserve: u64, amount: u64)
    ensures
        ({
            let (r, after, caller_after) = withdraw_outcome(c, caller, reserve, amount);
            &&& r is Ok ==> after.lamports >= reserve
            &&& admits(c.data, caller.key) && c.lamports < reserve + amount ==> {
                &&& r == Err::<(), CampaignError>(CampaignError::InsufficientFunds)
                &&& after == c
                &&& caller_after == caller
            }
        }),
{
}

/// Only the admin can withdraw; anyone else is refused with `Unauthorized`,
/// and neither balance nor the record changes.
pub proof fn withdraw_needs_admin(c: CampaignAccount, caller: Account, reserve: u64, amount: u64)
    ensures
        ({
            let (r, after, caller_after) = withdraw_outcome(c, caller, reserve, amount);
            &&& r is Ok ==> admits(c.data, caller.key)
            &&& !admits(c.data, caller.key) ==> {
                &&& r == Err::<(), CampaignError>(CampaignError::Unauthorized)
                &&& after == c
                &&& caller_after == caller
            }
        }),
{
}

/// A finished campaign stays finished, its admin never changes, and its
/// donation total never decreases, whatever operations follow.
pub proof fn record_invariants(c: CampaignAccount, ops: Seq<Operation>)
    ensures
        c.data.finished ==> run(c, ops).data.finished,
        run(c, ops).data.admin == c.data.admin,
        run(c, ops).data.amount_donated >= c.data.amount_donated,
    decreases ops.len(),
{
    if ops.len() > 0 {
        record_invariants(c, ops.drop_last());
    }
}

/// Finishing succeeds only for the admin; once it has, every later donation,
/// after any operations, is refused with `CampaignClosed` and changes nothing.
pub proof fn finish_closes_donations(
    c: CampaignAccount,
    caller: Address,
    ops: Seq<Operation>,
    donor: Account,
    amount: u64,
)
    requires
        finish_outcome(c, caller).0 is Ok,
    ensures
        admits(c.data, caller),
        ({
            let later = run(finish_outcome(c, caller).1, ops);
            donate_outcome(later, donor, amount) == (
                Err::<(), CampaignError>(CampaignError::CampaignClosed),
                later,
                donor,
            )
        }),
{
    record_invariants(finish_outcome(c, caller).1, ops);
}

} // verus!
