use vstd::prelude::*;

use crate::account::Account;
use crate::campaign::{admits, is_admin, CampaignAccount, CampaignError, Campaign};
use crate::rent::{minimum_reserve, default_minimum_balance, MAX_ACCOUNT_DATA_LEN};

verus! {

/// The accounts of a `donate` call: the campaign and the donor.
#[derive(Clone, Debug)]
pub struct Donate {
    pub campaign: CampaignAccount,
    pub user: Account,
}

/// The accounts of a `withdraw` call: the campaign and the caller, who
/// receives the funds.
#[derive(Clone, Debug)]
pub struct Withdraw {
    pub campaign: CampaignAccount,
    pub user: Account,
}

/// What a donation of `amount` by `donor` returns, and what it leaves of the
/// campaign and of the donor's account.
pub open spec fn donate_outcome(c: CampaignAccount, donor: Account, amount: u64) -> (
    Result<(), CampaignError>,
    CampaignAccount,
    Account,
) {
    if c.data.finished {
        (Err(CampaignError::CampaignClosed), c, donor)
    } else if amount == 0 {
        (Err(CampaignError::InvalidAmount), c, donor)
    } else if donor.lamports < amount {
        (Err(CampaignError::InsufficientCallerBalance), c, donor)
    } else if c.lamports + amount > u64::MAX || c.data.amount_donated + amount > u64::MAX {
        (Err(CampaignError::ArithmeticOverflow), c, donor)
    } else {
        (
            Ok(()),
            CampaignAccount {
                lamports: (c.lamports + amount) as u64,
                data: Campaign {
                    amount_donated: (c.data.amount_donated + amount) as u64,
                    ..c.data
                },
                ..c
            },
            Account { lamports: (donor.lamports - amount) as u64, ..donor },
        )
    }
}

/// What a withdrawal of `amount` by `caller` returns, and what it leaves of the
/// campaign and of the caller's account, where `reserve` is the minimum
/// balance the host demands of the campaign's record.
pub open spec fn withdraw_outcome(c: CampaignAccount, caller: Account, reserve: u64, amount: u64) -> (
    Result<(), CampaignError>,
    CampaignAccount,
    Account,
) {
    if !admits(c.data, caller.key) {
        (Err(CampaignError::Unauthorized), c, caller)
    } else if c.lamports < reserve + amount {
        (Err(CampaignError::InsufficientFunds), c, caller)
    } else if amount == 0 {
        (Err(CampaignError::InvalidAmount), c, caller)
    } else if caller.lamports + amount > u64::MAX {
        (Err(CampaignError::ArithmeticOverflow), c, caller)
    } else {
        (
            Ok(()),
            CampaignAccount { lamports: (c.lamports - amount) as u64, ..c },
            Account { lamports: (caller.lamports + amount) as u64, ..caller },
        )
    }
}

/// Moves `amount` from the donor into the campaign's custody and adds it to
/// the campaign's donation total, as one step: every check is made before
/// either changes.
pub fn donate(ctx: &mut Donate, amount: u64) -> (r: Result<(), CampaignError>)
    ensures
        (r, final(ctx).campaign, final(ctx).user) == donate_outcome(
            old(ctx).campaign,
            old(ctx).user,
            amount,
        ),
{
    if ctx.campaign.data.finished {
        return Err(CampaignError::CampaignClosed);
    }
    if amount == 0 {
        return Err(CampaignError::InvalidAmount);
    }
    if ctx.user.lamports < amount {
        return Err(CampaignError::InsufficientCallerBalance);
    }
    let custody = match ctx.campaign.lamports.checked_add(amount) {
        Some(v) => v,
        None => {
            return Err(CampaignError::ArithmeticOverflow);
        },
    };
    let total = match ctx.campaign.data.amount_donated.checked_add(amount) {
        Some(v) => v,
        None => {
            return Err(CampaignError::ArithmeticOverflow);
        },
    };
    ctx.user.lamports = ctx.user.lamports - amount;
    ctx.campaign.lamports = custody;
    ctx.campaign.data.amount_donated = total;
    Ok(())
}

/// Moves `amount` from the campaign's custody to its admin, keeping at least
/// `reserve` in the campaign. The record itself is left as it is, finished or
/// not.
pub fn withdraw_with_reserve(ctx: &mut Withdraw, reserve: u64, amount: u64) -> (r: Result<
    (),
    CampaignError,
>)
    ensures
        (r, final(ctx).campaign, final(ctx).user) == withdraw_outcome(
            old(ctx).campaign,
            old(ctx).user,
            reserve,
            amount,
        ),
{
    if !is_admin(&ctx.campaign.data, &ctx.user.key) {
        return Err(CampaignError::Unauthorized);
    }
    if ctx.campaign.lamports < reserve || ctx.campaign.lamports - reserve < amount {
        return Err(CampaignError::InsufficientFunds);
    }
    if amount == 0 {
        return Err(CampaignError::InvalidAmount);
    }
    let received = match ctx.user.lamports.checked_add(amount) {
        Some(v) => v,
        None => {
            return Err(CampaignError::ArithmeticOverflow);
        },
    };
    ctx.campaign.lamports = ctx.campaign.lamports - amount;
    ctx.user.lamports = received;
    Ok(())
}

/// Moves `amount` from the campaign's custody to its admin, keeping in the
/// campaign the default-rent minimum reserve for the size of its record.
pub fn withdraw(ctx: &mut Withdraw, amount: u64) -> (r: Result<(), CampaignError>)
    requires
        old(ctx).campaign.data_len <= MAX_ACCOUNT_DATA_LEN,
    ensures
        (r, final(ctx).campaign, final(ctx).user) == withdraw_outcome(
            old(ctx).campaign,
            old(ctx).user,
            default_minimum_balance(old(ctx).campaign.data_len as nat) as u64,
            amount,
        ),
{
    let reserve = minimum_reserve(ctx.campaign.data_len);
    withdraw_with_reserve(ctx, reserve, amount)
}

} // verus!
