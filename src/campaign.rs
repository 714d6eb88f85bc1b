use vstd::prelude::*;

use crate::account::{find_program_address, program_address_of, Account, Address};
use crate::rent::{default_minimum_balance, minimum_reserve};

verus! {

/// Size of the data region allocated for every campaign record, generous
/// enough for its name and description.
pub const CAMPAIGN_SPACE: usize = 90000;

/// The persistent record of one fundraising effort.
#[derive(Clone, Debug)]
pub struct Campaign {
    pub admin: Address,
    pub name: String,
    pub description: String,
    pub amount_donated: u64,
    pub finished: bool,
}

/// Why an operation on a campaign was rejected. A rejected operation changes
/// neither the record nor any balance.
#[derive(Clone, Copy, Debug, PartialEq, Eq, Structural)]
pub enum CampaignError {
    /// The caller is not the campaign's admin.
    Unauthorized,
    /// A donation was attempted after the campaign was finished.
    CampaignClosed,
    /// A withdrawal would take the campaign below its minimum reserve.
    InsufficientFunds,
    /// The donor does not hold the amount donated.
    InsufficientCallerBalance,
    /// The campaign record could not be allocated.
    AllocationError,
    /// A donation or withdrawal of zero.
    InvalidAmount,
    /// A balance or the donation total would leave the range of `u64`.
    ArithmeticOverflow,
}

/// A campaign record as held by the host ledger: its address, the balance in
/// its custody, the size of its data region and the record itself.
#[derive(Clone, Debug)]
pub struct CampaignAccount {
    pub key: Address,
    pub lamports: u64,
    pub data_len: usize,
    pub data: Campaign,
}

/// The accounts of a `create` call: the program that owns campaign records,
/// the address presented for the new record, what that address holds now, and
/// the creator, who pays for the record.
#[derive(Clone, Debug)]
pub struct Create {
    pub program_id: Address,
    pub campaign_key: Address,
    pub campaign: Option<CampaignAccount>,
    pub user: Account,
}

/// The accounts of a `finish_campaign` call.
#[derive(Clone, Debug)]
pub struct FinishCampaign {
    pub campaign: CampaignAccount,
    pub user: Account,
}

/// Whether `caller` may withdraw from and finish the campaign.
pub open spec fn admits(c: Campaign, caller: Address) -> bool {
    c.admin.same(caller)
}

/// The seed tag that, with the creator's address, addresses a campaign record:
/// the bytes of `CampaignSeed`.
pub open spec fn campaign_seed() -> Seq<u8> {
    seq![67u8, 97u8, 109u8, 112u8, 97u8, 105u8, 103u8, 110u8, 83u8, 101u8, 101u8, 100u8]
}

/// Whether the address the host derived is `key`.
pub open spec fn derived_as(derived: Option<Address>, key: Address) -> bool {
    derived is Some && derived->Some_0.same(key)
}

/// The address of the campaign record that `creator` may create under
/// `program_id`, if the host finds one.
pub fn campaign_address(program_id: &Address, creator: &Address) -> (r: Option<Address>)
    ensures
        r is Some <==> program_address_of(campaign_seed(), creator.bytes@, program_id.bytes@) is Some,
        r is Some ==> Some(r->Some_0.bytes@) == program_address_of(
            campaign_seed(),
            creator.bytes@,
            program_id.bytes@,
        ),
{
    let tag: [u8; 12] = [67u8, 97u8, 109u8, 112u8, 97u8, 105u8, 103u8, 110u8, 83u8, 101u8, 101u8, 100u8];
    let seed = tag.as_slice();
    assert(seed@ =~= campaign_seed());
    find_program_address(seed, creator, program_id)
}

/// The record as `create` writes it for `creator`.
pub open spec fn new_campaign_account(
    key: Address,
    creator: Address,
    reserve: u64,
    name: String,
    description: String,
) -> CampaignAccount {
    CampaignAccount {
        key,
        lamports: reserve,
        data_len: CAMPAIGN_SPACE,
        data: Campaign { admin: creator, name, description, amount_donated: 0, finished: false },
    }
}

/// What `finish_campaign` by `caller` returns and leaves of the campaign.
pub open spec fn finish_outcome(c: CampaignAccount, caller: Address) -> (
    Result<(), CampaignError>,
    CampaignAccount,
) {
    if !admits(c.data, caller) {
        (Err(CampaignError::Unauthorized), c)
    } else {
        (Ok(()), CampaignAccount { data: Campaign { finished: true, ..c.data }, ..c })
    }
}

/// Whether `caller` is the admin of `campaign`.
pub fn is_admin(campaign: &Campaign, caller: &Address) -> (r: bool)
    ensures
        r == admits(*campaign, *caller),
{
    campaign.admin == *caller
}

/// Creates the campaign record at `ctx.campaign_key` with the creator as its
/// admin, funded by the creator with `reserve`, the minimum reserve the host
/// demands for a record of `CAMPAIGN_SPACE` bytes. `derived` is the address
/// the host derived for the creator's record; the record is made only there.
pub fn create_with_reserve(
    ctx: &mut Create,
    derived: Option<Address>,
    reserve: u64,
    name: String,
    description: String,
) -> (r: Result<(), CampaignError>)
    ensures
        r is Ok <==> derived_as(derived, old(ctx).campaign_key) && old(ctx).campaign is None
            && old(ctx).user.lamports >= reserve,
        r is Err ==> r == Err::<(), CampaignError>(CampaignError::AllocationError) && *final(ctx)
            == *old(ctx),
        r is Ok ==> final(ctx).campaign == Some(
            new_campaign_account(old(ctx).campaign_key, old(ctx).user.key, reserve, name, description),
        ) && final(ctx).user.key == old(ctx).user.key && final(ctx).user.lamports
            == old(ctx).user.lamports - reserve && final(ctx).campaign_key == old(ctx).campaign_key
            && final(ctx).program_id == old(ctx).program_id,
{
    let at_key = match derived {
        Some(a) => a == ctx.campaign_key,
        None => false,
    };
    if !at_key || ctx.campaign.is_some() || ctx.user.lamports < reserve {
        return Err(CampaignError::AllocationError);
    }
    ctx.user.lamports = ctx.user.lamports - reserve;
    ctx.campaign = Some(
        CampaignAccount {
            key: ctx.campaign_key,
            lamports: reserve,
            data_len: CAMPAIGN_SPACE,
            data: Campaign {
                admin: ctx.user.key,
                name,
                description,
                amount_donated: 0,
                finished: false,
            },
        },
    );
    Ok(())
}

/// Creates the creator's campaign record, funded by the creator with the
/// default-rent minimum reserve for `CAMPAIGN_SPACE` bytes. It fails with
/// `AllocationError` unless `ctx.campaign_key` is the address derived for the
/// creator, nothing is there yet, and the creator can pay the reserve.
pub fn create(ctx: &mut Create, name: String, description: String) -> (r: Result<
    (),
    CampaignError,
>)
    ensures
        ({
            let reserve = default_minimum_balance(CAMPAIGN_SPACE as nat);
            &&& r is Ok <==> program_address_of(
                campaign_seed(),
                old(ctx).user.key.bytes@,
                old(ctx).program_id.bytes@,
            ) == Some(old(ctx).campaign_key.bytes@) && old(ctx).campaign is None
                && old(ctx).user.lamports >= reserve
            &&& r is Err ==> r == Err::<(), CampaignError>(CampaignError::AllocationError)
                && *final(ctx) == *old(ctx)
            &&& r is Ok ==> final(ctx).campaign == Some(
                new_campaign_account(
                    old(ctx).campaign_key,
                    old(ctx).user.key,
                    reserve as u64,
                    name,
                    description,
                ),
            ) && final(ctx).user.key == old(ctx).user.key && final(ctx).user.lamports
                == old(ctx).user.lamports - reserve && final(ctx).campaign_key
                == old(ctx).campaign_key && final(ctx).program_id == old(ctx).program_id
        }),
{
    let derived = campaign_address(&ctx.program_id, &ctx.user.key);
    let reserve = minimum_reserve(CAMPAIGN_SPACE);
    create_with_reserve(ctx, derived, reserve, name, description)
}

/// Marks the campaign finished, which stops all further donations. Only the
/// admin may do so; finishing a finished campaign again succeeds and changes
/// nothing.
pub fn finish_campaign(ctx: &mut FinishCampaign) -> (r: Result<(), CampaignError>)
    ensures
        (r, final(ctx).campaign) == finish_outcome(old(ctx).campaign, old(ctx).user.key),
        final(ctx).user == old(ctx).user,
{
    if !is_admin(&ctx.campaign.data, &ctx.user.key) {
        return Err(CampaignError::Unauthorized);
    }
    ctx.campaign.data.finished = true;
    Ok(())
}

} // verus!
