//! Crowdfunding campaigns: creating a campaign record, donating into its
//! custody, withdrawals by its admin that keep the host's minimum reserve,
//! and a one-way finish that stops donations. Every operation checks all its
//! conditions before it changes a balance or the record.

pub mod account;
pub mod campaign;
pub mod laws;
pub mod rent;
pub mod transfer;

pub use account::{Account, Address};
pub use campaign::{
    campaign_address, create, create_with_reserve, finish_campaign, is_admin, Campaign, CampaignAccount,
    CampaignError, Create, FinishCampaign, CAMPAIGN_SPACE,
};
pub use transfer::{donate, withdraw, withdraw_with_reserve, Donate, Withdraw};
