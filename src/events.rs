use vstd::prelude::*;

use crate::pubkey::Pubkey;

verus! {

/// A payment was settled and recorded.
#[derive(Clone, Copy, Debug, PartialEq, Eq)]
pub struct PaymentProcessed {
    pub payer: Pubkey,
    /// The address of the merchant record paid.
    pub merchant: Pubkey,
    /// The gross amount.
    pub amount: u64,
    pub fee: u64,
    /// The mint paid in, or the default key for the native asset.
    pub token: Pubkey,
    pub payment_id: u64,
    pub timestamp: i64,
}

/// A merchant record was created.
#[derive(Clone, Debug, PartialEq, Eq)]
pub struct MerchantRegistered {
    pub owner: Pubkey,
    pub merchant: Pubkey,
    pub settlement_wallet: Pubkey,
    pub settlement_token: Pubkey,
    pub name: String,
    pub timestamp: i64,
}

impl MerchantRegistered {
    /// A copy of this notification.
    pub fn copied(&self) -> (r: MerchantRegistered)
        ensures
            r == *self,
    {
        MerchantRegistered {
            owner: self.owner,
            merchant: self.merchant,
            settlement_wallet: self.settlement_wallet,
            settlement_token: self.settlement_token,
            name: self.name.clone(),
            timestamp: self.timestamp,
        }
    }
}

/// A merchant record was changed; each field that was given is the new value.
#[derive(Clone, Debug, PartialEq, Eq)]
pub struct MerchantUpdated {
    pub owner: Pubkey,
    pub merchant: Pubkey,
    pub old_name: String,
    pub new_name: Option<String>,
    pub settlement_wallet: Option<Pubkey>,
    pub settlement_token: Option<Pubkey>,
    pub swap_enabled: Option<bool>,
    pub timestamp: i64,
}

impl MerchantUpdated {
    /// A copy of this notification.
    pub fn copied(&self) -> (r: MerchantUpdated)
        ensures
            r == *self,
    {
        let new_name = match &self.new_name {
            Some(n) => Some(n.clone()),
            None => None,
        };
        MerchantUpdated {
            owner: self.owner,
            merchant: self.merchant,
            old_name: self.old_name.clone(),
            new_name,
            settlement_wallet: self.settlement_wallet,
            settlement_token: self.settlement_token,
            swap_enabled: self.swap_enabled,
            timestamp: self.timestamp,
        }
    }
}

/// The fee rate was changed.
#[derive(Clone, Copy, Debug, PartialEq, Eq)]
pub struct FeeUpdated {
    pub admin: Pubkey,
    pub old_fee_bps: u16,
    pub new_fee_bps: u16,
    pub timestamp: i64,
}

/// The fee wallet was changed.
#[derive(Clone, Copy, Debug, PartialEq, Eq)]
pub struct FeeWalletUpdated {
    pub admin: Pubkey,
    pub old_fee_wallet: Pubkey,
    pub new_fee_wallet: Pubkey,
    pub timestamp: i64,
}

/// The pause flag was set or cleared.
#[derive(Clone, Copy, Debug, PartialEq, Eq)]
pub struct PausedStatusUpdated {
    pub admin: Pubkey,
    pub paused: bool,
    pub timestamp: i64,
}

/// The admin identity was replaced.
#[derive(Clone, Copy, Debug, PartialEq, Eq)]
pub struct AdminUpdated {
    pub old_admin: Pubkey,
    pub new_admin: Pubkey,
    pub timestamp: i64,
}

/// The configuration record was created.
#[derive(Clone, Copy, Debug, PartialEq, Eq)]
pub struct GlobalStateInitialized {
    pub admin: Pubkey,
    pub fee_bps: u16,
    pub fee_wallet: Pubkey,
    pub timestamp: i64,
}

/// Any notification of the gateway, as kept in its log.
#[derive(Clone, Debug, PartialEq, Eq)]
pub enum Event {
    GlobalStateInitialized(GlobalStateInitialized),
    MerchantRegistered(MerchantRegistered),
    MerchantUpdated(MerchantUpdated),
    FeeUpdated(FeeUpdated),
    FeeWalletUpdated(FeeWalletUpdated),
    PausedStatusUpdated(PausedStatusUpdated),
    AdminUpdated(AdminUpdated),
    PaymentProcessed(PaymentProcessed),
}

} // verus!
