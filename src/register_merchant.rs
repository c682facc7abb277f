use vstd::prelude::*;

use crate::errors::ErrorCode;
use crate::events::MerchantRegistered;
use crate::pubkey::Pubkey;
use crate::state::{check_name, name_fits, Merchant};

verus! {

/// The signer, the new record's address and host values that come with a registration.
#[derive(Clone, Copy, Debug, PartialEq, Eq)]
pub struct RegisterMerchant {
    /// The address of the new merchant record.
    pub merchant: Pubkey,
    /// The signer, who owns the new record.
    pub owner: Pubkey,
    /// The bump seed of the record's address.
    pub bump: u8,
    /// The host's clock, in seconds.
    pub timestamp: i64,
}

/// Creates a merchant record owned by the signer, which settles to `settlement_wallet`
/// in `settlement_token` (the default key for the native asset) and does not take the
/// native asset in place of its token. A name longer than 32 bytes is refused with
/// `NameTooLong`.
pub fn register_merchant(
    ctx: &RegisterMerchant,
    settlement_wallet: Pubkey,
    settlement_token: Pubkey,
    name: String,
) -> (r: Result<(Merchant, MerchantRegistered), ErrorCode>)
    ensures
        r is Ok <==> name_fits(name@),
        r matches Err(e) ==> e == ErrorCode::NameTooLong,
        r matches Ok((merchant, event)) ==> {
            &&& merchant.owner == ctx.owner
            &&& merchant.settlement_wallet == settlement_wallet
            &&& merchant.settlement_token == settlement_token
            &&& !merchant.swap_enabled
            &&& merchant.name@ == name@
            &&& merchant.bump == ctx.bump
            &&& merchant.wf()
            &&& event.owner == ctx.owner
            &&& event.merchant == ctx.merchant
            &&& event.settlement_wallet == settlement_wallet
            &&& event.settlement_token == settlement_token
            &&& event.name@ == name@
            &&& event.timestamp == ctx.timestamp
        },
{
    if !check_name(&name) {
        return Err(ErrorCode::NameTooLong);
    }
    let event = MerchantRegistered {
        owner: ctx.owner,
        merchant: ctx.merchant,
        settlement_wallet,
        settlement_token,
        name: name.clone(),
        timestamp: ctx.timestamp,
    };
    let merchant = Merchant {
        owner: ctx.owner,
        settlement_wallet,
        settlement_token,
        swap_enabled: false,
        name,
        bump: ctx.bump,
    };
    Ok((merchant, event))
}

} // verus!
