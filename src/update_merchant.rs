use vstd::prelude::*;

use crate::errors::ErrorCode;
use crate::events::MerchantUpdated;
use crate::pubkey::Pubkey;
use crate::state::{check_name, name_fits, Merchant};

verus! {

/// Whether a merchant's settlement token may change once it names a token. The
/// gateway is deployed with one of the two.
#[derive(Clone, Copy, Debug, PartialEq, Eq, Structural)]
pub enum TokenPolicy {
    /// The owner may set any settlement token at any time.
    Mutable,
    /// Once the settlement token is not the default key, it cannot be changed.
    FixedOnceSet,
}

/// The signer, the record's address and host values that come with an update.
#[derive(Clone, Copy, Debug, PartialEq, Eq)]
pub struct UpdateMerchant {
    /// The address of the merchant record.
    pub merchant: Pubkey,
    /// The signer, who must own the record.
    pub owner: Pubkey,
    /// The host's clock, in seconds.
    pub timestamp: i64,
}

/// Whether `policy` lets a record whose token is `current` take the token `requested`.
pub open spec fn token_change_allowed(
    policy: TokenPolicy,
    current: Pubkey,
    requested: Option<Pubkey>,
) -> bool {
    match requested {
        None => true,
        Some(t) => policy == TokenPolicy::Mutable || current.is_default() || t == current,
    }
}

/// Why an update is refused, if it is: the signer does not own the record, the new name
/// does not fit, or the policy keeps the token.
pub open spec fn update_error(
    merchant: Merchant,
    ctx: UpdateMerchant,
    policy: TokenPolicy,
    new_name: Option<String>,
    settlement_token: Option<Pubkey>,
) -> Option<ErrorCode> {
    if merchant.owner != ctx.owner {
        Some(ErrorCode::Unauthorized)
    } else if new_name matches Some(n) && !name_fits(n@) {
        Some(ErrorCode::NameTooLong)
    } else if !token_change_allowed(policy, merchant.settlement_token, settlement_token) {
        Some(ErrorCode::InvalidToken)
    } else {
        None
    }
}

/// `v` where it is given, else `current`.
pub open spec fn given_or<T>(v: Option<T>, current: T) -> T {
    match v {
        Some(x) => x,
        None => current,
    }
}

/// `merchant` with the fields that are given replaced.
pub open spec fn apply_update(
    merchant: Merchant,
    new_name: Option<String>,
    settlement_wallet: Option<Pubkey>,
    settlement_token: Option<Pubkey>,
    swap_enabled: Option<bool>,
) -> Merchant {
    Merchant {
        name: given_or(new_name, merchant.name),
        settlement_wallet: given_or(settlement_wallet, merchant.settlement_wallet),
        settlement_token: given_or(settlement_token, merchant.settlement_token),
        swap_enabled: given_or(swap_enabled, merchant.swap_enabled),
        ..merchant
    }
}

/// The notification of an update of `merchant`.
pub open spec fn update_event(
    merchant: Merchant,
    ctx: UpdateMerchant,
    new_name: Option<String>,
    settlement_wallet: Option<Pubkey>,
    settlement_token: Option<Pubkey>,
    swap_enabled: Option<bool>,
) -> MerchantUpdated {
    MerchantUpdated {
        owner: ctx.owner,
        merchant: ctx.merchant,
        old_name: merchant.name,
        new_name,
        settlement_wallet,
        settlement_token,
        swap_enabled,
        timestamp: ctx.timestamp,
    }
}

/// Changes the fields of a merchant record that are given and keeps the others.
/// Refused, changing nothing, with the error of `update_error`.
pub fn update_merchant(
    merchant: &mut Merchant,
    ctx: &UpdateMerchant,
    policy: TokenPolicy,
    new_name: Option<String>,
    settlement_wallet: Option<Pubkey>,
    settlement_token: Option<Pubkey>,
    swap_enabled: Option<bool>,
) -> (r: Result<MerchantUpdated, ErrorCode>)
    ensures
        r is Err <==> update_error(*old(merchant), *ctx, policy, new_name, settlement_token) is Some,
        r matches Err(e) ==> update_error(*old(merchant), *ctx, policy, new_name, settlement_token)
            == Some(e),
        r is Err ==> *final(merchant) == *old(merchant),
        r matches Ok(event) ==> {
            &&& *final(merchant) == apply_update(
                *old(merchant),
                new_name,
                settlement_wallet,
                settlement_token,
                swap_enabled,
            )
            &&& event == update_event(
                *old(merchant),
                *ctx,
                new_name,
                settlement_wallet,
                settlement_token,
                swap_enabled,
            )
        },
        old(merchant).wf() ==> final(merchant).wf(),
{
    if merchant.owner != ctx.owner {
        return Err(ErrorCode::Unauthorized);
    }
    if let Some(n) = &new_name {
        if !check_name(n) {
            return Err(ErrorCode::NameTooLong);
        }
    }
    if let Some(t) = settlement_token {
        if matches!(policy, TokenPolicy::FixedOnceSet) && !merchant.settlement_token.is_zero()
            && t != merchant.settlement_token {
            return Err(ErrorCode::InvalidToken);
        }
    }
    let event_name = match &new_name {
        Some(n) => Some(n.clone()),
        None => None,
    };
    let old_name = merchant.name.clone();
    if let Some(n) = new_name {
        merchant.name = n;
    }
    if let Some(wallet) = settlement_wallet {
        merchant.settlement_wallet = wallet;
    }
    if let Some(token) = settlement_token {
        merchant.settlement_token = token;
    }
    if let Some(enabled) = swap_enabled {
        merchant.swap_enabled = enabled;
    }
    Ok(
        MerchantUpdated {
            owner: ctx.owner,
            merchant: ctx.merchant,
            old_name,
            new_name: event_name,
            settlement_wallet,
            settlement_token,
            swap_enabled,
            timestamp: ctx.timestamp,
        },
    )
}

} // verus!
