use vstd::prelude::*;

use crate::errors::ErrorCode;
use crate::events::{AdminUpdated, FeeUpdated, FeeWalletUpdated, PausedStatusUpdated};
use crate::pubkey::Pubkey;
use crate::state::{GlobalState, MAX_FEE_BPS};

verus! {

/// The signer and host values that come with a change of the configuration.
#[derive(Clone, Copy, Debug, PartialEq, Eq)]
pub struct AdminAuth {
    /// The signer, who must be the configuration's admin.
    pub admin: Pubkey,
    /// The host's clock, in seconds.
    pub timestamp: i64,
}

/// Whether the signer of `ctx` may change `state`.
pub open spec fn authorized(state: GlobalState, ctx: AdminAuth) -> bool {
    state.admin == ctx.admin
}

/// Sets the fee rate. Refused with `Unauthorized` unless the signer is the admin, then
/// with `InvalidFee` for a rate above 10000 basis points; a refusal changes nothing.
pub fn set_fee(global_state: &mut GlobalState, ctx: &AdminAuth, new_fee_bps: u16) -> (r: Result<
    FeeUpdated,
    ErrorCode,
>)
    ensures
        r is Ok <==> authorized(*old(global_state), *ctx) && new_fee_bps <= MAX_FEE_BPS,
        !authorized(*old(global_state), *ctx) ==> r == Err::<FeeUpdated, ErrorCode>(
            ErrorCode::Unauthorized,
        ),
        authorized(*old(global_state), *ctx) && new_fee_bps > MAX_FEE_BPS ==> r == Err::<
            FeeUpdated,
            ErrorCode,
        >(ErrorCode::InvalidFee),
        r is Err ==> *final(global_state) == *old(global_state),
        r matches Ok(event) ==> {
            &&& *final(global_state) == (GlobalState { fee_bps: new_fee_bps, ..*old(global_state) })
            &&& event == (FeeUpdated {
                admin: ctx.admin,
                old_fee_bps: old(global_state).fee_bps,
                new_fee_bps,
                timestamp: ctx.timestamp,
            })
        },
        old(global_state).wf() ==> final(global_state).wf(),
{
    if global_state.admin != ctx.admin {
        return Err(ErrorCode::Unauthorized);
    }
    if new_fee_bps > MAX_FEE_BPS {
        return Err(ErrorCode::InvalidFee);
    }
    let old_fee_bps = global_state.fee_bps;
    global_state.fee_bps = new_fee_bps;
    Ok(FeeUpdated { admin: ctx.admin, old_fee_bps, new_fee_bps, timestamp: ctx.timestamp })
}

/// Sets the destination of native fees. Refused with `Unauthorized`, changing nothing,
/// unless the signer is the admin.
pub fn set_fee_wallet(
    global_state: &mut GlobalState,
    ctx: &AdminAuth,
    new_fee_wallet: Pubkey,
) -> (r: Result<FeeWalletUpdated, ErrorCode>)
    ensures
        r is Ok <==> authorized(*old(global_state), *ctx),
        r matches Err(e) ==> e == ErrorCode::Unauthorized,
        r is Err ==> *final(global_state) == *old(global_state),
        r matches Ok(event) ==> {
            &&& *final(global_state) == (GlobalState {
                fee_wallet: new_fee_wallet,
                ..*old(global_state)
            })
            &&& event == (FeeWalletUpdated {
                admin: ctx.admin,
                old_fee_wallet: old(global_state).fee_wallet,
                new_fee_wallet,
                timestamp: ctx.timestamp,
            })
        },
        old(global_state).wf() ==> final(global_state).wf(),
{
    if global_state.admin != ctx.admin {
        return Err(ErrorCode::Unauthorized);
    }
    let old_fee_wallet = global_state.fee_wallet;
    global_state.fee_wallet = new_fee_wallet;
    Ok(
        FeeWalletUpdated {
            admin: ctx.admin,
            old_fee_wallet,
            new_fee_wallet,
            timestamp: ctx.timestamp,
        },
    )
}

/// Sets or clears the pause flag. Refused with `Unauthorized`, changing nothing, unless
/// the signer is the admin.
pub fn set_paused(global_state: &mut GlobalState, ctx: &AdminAuth, paused: bool) -> (r: Result<
    PausedStatusUpdated,
    ErrorCode,
>)
    ensures
        r is Ok <==> authorized(*old(global_state), *ctx),
        r matches Err(e) ==> e == ErrorCode::Unauthorized,
        r is Err ==> *final(global_state) == *old(global_state),
        r matches Ok(event) ==> {
            &&& *final(global_state) == (GlobalState { paused, ..*old(global_state) })
            &&& event == (PausedStatusUpdated {
                admin: ctx.admin,
                paused,
                timestamp: ctx.timestamp,
            })
        },
        old(global_state).wf() ==> final(global_state).wf(),
{
    if global_state.admin != ctx.admin {
        return Err(ErrorCode::Unauthorized);
    }
    global_state.paused = paused;
    Ok(PausedStatusUpdated { admin: ctx.admin, paused, timestamp: ctx.timestamp })
}

/// Hands the admin role to `new_admin`. Refused with `Unauthorized`, changing nothing,
/// unless the signer is the admin.
pub fn update_admin(global_state: &mut GlobalState, ctx: &AdminAuth, new_admin: Pubkey) -> (r:
    Result<AdminUpdated, ErrorCode>)
    ensures
        r is Ok <==> authorized(*old(global_state), *ctx),
        r matches Err(e) ==> e == ErrorCode::Unauthorized,
        r is Err ==> *final(global_state) == *old(global_state),
        r matches Ok(event) ==> {
            &&& *final(global_state) == (GlobalState { admin: new_admin, ..*old(global_state) })
            &&& event == (AdminUpdated {
                old_admin: old(global_state).admin,
                new_admin,
                timestamp: ctx.timestamp,
            })
        },
        old(global_state).wf() ==> final(global_state).wf(),
{
    if global_state.admin != ctx.admin {
        return Err(ErrorCode::Unauthorized);
    }
    let old_admin = global_state.admin;
    global_state.admin = new_admin;
    Ok(AdminUpdated { old_admin, new_admin, timestamp: ctx.timestamp })
}

} // verus!
