use vstd::prelude::*;

use crate::errors::ErrorCode;
use crate::events::GlobalStateInitialized;
use crate::pubkey::Pubkey;
use crate::state::{GlobalState, MAX_FEE_BPS};

verus! {

/// The signer and host values that come with the creation of the configuration.
#[derive(Clone, Copy, Debug, PartialEq, Eq)]
pub struct Initialize {
    /// The signer, who becomes the admin.
    pub admin: Pubkey,
    /// The bump seed of the configuration record's address.
    pub bump: u8,
    /// The host's clock, in seconds.
    pub timestamp: i64,
}

/// Creates the configuration record: the signer is its admin, the fee rate is
/// `fee_bps`, fees go to `fee_wallet`, and the gateway starts unpaused. A rate above
/// 10000 basis points is refused with `InvalidFee`.
pub fn initialize(ctx: &Initialize, fee_bps: u16, fee_wallet: Pubkey) -> (r: Result<
    (GlobalState, GlobalStateInitialized),
    ErrorCode,
>)
    ensures
        r is Ok <==> fee_bps <= MAX_FEE_BPS,
        r matches Err(e) ==> e == ErrorCode::InvalidFee,
        r matches Ok((state, event)) ==> {
            &&& state == (GlobalState {
                admin: ctx.admin,
                fee_bps,
                fee_wallet,
                paused: false,
                bump: ctx.bump,
            })
            &&& event == (GlobalStateInitialized {
                admin: ctx.admin,
                fee_bps,
                fee_wallet,
                timestamp: ctx.timestamp,
            })
            &&& state.wf()
        },
{
    if fee_bps > MAX_FEE_BPS {
        return Err(ErrorCode::InvalidFee);
    }
    let state = GlobalState { admin: ctx.admin, fee_bps, fee_wallet, paused: false, bump: ctx.bump };
    let event = GlobalStateInitialized {
        admin: ctx.admin,
        fee_bps,
        fee_wallet,
        timestamp: ctx.timestamp,
    };
    Ok((state, event))
}

} // verus!
