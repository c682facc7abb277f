use vstd::prelude::*;

use crate::errors::ErrorCode;
use crate::events::PaymentProcessed;
use crate::fee::{calculate_fee, fee_of, lemma_fee_within_amount, FeeSplit};
use crate::pubkey::{default_key, Pubkey};
use crate::state::{GlobalState, Merchant, Payment};

verus! {

/// What a payment reads of a token account.
#[derive(Clone, Copy, Debug, PartialEq, Eq)]
pub struct TokenAccount {
    /// The account's own address.
    pub key: Pubkey,
    pub mint: Pubkey,
    pub owner: Pubkey,
    /// The balance, in the mint's units.
    pub amount: u64,
}

/// The accounts and host values that come with a payment instruction.
///
/// A payment goes the token way exactly when `token_program` is given; the native
/// way reads `merchant_wallet`, `fee_wallet` and `payer_lamports` instead.
#[derive(Clone, Copy, Debug, PartialEq, Eq)]
pub struct ProcessPayment {
    /// The signer who pays.
    pub payer: Pubkey,
    /// The payer's native balance.
    pub payer_lamports: u64,
    /// The address of the merchant record that is paid.
    pub merchant: Pubkey,
    /// The destination given for the merchant leg of a native payment.
    pub merchant_wallet: Pubkey,
    /// The destination given for the fee leg of a native payment.
    pub fee_wallet: Pubkey,
    pub token_program: Option<Pubkey>,
    pub mint: Option<Pubkey>,
    pub payer_token_account: Option<TokenAccount>,
    pub merchant_token_account: Option<TokenAccount>,
    pub fee_token_account: Option<TokenAccount>,
    /// The bump seed of the payment record's address.
    pub bump: u8,
    /// The host's clock, in seconds.
    pub timestamp: i64,
}

/// The way a payment is settled: exactly one of the two.
#[derive(Clone, Copy, Debug, PartialEq, Eq)]
pub enum AssetPath {
    Native,
    Token {
        program: Pubkey,
        mint: Pubkey,
        payer_account: TokenAccount,
        merchant_account: TokenAccount,
        fee_account: TokenAccount,
    },
}

/// One movement of value that a settlement asks the host to perform.
#[derive(Clone, Copy, Debug, PartialEq, Eq)]
pub enum Transfer {
    /// Native units from one account to another, through the system program.
    Native { from: Pubkey, to: Pubkey, amount: u64 },
    /// Token units between two token accounts, through `program`, signed by `authority`.
    Token { program: Pubkey, from: Pubkey, to: Pubkey, authority: Pubkey, amount: u64 },
}

/// A settled payment: its split, its two transfers (the fee leg first), its receipt
/// and its notification.
#[derive(Clone, Copy, Debug, PartialEq, Eq)]
pub struct Settlement {
    pub split: FeeSplit,
    pub fee_transfer: Transfer,
    pub merchant_transfer: Transfer,
    pub payment: Payment,
    pub event: PaymentProcessed,
}

/// The path that the supplied accounts select, or why they select none.
pub open spec fn path_of(ctx: ProcessPayment) -> Result<AssetPath, ErrorCode> {
    match ctx.token_program {
        None => Ok(AssetPath::Native),
        Some(program) => match ctx.mint {
            None => Err(ErrorCode::MissingMint),
            Some(mint) => match (
                ctx.payer_token_account,
                ctx.merchant_token_account,
                ctx.fee_token_account,
            ) {
                (Some(p), Some(m), Some(f)) => Ok(
                    AssetPath::Token {
                        program,
                        mint,
                        payer_account: p,
                        merchant_account: m,
                        fee_account: f,
                    },
                ),
                _ => Err(ErrorCode::MissingAccount),
            },
        },
    }
}

/// Why a native payment of `amount` to `merchant` is refused, if it is.
pub open spec fn native_error(
    state: GlobalState,
    merchant: Merchant,
    ctx: ProcessPayment,
    amount: u64,
) -> Option<ErrorCode> {
    if !merchant.accepts_native() {
        Some(ErrorCode::InvalidToken)
    } else if ctx.merchant_wallet != merchant.settlement_wallet {
        Some(ErrorCode::InvalidMerchantWallet)
    } else if ctx.fee_wallet != state.fee_wallet {
        Some(ErrorCode::InvalidFeeWallet)
    } else if ctx.payer_lamports < amount {
        Some(ErrorCode::InsufficientBalance)
    } else {
        None
    }
}

/// Why a token payment of `amount` in `mint` to `merchant` is refused, if it is.
pub open spec fn token_error(
    merchant: Merchant,
    payer: Pubkey,
    mint: Pubkey,
    payer_account: TokenAccount,
    merchant_account: TokenAccount,
    fee_account: TokenAccount,
    amount: u64,
) -> Option<ErrorCode> {
    if !merchant.accepts_mint(mint) {
        Some(ErrorCode::InvalidToken)
    } else if payer_account.mint != mint || merchant_account.mint != mint || fee_account.mint
        != mint || payer_account.owner != payer {
        Some(ErrorCode::InvalidTokenAccount)
    } else if payer_account.amount < amount {
        Some(ErrorCode::InsufficientBalance)
    } else {
        None
    }
}

/// Why a payment is refused, if it is: the first failing check, in this order:
/// pause, amount, fee split, path selection, then the checks of the path.
pub open spec fn payment_error(
    state: GlobalState,
    merchant: Merchant,
    ctx: ProcessPayment,
    amount: u64,
) -> Option<ErrorCode> {
    if state.paused {
        Some(ErrorCode::Paused)
    } else if amount == 0 {
        Some(ErrorCode::InvalidAmount)
    } else if fee_of(amount as int, state.fee_bps as int) > amount {
        Some(ErrorCode::CalculationError)
    } else {
        match path_of(ctx) {
            Err(e) => Some(e),
            Ok(AssetPath::Native) => native_error(state, merchant, ctx, amount),
            Ok(AssetPath::Token { mint, payer_account, merchant_account, fee_account, .. }) => {
                token_error(
                    merchant,
                    ctx.payer,
                    mint,
                    payer_account,
                    merchant_account,
                    fee_account,
                    amount,
                )
            },
        }
    }
}

/// The fee leg and the merchant leg of a payment settled on `path`.
pub open spec fn transfers_of(
    path: AssetPath,
    ctx: ProcessPayment,
    fee: u64,
    merchant_amount: u64,
) -> (Transfer, Transfer) {
    match path {
        AssetPath::Native => (
            Transfer::Native { from: ctx.payer, to: ctx.fee_wallet, amount: fee },
            Transfer::Native { from: ctx.payer, to: ctx.merchant_wallet, amount: merchant_amount },
        ),
        AssetPath::Token { program, payer_account, merchant_account, fee_account, .. } => (
            Transfer::Token {
                program,
                from: payer_account.key,
                to: fee_account.key,
                authority: ctx.payer,
                amount: fee,
            },
            Transfer::Token {
                program,
                from: payer_account.key,
                to: merchant_account.key,
                authority: ctx.payer,
                amount: merchant_amount,
            },
        ),
    }
}

/// The asset that a payment on `path` is made in, the default key for the native one.
pub open spec fn asset_of(path: AssetPath) -> Pubkey {
    match path {
        AssetPath::Native => default_key(),
        AssetPath::Token { mint, .. } => mint,
    }
}

/// The settlement of an accepted payment of `amount` on `path`.
pub open spec fn settlement_of(
    state: GlobalState,
    ctx: ProcessPayment,
    path: AssetPath,
    amount: u64,
    payment_id: u64,
) -> Settlement {
    let fee = fee_of(amount as int, state.fee_bps as int) as u64;
    let merchant_amount = (amount - fee) as u64;
    let legs = transfers_of(path, ctx, fee, merchant_amount);
    Settlement {
        split: FeeSplit { fee, merchant_amount },
        fee_transfer: legs.0,
        merchant_transfer: legs.1,
        payment: Payment {
            payer: ctx.payer,
            merchant: ctx.merchant,
            amount,
            payment_id,
            timestamp: ctx.timestamp,
            bump: ctx.bump,
        },
        event: PaymentProcessed {
            payer: ctx.payer,
            merchant: ctx.merchant,
            amount,
            fee,
            token: asset_of(path),
            payment_id,
            timestamp: ctx.timestamp,
        },
    }
}

/// While the gateway is paused every payment is refused with `Paused`, whatever else
/// it carries.
pub proof fn lemma_paused_refuses_payment(
    state: GlobalState,
    merchant: Merchant,
    ctx: ProcessPayment,
    amount: u64,
)
    requires
        state.paused,
    ensures
        payment_error(state, merchant, ctx, amount) == Some(ErrorCode::Paused),
{
}

/// A native payment of a positive amount, while the gateway runs, to a merchant that
/// names a token: refused with `InvalidToken` when the merchant does not take the native
/// asset in its place; otherwise never refused for the token, and accepted exactly when
/// both destinations are the configured ones and the payer holds the amount.
pub proof fn lemma_native_payment_to_token_merchant(
    state: GlobalState,
    merchant: Merchant,
    ctx: ProcessPayment,
    amount: u64,
)
    requires
        state.wf(),
        !state.paused,
        amount > 0,
        ctx.token_program is None,
        !merchant.settlement_token.is_default(),
    ensures
        !merchant.swap_enabled ==> payment_error(state, merchant, ctx, amount) == Some(
            ErrorCode::InvalidToken,
        ),
        merchant.swap_enabled ==> payment_error(state, merchant, ctx, amount) != Some(
            ErrorCode::InvalidToken,
        ),
        merchant.swap_enabled ==> (payment_error(state, merchant, ctx, amount) is None <==> {
            &&& ctx.merchant_wallet == merchant.settlement_wallet
            &&& ctx.fee_wallet == state.fee_wallet
            &&& ctx.payer_lamports >= amount
        }),
{
    lemma_fee_within_amount(amount as int, state.fee_bps as int);
}

/// Selects the settlement path from the supplied accounts.
pub fn select_path(ctx: &ProcessPayment) -> (r: Result<AssetPath, ErrorCode>)
    ensures
        r == path_of(*ctx),
{
    match ctx.token_program {
        None => Ok(AssetPath::Native),
        Some(program) => {
            let mint = match ctx.mint {
                Some(m) => m,
                None => return Err(ErrorCode::MissingMint),
            };
            match (ctx.payer_token_account, ctx.merchant_token_account, ctx.fee_token_account) {
                (Some(p), Some(m), Some(f)) => Ok(
                    AssetPath::Token {
                        program,
                        mint,
                        payer_account: p,
                        merchant_account: m,
                        fee_account: f,
                    },
                ),
                _ => Err(ErrorCode::MissingAccount),
            }
        },
    }
}

/// Decides a payment of `amount` (gross) with identifier `payment_id` to the merchant
/// record `merchant`, whose address is `ctx.merchant`, under the configuration
/// `global_state`.
///
/// The payment is refused with the first failing check of `payment_error`. Otherwise
/// the fee is `floor(amount * fee_bps / 10000)`, the merchant receives the rest, and the
/// result holds the two transfers to perform (the fee leg first), the receipt to record
/// at (payer, `payment_id`) and the notification to emit.
pub fn process_payment(
    global_state: &GlobalState,
    merchant: &Merchant,
    ctx: &ProcessPayment,
    amount: u64,
    payment_id: u64,
) -> (r: Result<Settlement, ErrorCode>)
    ensures
        r is Err <==> payment_error(*global_state, *merchant, *ctx, amount) is Some,
        r matches Err(e) ==> payment_error(*global_state, *merchant, *ctx, amount) == Some(e),
        r matches Ok(s) ==> path_of(*ctx) matches Ok(path) && s == settlement_of(
            *global_state,
            *ctx,
            path,
            amount,
            payment_id,
        ),
{
    if global_state.paused {
        return Err(ErrorCode::Paused);
    }
    if amount == 0 {
        return Err(ErrorCode::InvalidAmount);
    }
    let split = match calculate_fee(amount, global_state.fee_bps) {
        Ok(s) => s,
        Err(e) => return Err(e),
    };
    let path = match select_path(ctx) {
        Ok(p) => p,
        Err(e) => return Err(e),
    };
    let native = Pubkey::default();
    let (fee_transfer, merchant_transfer, token) = match path {
        AssetPath::Native => {
            if !merchant.settlement_token.is_zero() && !merchant.swap_enabled {
                return Err(ErrorCode::InvalidToken);
            }
            if ctx.merchant_wallet != merchant.settlement_wallet {
                return Err(ErrorCode::InvalidMerchantWallet);
            }
            if ctx.fee_wallet != global_state.fee_wallet {
                return Err(ErrorCode::InvalidFeeWallet);
            }
            if ctx.payer_lamports < amount {
                return Err(ErrorCode::InsufficientBalance);
            }
            (
                Transfer::Native { from: ctx.payer, to: ctx.fee_wallet, amount: split.fee },
                Transfer::Native {
                    from: ctx.payer,
                    to: ctx.merchant_wallet,
                    amount: split.merchant_amount,
                },
                native,
            )
        },
        AssetPath::Token { program, mint, payer_account, merchant_account, fee_account } => {
            if !merchant.settlement_token.is_zero() && mint != merchant.settlement_token {
                return Err(ErrorCode::InvalidToken);
            }
            if payer_account.mint != mint || merchant_account.mint != mint || fee_account.mint
                != mint || payer_account.owner != ctx.payer {
                return Err(ErrorCode::InvalidTokenAccount);
            }
            if payer_account.amount < amount {
                return Err(ErrorCode::InsufficientBalance);
            }
            (
                Transfer::Token {
                    program,
                    from: payer_account.key,
                    to: fee_account.key,
                    authority: ctx.payer,
                    amount: split.fee,
                },
                Transfer::Token {
                    program,
                    from: payer_account.key,
                    to: merchant_account.key,
                    authority: ctx.payer,
                    amount: split.merchant_amount,
                },
                mint,
            )
        },
    };
    Ok(
        Settlement {
            split,
            fee_transfer,
            merchant_transfer,
            payment: Payment {
                payer: ctx.payer,
                merchant: ctx.merchant,
                amount,
                payment_id,
                timestamp: ctx.timestamp,
                bump: ctx.bump,
            },
            event: PaymentProcessed {
                payer: ctx.payer,
                merchant: ctx.merchant,
                amount,
                fee: split.fee,
                token,
                payment_id,
                timestamp: ctx.timestamp,
            },
        },
    )
}

} // verus!
