use orki_gateway::{
    process_payment, ErrorCode, GlobalState, Merchant, Payment, PaymentProcessed, ProcessPayment,
    Pubkey, TokenAccount, Transfer,
};

fn key(b: u8) -> Pubkey {
    Pubkey::new_from_array([b; 32])
}

const ADMIN: u8 = 1;
const FEE_WALLET: u8 = 2;
const OWNER: u8 = 3;
const SHOP_WALLET: u8 = 4;
const SHOP: u8 = 5;
const PAYER: u8 = 6;
const MINT: u8 = 7;
const TOKEN_PROGRAM: u8 = 8;
const PAYER_TA: u8 = 9;
const SHOP_TA: u8 = 10;
const FEE_TA: u8 = 11;

fn config(fee_bps: u16) -> GlobalState {
    GlobalState { admin: key(ADMIN), fee_bps, fee_wallet: key(FEE_WALLET), paused: false, bump: 255 }
}

fn shop(settlement_token: Pubkey, swap_enabled: bool) -> Merchant {
    Merchant {
        owner: key(OWNER),
        settlement_wallet: key(SHOP_WALLET),
        settlement_token,
        swap_enabled,
        name: "shop".to_string(),
        bump: 254,
    }
}

fn native_request(lamports: u64) -> ProcessPayment {
    ProcessPayment {
        payer: key(PAYER),
        payer_lamports: lamports,
        merchant: key(SHOP),
        merchant_wallet: key(SHOP_WALLET),
        fee_wallet: key(FEE_WALLET),
        token_program: None,
        mint: None,
        payer_token_account: None,
        merchant_token_account: None,
        fee_token_account: None,
        bump: 253,
        timestamp: 1_700_000_000,
    }
}

fn token_account(own: u8, owner: u8, amount: u64) -> TokenAccount {
    TokenAccount { key: key(own), mint: key(MINT), owner: key(owner), amount }
}

fn token_request(balance: u64) -> ProcessPayment {
    ProcessPayment {
        token_program: Some(key(TOKEN_PROGRAM)),
        mint: Some(key(MINT)),
        payer_token_account: Some(token_account(PAYER_TA, PAYER, balance)),
        merchant_token_account: Some(token_account(SHOP_TA, OWNER, 0)),
        fee_token_account: Some(token_account(FEE_TA, ADMIN, 0)),
        ..native_request(0)
    }
}

#[test]
fn native_payment_is_split_fee_first() {
    let s = process_payment(&config(100), &shop(Pubkey::default(), false), &native_request(20000), 10000, 1)
        .unwrap();
    assert_eq!(s.split.fee, 100);
    assert_eq!(s.split.merchant_amount, 9900);
    assert_eq!(s.fee_transfer, Transfer::Native { from: key(PAYER), to: key(FEE_WALLET), amount: 100 });
    assert_eq!(
        s.merchant_transfer,
        Transfer::Native { from: key(PAYER), to: key(SHOP_WALLET), amount: 9900 }
    );
    assert_eq!(
        s.payment,
        Payment {
            payer: key(PAYER),
            merchant: key(SHOP),
            amount: 10000,
            payment_id: 1,
            timestamp: 1_700_000_000,
            bump: 253,
        }
    );
    assert_eq!(
        s.event,
        PaymentProcessed {
            payer: key(PAYER),
            merchant: key(SHOP),
            amount: 10000,
            fee: 100,
            token: Pubkey::default(),
            payment_id: 1,
            timestamp: 1_700_000_000,
        }
    );
}

#[test]
fn token_payment_moves_tokens_between_token_accounts() {
    let s = process_payment(&config(250), &shop(key(MINT), false), &token_request(1000), 1000, 9).unwrap();
    assert_eq!(s.split.fee, 25);
    assert_eq!(s.split.merchant_amount, 975);
    assert_eq!(
        s.fee_transfer,
        Transfer::Token {
            program: key(TOKEN_PROGRAM),
            from: key(PAYER_TA),
            to: key(FEE_TA),
            authority: key(PAYER),
            amount: 25,
        }
    );
    assert_eq!(
        s.merchant_transfer,
        Transfer::Token {
            program: key(TOKEN_PROGRAM),
            from: key(PAYER_TA),
            to: key(SHOP_TA),
            authority: key(PAYER),
            amount: 975,
        }
    );
    assert_eq!(s.event.token, key(MINT));
}

#[test]
fn native_merchant_takes_any_mint() {
    let s = process_payment(&config(0), &shop(Pubkey::default(), false), &token_request(50), 50, 2).unwrap();
    assert_eq!(s.split.fee, 0);
    assert_eq!(s.event.token, key(MINT));
}

#[test]
fn paused_gateway_refuses_valid_payment() {
    let mut state = config(100);
    state.paused = true;
    let merchant = shop(Pubkey::default(), false);
    assert_eq!(process_payment(&state, &merchant, &native_request(20000), 10000, 1), Err(ErrorCode::Paused));
    assert_eq!(process_payment(&state, &merchant, &token_request(20000), 10000, 1), Err(ErrorCode::Paused));
    assert_eq!(process_payment(&state, &merchant, &native_request(0), 0, 1), Err(ErrorCode::Paused));
}

#[test]
fn zero_amount_is_refused() {
    let r = process_payment(&config(100), &shop(Pubkey::default(), false), &native_request(5), 0, 1);
    assert_eq!(r, Err(ErrorCode::InvalidAmount));
}

#[test]
fn fee_rate_above_whole_is_a_calculation_error() {
    let r = process_payment(&config(30000), &shop(Pubkey::default(), false), &native_request(100), 1, 1);
    assert_eq!(r, Err(ErrorCode::CalculationError));
}

#[test]
fn token_program_without_mint_is_refused() {
    let mut req = token_request(100);
    req.mint = None;
    let r = process_payment(&config(100), &shop(Pubkey::default(), false), &req, 10, 1);
    assert_eq!(r, Err(ErrorCode::MissingMint));
}

#[test]
fn token_program_without_an_account_is_refused() {
    let merchant = shop(Pubkey::default(), false);
    let mut a = token_request(100);
    a.payer_token_account = None;
    let mut b = token_request(100);
    b.merchant_token_account = None;
    let mut c = token_request(100);
    c.fee_token_account = None;
    for req in [a, b, c] {
        assert_eq!(process_payment(&config(100), &merchant, &req, 10, 1), Err(ErrorCode::MissingAccount));
    }
}

#[test]
fn mint_other_than_settlement_token_is_refused() {
    let r = process_payment(&config(100), &shop(key(42), true), &token_request(100), 10, 1);
    assert_eq!(r, Err(ErrorCode::InvalidToken));
}

#[test]
fn token_accounts_are_checked() {
    let merchant = shop(key(MINT), false);
    let mut a = token_request(100);
    a.payer_token_account = Some(TokenAccount { mint: key(42), ..token_account(PAYER_TA, PAYER, 100) });
    let mut b = token_request(100);
    b.merchant_token_account = Some(TokenAccount { mint: key(42), ..token_account(SHOP_TA, OWNER, 0) });
    let mut c = token_request(100);
    c.fee_token_account = Some(TokenAccount { mint: key(42), ..token_account(FEE_TA, ADMIN, 0) });
    let mut d = token_request(100);
    d.payer_token_account = Some(token_account(PAYER_TA, OWNER, 100));
    for req in [a, b, c, d] {
        assert_eq!(process_payment(&config(100), &merchant, &req, 10, 1), Err(ErrorCode::InvalidTokenAccount));
    }
}

#[test]
fn token_balance_must_cover_gross_amount() {
    let merchant = shop(key(MINT), false);
    assert_eq!(process_payment(&config(100), &merchant, &token_request(99), 100, 1), Err(ErrorCode::InsufficientBalance));
    assert!(process_payment(&config(100), &merchant, &token_request(100), 100, 1).is_ok());
}

#[test]
fn native_payment_to_token_merchant_needs_swap_flag() {
    let strict = shop(key(MINT), false);
    let tolerant = shop(key(MINT), true);
    assert_eq!(
        process_payment(&config(100), &strict, &native_request(20000), 10000, 1),
        Err(ErrorCode::InvalidToken)
    );
    let s = process_payment(&config(100), &tolerant, &native_request(20000), 10000, 1).unwrap();
    assert_eq!(s.split.merchant_amount, 9900);
    assert_eq!(s.event.token, Pubkey::default());
}

#[test]
fn native_destinations_are_checked() {
    let merchant = shop(Pubkey::default(), false);
    let mut a = native_request(100);
    a.merchant_wallet = key(42);
    assert_eq!(process_payment(&config(100), &merchant, &a, 10, 1), Err(ErrorCode::InvalidMerchantWallet));
    let mut b = native_request(100);
    b.fee_wallet = key(42);
    assert_eq!(process_payment(&config(100), &merchant, &b, 10, 1), Err(ErrorCode::InvalidFeeWallet));
}

#[test]
fn native_balance_must_cover_gross_amount() {
    let merchant = shop(Pubkey::default(), false);
    assert_eq!(
        process_payment(&config(100), &merchant, &native_request(9), 10, 1),
        Err(ErrorCode::InsufficientBalance)
    );
    assert!(process_payment(&config(100), &merchant, &native_request(10), 10, 1).is_ok());
}

#[test]
fn checks_come_in_order() {
    let strict = shop(key(MINT), false);
    let mut req = native_request(0);
    req.fee_wallet = key(42);
    assert_eq!(process_payment(&config(100), &strict, &req, 0, 1), Err(ErrorCode::InvalidAmount));
    assert_eq!(process_payment(&config(100), &strict, &req, 10, 1), Err(ErrorCode::InvalidToken));
    let tolerant = shop(key(MINT), true);
    assert_eq!(process_payment(&config(100), &tolerant, &req, 10, 1), Err(ErrorCode::InvalidFeeWallet));
}
