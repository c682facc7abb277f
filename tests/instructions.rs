use orki_gateway::{
    initialize, register_merchant, set_fee, set_fee_wallet, set_paused, update_admin,
    update_merchant, AdminAuth, ErrorCode, FeeUpdated, GlobalState, GlobalStateInitialized,
    Initialize, Merchant, Pubkey, RegisterMerchant, TokenPolicy, UpdateMerchant,
};

fn key(b: u8) -> Pubkey {
    Pubkey::new_from_array([b; 32])
}

fn config() -> GlobalState {
    GlobalState { admin: key(1), fee_bps: 100, fee_wallet: key(2), paused: false, bump: 255 }
}

fn admin() -> AdminAuth {
    AdminAuth { admin: key(1), timestamp: 77 }
}

fn stranger() -> AdminAuth {
    AdminAuth { admin: key(9), timestamp: 77 }
}

fn merchant() -> Merchant {
    Merchant {
        owner: key(3),
        settlement_wallet: key(4),
        settlement_token: Pubkey::default(),
        swap_enabled: false,
        name: "shop".to_string(),
        bump: 200,
    }
}

fn owner_ctx() -> UpdateMerchant {
    UpdateMerchant { merchant: key(5), owner: key(3), timestamp: 88 }
}

#[test]
fn default_key_is_all_zero() {
    assert_eq!(Pubkey::default().to_bytes(), [0u8; 32]);
    assert!(Pubkey::default().is_zero());
    assert!(!key(1).is_zero());
    let mut bytes = [0u8; 32];
    bytes[31] = 1;
    assert!(!Pubkey::new_from_array(bytes).is_zero());
    assert!(Pubkey::new_from_array(bytes) != Pubkey::default());
    assert!(key(7) == key(7));
}

#[test]
fn initialize_creates_unpaused_config() {
    let ctx = Initialize { admin: key(1), bump: 255, timestamp: 10 };
    let (state, event) = initialize(&ctx, 100, key(2)).unwrap();
    assert_eq!(state, GlobalState { admin: key(1), fee_bps: 100, fee_wallet: key(2), paused: false, bump: 255 });
    assert_eq!(event, GlobalStateInitialized { admin: key(1), fee_bps: 100, fee_wallet: key(2), timestamp: 10 });
}

#[test]
fn initialize_refuses_rate_above_whole() {
    let ctx = Initialize { admin: key(1), bump: 255, timestamp: 10 };
    assert_eq!(initialize(&ctx, 10001, key(2)), Err(ErrorCode::InvalidFee));
    assert!(initialize(&ctx, 10000, key(2)).is_ok());
}

#[test]
fn set_fee_bound() {
    let mut state = config();
    assert_eq!(set_fee(&mut state, &admin(), 10001), Err(ErrorCode::InvalidFee));
    assert_eq!(state, config());
    assert_eq!(
        set_fee(&mut state, &admin(), 10000),
        Ok(FeeUpdated { admin: key(1), old_fee_bps: 100, new_fee_bps: 10000, timestamp: 77 })
    );
    assert_eq!(state.fee_bps, 10000);
}

#[test]
fn admin_changes_each_field() {
    let mut state = config();
    let e = set_fee_wallet(&mut state, &admin(), key(20)).unwrap();
    assert_eq!((e.old_fee_wallet, e.new_fee_wallet), (key(2), key(20)));
    assert_eq!(state.fee_wallet, key(20));
    let e = set_paused(&mut state, &admin(), true).unwrap();
    assert!(e.paused);
    assert!(state.paused);
    let e = update_admin(&mut state, &admin(), key(21)).unwrap();
    assert_eq!((e.old_admin, e.new_admin), (key(1), key(21)));
    assert_eq!(state.admin, key(21));
    assert_eq!(set_paused(&mut state, &admin(), false), Err(ErrorCode::Unauthorized));
    assert_eq!(state.fee_bps, 100);
}

#[test]
fn non_admin_changes_nothing() {
    let mut state = config();
    assert_eq!(set_fee(&mut state, &stranger(), 50), Err(ErrorCode::Unauthorized));
    assert_eq!(set_fee(&mut state, &stranger(), 10001), Err(ErrorCode::Unauthorized));
    assert_eq!(set_fee_wallet(&mut state, &stranger(), key(9)), Err(ErrorCode::Unauthorized));
    assert_eq!(set_paused(&mut state, &stranger(), true), Err(ErrorCode::Unauthorized));
    assert_eq!(update_admin(&mut state, &stranger(), key(9)), Err(ErrorCode::Unauthorized));
    assert_eq!(state, config());
}

#[test]
fn register_creates_strict_record() {
    let ctx = RegisterMerchant { merchant: key(5), owner: key(3), bump: 200, timestamp: 11 };
    let (m, event) = register_merchant(&ctx, key(4), key(7), "shop".to_string()).unwrap();
    assert_eq!(m, Merchant { settlement_token: key(7), ..merchant() });
    assert!(!m.swap_enabled);
    assert_eq!(event.merchant, key(5));
    assert_eq!(event.name, "shop");
    assert_eq!(event.timestamp, 11);
}

#[test]
fn register_name_limit_is_in_bytes() {
    let ctx = RegisterMerchant { merchant: key(5), owner: key(3), bump: 200, timestamp: 11 };
    assert!(register_merchant(&ctx, key(4), key(7), "a".repeat(32)).is_ok());
    assert!(register_merchant(&ctx, key(4), key(7), String::new()).is_ok());
    assert_eq!(register_merchant(&ctx, key(4), key(7), "a".repeat(33)), Err(ErrorCode::NameTooLong));
    assert_eq!(register_merchant(&ctx, key(4), key(7), "é".repeat(17)), Err(ErrorCode::NameTooLong));
    assert!(register_merchant(&ctx, key(4), key(7), "é".repeat(16)).is_ok());
}

#[test]
fn update_changes_given_fields_only() {
    let mut m = merchant();
    let event = update_merchant(&mut m, &owner_ctx(), TokenPolicy::Mutable, Some("market".to_string()), None, Some(key(7)), Some(true))
        .unwrap();
    assert_eq!(
        m,
        Merchant { name: "market".to_string(), settlement_token: key(7), swap_enabled: true, ..merchant() }
    );
    assert_eq!(event.old_name, "shop");
    assert_eq!(event.new_name, Some("market".to_string()));
    assert_eq!(event.settlement_wallet, None);
    assert_eq!(event.settlement_token, Some(key(7)));
    assert_eq!(event.swap_enabled, Some(true));
    assert_eq!(event.merchant, key(5));
    assert_eq!(event.timestamp, 88);
}

#[test]
fn update_by_other_signer_is_refused() {
    let mut m = merchant();
    let ctx = UpdateMerchant { owner: key(9), ..owner_ctx() };
    let r = update_merchant(&mut m, &ctx, TokenPolicy::Mutable, None, Some(key(9)), None, None);
    assert_eq!(r, Err(ErrorCode::Unauthorized));
    assert_eq!(m, merchant());
}

#[test]
fn update_refuses_long_name() {
    let mut m = merchant();
    let r = update_merchant(&mut m, &owner_ctx(), TokenPolicy::Mutable, Some("b".repeat(33)), Some(key(9)), None, None);
    assert_eq!(r, Err(ErrorCode::NameTooLong));
    assert_eq!(m, merchant());
}

#[test]
fn fixed_token_policy_keeps_a_set_token() {
    let mut m = Merchant { settlement_token: key(7), ..merchant() };
    let r = update_merchant(&mut m, &owner_ctx(), TokenPolicy::FixedOnceSet, None, None, Some(key(8)), None);
    assert_eq!(r, Err(ErrorCode::InvalidToken));
    assert_eq!(m.settlement_token, key(7));
    assert!(update_merchant(&mut m, &owner_ctx(), TokenPolicy::FixedOnceSet, None, None, Some(key(7)), None).is_ok());
    assert!(update_merchant(&mut m, &owner_ctx(), TokenPolicy::Mutable, None, None, Some(key(8)), None).is_ok());
    assert_eq!(m.settlement_token, key(8));
    let mut fresh = merchant();
    assert!(update_merchant(&mut fresh, &owner_ctx(), TokenPolicy::FixedOnceSet, None, None, Some(key(8)), None).is_ok());
    assert_eq!(fresh.settlement_token, key(8));
}
