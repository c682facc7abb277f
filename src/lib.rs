//! Payment-settlement engine of the gateway program: fee calculation, settlement
//! routing between the native asset and a fungible token, merchant and configuration
//! records, and a keyed ledger that refuses to record a payment twice.
pub mod admin;
pub mod errors;
pub mod events;
pub mod fee;
pub mod gateway;
pub mod initialize;
pub mod process_payment;
pub mod pubkey;
pub mod register_merchant;
pub mod state;
pub mod update_merchant;

pub use admin::{set_fee, set_fee_wallet, set_paused, update_admin, AdminAuth};
pub use errors::ErrorCode;
pub use events::{
    AdminUpdated, Event, FeeUpdated, FeeWalletUpdated, GlobalStateInitialized,
    MerchantRegistered, MerchantUpdated, PausedStatusUpdated, PaymentProcessed,
};
pub use fee::{calculate_fee, FeeSplit};
pub use gateway::{Gateway, MerchantEntry};
pub use initialize::{initialize, Initialize};
pub use process_payment::{
    process_payment, AssetPath, ProcessPayment, Settlement, TokenAccount, Transfer,
};
pub use pubkey::Pubkey;
pub use register_merchant::{register_merchant, RegisterMerchant};
pub use state::{GlobalState, Merchant, Payment};
pub use update_merchant::{update_merchant, TokenPolicy, UpdateMerchant};
