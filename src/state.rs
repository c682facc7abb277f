use vstd::prelude::*;

use crate::pubkey::Pubkey;

verus! {

/// The largest fee rate, in basis points: the whole amount.
pub const MAX_FEE_BPS: u16 = 10000;

/// The largest length of a merchant name, in bytes.
pub const MAX_NAME_LEN: usize = 32;

/// Whether a merchant name fits its record: at most 32 bytes in UTF-8.
pub open spec fn name_fits(name: Seq<char>) -> bool {
    vstd::utf8::encode_utf8(name).len() <= MAX_NAME_LEN
}

/// Tests that a name fits a merchant record.
pub fn check_name(name: &String) -> (r: bool)
    ensures
        r == name_fits(name@),
{
    name.as_str().as_bytes().len() <= MAX_NAME_LEN
}

/// The gateway's single configuration record.
#[derive(Clone, Copy, Debug, PartialEq, Eq)]
pub struct GlobalState {
    /// The identity allowed to change this record.
    pub admin: Pubkey,
    /// The protocol fee, in basis points.
    pub fee_bps: u16,
    /// The destination of the fee leg of native payments.
    pub fee_wallet: Pubkey,
    /// While set, every payment is refused.
    pub paused: bool,
    /// The bump seed of the record's address.
    pub bump: u8,
}

impl GlobalState {
    /// The fee rate never exceeds the whole amount.
    pub open spec fn wf(self) -> bool {
        self.fee_bps <= MAX_FEE_BPS
    }
}

/// A merchant profile.
#[derive(Clone, Debug, PartialEq, Eq)]
pub struct Merchant {
    /// The identity allowed to change this record.
    pub owner: Pubkey,
    /// The destination of the merchant's net proceeds in the native asset.
    pub settlement_wallet: Pubkey,
    /// The token the merchant settles in; the default key means the native asset.
    pub settlement_token: Pubkey,
    /// Whether the merchant takes the native asset although it names a token.
    pub swap_enabled: bool,
    /// The display name.
    pub name: String,
    /// The bump seed of the record's address.
    pub bump: u8,
}

impl Merchant {
    pub open spec fn wf(self) -> bool {
        name_fits(self.name@)
    }

    /// Whether the merchant takes a payment in the native asset.
    pub open spec fn accepts_native(self) -> bool {
        self.settlement_token.is_default() || self.swap_enabled
    }

    /// Whether the merchant takes a payment in the token of mint `mint`.
    pub open spec fn accepts_mint(self, mint: Pubkey) -> bool {
        self.settlement_token.is_default() || self.settlement_token == mint
    }
}

/// The receipt of a settled payment, kept at the key (payer, payment identifier).
#[derive(Clone, Copy, Debug, PartialEq, Eq)]
pub struct Payment {
    pub payer: Pubkey,
    /// The address of the merchant record paid.
    pub merchant: Pubkey,
    /// The gross amount, before the fee.
    pub amount: u64,
    pub payment_id: u64,
    pub timestamp: i64,
    /// The bump seed of the record's address.
    pub bump: u8,
}

impl Payment {
    /// Whether this receipt stands at the key (`payer`, `payment_id`).
    pub open spec fn has_key(self, payer: Pubkey, payment_id: u64) -> bool {
        self.payer == payer && self.payment_id == payment_id
    }
}

} // verus!
