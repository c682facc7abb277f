use vstd::prelude::*;

use crate::admin::{authorized, set_fee, set_fee_wallet, set_paused, update_admin, AdminAuth};
use crate::errors::ErrorCode;
use crate::events::{
    AdminUpdated, Event, FeeUpdated, FeeWalletUpdated, GlobalStateInitialized,
    MerchantRegistered, MerchantUpdated, PausedStatusUpdated,
};
use crate::initialize::{initialize, Initialize};
use crate::process_payment::{
    path_of, payment_error, process_payment, settlement_of, ProcessPayment, Settlement,
};
use crate::pubkey::Pubkey;
use crate::register_merchant::{register_merchant, RegisterMerchant};
use crate::state::{name_fits, GlobalState, Merchant, Payment, MAX_FEE_BPS};
use crate::update_merchant::{
    apply_update, update_error, update_event, update_merchant, TokenPolicy, UpdateMerchant,
};

verus! {

/// A merchant record as the gateway keeps it: its address, the name it was registered
/// under (with the owner, its key), and its fields.
#[derive(Clone, Debug, PartialEq, Eq)]
pub struct MerchantEntry {
    pub key: Pubkey,
    pub seed: String,
    pub merchant: Merchant,
}

impl MerchantEntry {
    /// Whether this record was registered by `owner` under the name `seed`.
    pub open spec fn is_at(self, owner: Pubkey, seed: Seq<char>) -> bool {
        self.merchant.owner == owner && self.seed@ == seed
    }
}

/// What a gateway holds: the configuration once it is created, the merchant records,
/// the payment receipts and the log of notifications, oldest first.
pub struct GatewayView {
    pub global_state: Option<GlobalState>,
    pub merchants: Seq<MerchantEntry>,
    pub payments: Seq<Payment>,
    pub events: Seq<Event>,
    pub token_policy: TokenPolicy,
}

impl GatewayView {
    /// Whether a merchant record stands at address `key`.
    pub open spec fn has_merchant_at(self, key: Pubkey) -> bool {
        exists|i: int| 0 <= i < self.merchants.len() && (#[trigger] self.merchants[i]).key == key
    }

    /// Whether `owner` has registered a merchant under the name `seed`.
    pub open spec fn has_merchant_named(self, owner: Pubkey, seed: Seq<char>) -> bool {
        exists|i: int| 0 <= i < self.merchants.len() && (#[trigger] self.merchants[i]).is_at(owner, seed)
    }

    /// The position of the merchant record at address `key`, where there is one.
    pub open spec fn merchant_index(self, key: Pubkey) -> int {
        choose|i: int| 0 <= i < self.merchants.len() && (#[trigger] self.merchants[i]).key == key
    }

    /// The merchant record at address `key`, if there is one.
    pub open spec fn merchant_at(self, key: Pubkey) -> Option<MerchantEntry> {
        if self.has_merchant_at(key) {
            Some(self.merchants[self.merchant_index(key)])
        } else {
            None
        }
    }

    /// Whether a receipt stands at the key (`payer`, `payment_id`).
    pub open spec fn has_payment(self, payer: Pubkey, payment_id: u64) -> bool {
        exists|i: int|
            0 <= i < self.payments.len() && (#[trigger] self.payments[i]).has_key(payer, payment_id)
    }

    /// The configuration respects its bound, every merchant name fits, no two merchant
    /// records share an address or an (owner, name) key, and no two receipts share a
    /// (payer, payment identifier) key.
    pub open spec fn wf(self) -> bool {
        &&& self.global_state matches Some(gs) ==> gs.wf()
        &&& forall|i: int|
            0 <= i < self.merchants.len() ==> {
                &&& (#[trigger] self.merchants[i]).merchant.wf()
                &&& name_fits(self.merchants[i].seed@)
            }
        &&& forall|i: int, j: int|
            0 <= i < self.merchants.len() && 0 <= j < self.merchants.len() && i != j ==> {
                &&& (#[trigger] self.merchants[i]).key != (#[trigger] self.merchants[j]).key
                &&& !self.merchants[i].is_at(self.merchants[j].merchant.owner, self.merchants[j].seed@)
            }
        &&& forall|i: int, j: int|
            0 <= i < self.payments.len() && 0 <= j < self.payments.len() && i != j
                ==> !(#[trigger] self.payments[i]).has_key(
                (#[trigger] self.payments[j]).payer,
                self.payments[j].payment_id,
            )
    }

    /// The gateway after `settlement` was recorded: one more receipt, one more notification.
    pub open spec fn after_payment(self, settlement: Settlement) -> GatewayView {
        GatewayView {
            payments: self.payments.push(settlement.payment),
            events: self.events.push(Event::PaymentProcessed(settlement.event)),
            ..self
        }
    }

    /// The gateway with the configuration `state`, after notification `event`.
    pub open spec fn with_config(self, state: GlobalState, event: Event) -> GatewayView {
        GatewayView { global_state: Some(state), events: self.events.push(event), ..self }
    }

    /// What a payment request comes to: refused when there is no configuration, when no
    /// merchant record stands at the address given or it was registered under another
    /// name, for the reasons of `payment_error`, and last when a receipt stands at its
    /// key already; else settled as `settlement_of` says.
    pub open spec fn payment_result(
        self,
        ctx: ProcessPayment,
        amount: u64,
        payment_id: u64,
        name: Seq<char>,
    ) -> Result<Settlement, ErrorCode> {
        match self.global_state {
            None => Err(ErrorCode::AccountNotInitialized),
            Some(state) => match self.merchant_at(ctx.merchant) {
                None => Err(ErrorCode::AccountNotInitialized),
                Some(entry) => if entry.seed@ != name {
                    Err(ErrorCode::AccountNotInitialized)
                } else {
                    match payment_error(state, entry.merchant, ctx, amount) {
                        Some(e) => Err(e),
                        None => if self.has_payment(ctx.payer, payment_id) {
                            Err(ErrorCode::DuplicatePayment)
                        } else {
                            Ok(settlement_of(state, ctx, path_of(ctx)->Ok_0, amount, payment_id))
                        },
                    }
                },
            },
        }
    }
}

/// Once a payment is settled and recorded, the same request is refused with
/// `DuplicatePayment`, and no request of the same payer with the same identifier is
/// settled again, whatever its amount, accounts or merchant.
pub proof fn lemma_payment_settles_once(
    v: GatewayView,
    ctx: ProcessPayment,
    amount: u64,
    payment_id: u64,
    name: Seq<char>,
    other: ProcessPayment,
    other_amount: u64,
    other_name: Seq<char>,
)
    requires
        v.wf(),
        v.payment_result(ctx, amount, payment_id, name) is Ok,
        other.payer == ctx.payer,
    ensures
        ({
            let after = v.after_payment(v.payment_result(ctx, amount, payment_id, name)->Ok_0);
            &&& after.payment_result(ctx, amount, payment_id, name) == Err::<Settlement, ErrorCode>(
                ErrorCode::DuplicatePayment,
            )
            &&& after.payment_result(other, other_amount, payment_id, other_name) is Err
        }),
{
    let s = v.payment_result(ctx, amount, payment_id, name)->Ok_0;
    let after = v.after_payment(s);
    let last = v.payments.len() as int;
    assert(after.payments[last] == s.payment);
    assert(after.payments[last].has_key(ctx.payer, payment_id));
    assert(after.has_payment(ctx.payer, payment_id));
    assert(after.merchants == v.merchants);
}

/// While the gateway is paused, every payment to a registered merchant is refused with
/// `Paused`, whatever else the request carries.
pub proof fn lemma_paused_gateway_refuses_payment(
    v: GatewayView,
    ctx: ProcessPayment,
    amount: u64,
    payment_id: u64,
    name: Seq<char>,
)
    requires
        v.global_state matches Some(state) && state.paused,
        v.merchant_at(ctx.merchant) matches Some(entry) && entry.seed@ == name,
    ensures
        v.payment_result(ctx, amount, payment_id, name) == Err::<Settlement, ErrorCode>(
            ErrorCode::Paused,
        ),
{
}

/// The gateway's records, held in memory: one configuration, merchant records keyed by
/// address and by (owner, name), and payment receipts keyed by (payer, payment
/// identifier), which no request can record twice.
pub struct Gateway {
    global_state: Option<GlobalState>,
    merchants: Vec<MerchantEntry>,
    payments: Vec<Payment>,
    events: Vec<Event>,
    token_policy: TokenPolicy,
}

impl View for Gateway {
    type V = GatewayView;

    closed spec fn view(&self) -> GatewayView {
        GatewayView {
            global_state: self.global_state,
            merchants: self.merchants@,
            payments: self.payments@,
            events: self.events@,
            token_policy: self.token_policy,
        }
    }
}

impl Gateway {
    /// An empty gateway, whose merchants' settlement tokens follow `token_policy`.
    pub fn new(token_policy: TokenPolicy) -> (r: Gateway)
        ensures
            r@.global_state is None,
            r@.merchants.len() == 0,
            r@.payments.len() == 0,
            r@.events.len() == 0,
            r@.token_policy == token_policy,
            r@.wf(),
    {
        Gateway {
            global_state: None,
            merchants: Vec::new(),
            payments: Vec::new(),
            events: Vec::new(),
            token_policy,
        }
    }

    /// The index of the merchant record at address `key`.
    fn find_merchant(&self, key: Pubkey) -> (r: Option<usize>)
        requires
            self@.wf(),
        ensures
            r is None <==> !self@.has_merchant_at(key),
            r matches Some(i) ==> {
                &&& i < self@.merchants.len()
                &&& i == self@.merchant_index(key)
                &&& self@.merchant_at(key) == Some(self@.merchants[i as int])
            },
    {
        let mut i: usize = 0;
        while i < self.merchants.len()
            invariant
                self@.wf(),
                0 <= i <= self.merchants@.len(),
                forall|j: int| 0 <= j < i ==> (#[trigger] self.merchants@[j]).key != key,
            decreases self.merchants@.len() - i,
        {
            if self.merchants[i].key == key {
                let ghost v = self@;
                proof {
                    assert(v.merchants[i as int].key == key);
                    assert(v.has_merchant_at(key));
                    let c = v.merchant_index(key);
                    if c != i {
                        assert(v.merchants[c].key != v.merchants[i as int].key);
                    }
                }
                return Some(i);
            }
            i = i + 1;
        }
        None
    }

    /// Whether a receipt stands at the key (`payer`, `payment_id`).
    pub fn has_payment(&self, payer: Pubkey, payment_id: u64) -> (r: bool)
        ensures
            r == self@.has_payment(payer, payment_id),
    {
        let mut i: usize = 0;
        while i < self.payments.len()
            invariant
                0 <= i <= self.payments@.len(),
                forall|j: int| 0 <= j < i ==> !(#[trigger] self.payments@[j]).has_key(payer, payment_id),
            decreases self.payments@.len() - i,
        {
            let p = &self.payments[i];
            if p.payer == payer && p.payment_id == payment_id {
                assert(self@.payments[i as int].has_key(payer, payment_id));
                return true;
            }
            i = i + 1;
        }
        false
    }

    /// Creates the configuration, as `initialize` does; refused with `AccountAlreadyInUse`
    /// when it exists already.
    pub fn initialize(&mut self, ctx: &Initialize, fee_bps: u16, fee_wallet: Pubkey) -> (r: Result<
        GlobalStateInitialized,
        ErrorCode,
    >)
        requires
            old(self)@.wf(),
        ensures
            final(self)@.wf(),
            old(self)@.global_state is Some ==> r == Err::<GlobalStateInitialized, ErrorCode>(
                ErrorCode::AccountAlreadyInUse,
            ),
            old(self)@.global_state is None && fee_bps > MAX_FEE_BPS ==> r == Err::<
                GlobalStateInitialized,
                ErrorCode,
            >(ErrorCode::InvalidFee),
            r is Ok <==> old(self)@.global_state is None && fee_bps <= MAX_FEE_BPS,
            r is Err ==> final(self)@ == old(self)@,
            r matches Ok(event) ==> {
                &&& event == (GlobalStateInitialized {
                    admin: ctx.admin,
                    fee_bps,
                    fee_wallet,
                    timestamp: ctx.timestamp,
                })
                &&& final(self)@ == old(self)@.with_config(
                    GlobalState {
                        admin: ctx.admin,
                        fee_bps,
                        fee_wallet,
                        paused: false,
                        bump: ctx.bump,
                    },
                    Event::GlobalStateInitialized(event),
                )
            },
    {
        if self.global_state.is_some() {
            return Err(ErrorCode::AccountAlreadyInUse);
        }
        match initialize(ctx, fee_bps, fee_wallet) {
            Ok((state, event)) => {
                self.global_state = Some(state);
                self.events.push(Event::GlobalStateInitialized(event));
                Ok(event)
            },
            Err(e) => Err(e),
        }
    }

    /// Settles a payment to the merchant record at `ctx.merchant`, registered under
    /// `name`, and records its receipt and notification; what comes of it is
    /// `payment_result`. A refused payment changes nothing, and no request with the
    /// payer and identifier of a recorded receipt is ever settled again.
    pub fn process_payment(
        &mut self,
        ctx: &ProcessPayment,
        amount: u64,
        payment_id: u64,
        name: &String,
    ) -> (r: Result<Settlement, ErrorCode>)
        requires
            old(self)@.wf(),
        ensures
            final(self)@.wf(),
            r == old(self)@.payment_result(*ctx, amount, payment_id, name@),
            r is Err ==> final(self)@ == old(self)@,
            r matches Ok(s) ==> final(self)@ == old(self)@.after_payment(s),
    {
        let state = match self.global_state {
            Some(s) => s,
            None => return Err(ErrorCode::AccountNotInitialized),
        };
        let i = match self.find_merchant(ctx.merchant) {
            Some(i) => i,
            None => return Err(ErrorCode::AccountNotInitialized),
        };
        if self.merchants[i].seed != *name {
            return Err(ErrorCode::AccountNotInitialized);
        }
        let settlement = match process_payment(&state, &self.merchants[i].merchant, ctx, amount, payment_id) {
            Ok(s) => s,
            Err(e) => return Err(e),
        };
        if self.has_payment(ctx.payer, payment_id) {
            return Err(ErrorCode::DuplicatePayment);
        }
        let ghost before = self@;
        self.payments.push(settlement.payment);
        self.events.push(Event::PaymentProcessed(settlement.event));
        proof {
            let v = self@;
            assert forall|a: int, b: int|
                0 <= a < v.payments.len() && 0 <= b < v.payments.len() && a != b
                    implies !(#[trigger] v.payments[a]).has_key(
                    (#[trigger] v.payments[b]).payer,
                    v.payments[b].payment_id,
                ) by {
                if a == v.payments.len() - 1 {
                    assert(before.payments[b] == v.payments[b]);
                } else if b == v.payments.len() - 1 {
                    assert(before.payments[a] == v.payments[a]);
                } else {
                    assert(before.payments[a] == v.payments[a]);
                    assert(before.payments[b] == v.payments[b]);
                }
            }
            assert(v == before.after_payment(settlement));
        }
        Ok(settlement)
    }

    /// Whether `owner` has registered a merchant under the name `seed`.
    fn has_merchant_named(&self, owner: Pubkey, seed: &String) -> (r: bool)
        ensures
            r == self@.has_merchant_named(owner, seed@),
    {
        let mut i: usize = 0;
        while i < self.merchants.len()
            invariant
                0 <= i <= self.merchants@.len(),
                forall|j: int|
                    0 <= j < i ==> !(#[trigger] self.merchants@[j]).is_at(owner, seed@),
            decreases self.merchants@.len() - i,
        {
            let entry = &self.merchants[i];
            if entry.merchant.owner == owner && entry.seed == *seed {
                assert(self@.merchants[i as int].is_at(owner, seed@));
                return true;
            }
            i = i + 1;
        }
        false
    }

    /// Sets the fee rate, as `set_fee` does; refused with `AccountNotInitialized`
    /// before the configuration exists.
    pub fn set_fee(&mut self, ctx: &AdminAuth, new_fee_bps: u16) -> (r: Result<
        FeeUpdated,
        ErrorCode,
    >)
        requires
            old(self)@.wf(),
        ensures
            final(self)@.wf(),
            r is Err ==> final(self)@ == old(self)@,
            old(self)@.global_state is None ==> r == Err::<FeeUpdated, ErrorCode>(
                ErrorCode::AccountNotInitialized,
            ),
            old(self)@.global_state matches Some(state) ==> {
                &&& !authorized(state, *ctx) ==> r == Err::<FeeUpdated, ErrorCode>(
                    ErrorCode::Unauthorized,
                )
                &&& authorized(state, *ctx) && new_fee_bps > MAX_FEE_BPS ==> r == Err::<
                    FeeUpdated,
                    ErrorCode,
                >(ErrorCode::InvalidFee)
                &&& r is Ok <==> authorized(state, *ctx) && new_fee_bps <= MAX_FEE_BPS
                &&& r matches Ok(event) ==> {
                    &&& event == (FeeUpdated {
                        admin: ctx.admin,
                        old_fee_bps: state.fee_bps,
                        new_fee_bps,
                        timestamp: ctx.timestamp,
                    })
                    &&& final(self)@ == old(self)@.with_config(
                        GlobalState { fee_bps: new_fee_bps, ..state },
                        Event::FeeUpdated(event),
                    )
                }
            },
    {
        let mut state = match self.global_state {
            Some(s) => s,
            None => return Err(ErrorCode::AccountNotInitialized),
        };
        match set_fee(&mut state, ctx, new_fee_bps) {
            Ok(event) => {
                self.global_state = Some(state);
                self.events.push(Event::FeeUpdated(event));
                Ok(event)
            },
            Err(e) => Err(e),
        }
    }

    /// Sets the destination of native fees, as `set_fee_wallet` does; refused with
    /// `AccountNotInitialized` before the configuration exists.
    pub fn set_fee_wallet(&mut self, ctx: &AdminAuth, new_fee_wallet: Pubkey) -> (r: Result<
        FeeWalletUpdated,
        ErrorCode,
    >)
        requires
            old(self)@.wf(),
        ensures
            final(self)@.wf(),
            r is Err ==> final(self)@ == old(self)@,
            old(self)@.global_state is None ==> r == Err::<FeeWalletUpdated, ErrorCode>(
                ErrorCode::AccountNotInitialized,
            ),
            old(self)@.global_state matches Some(state) ==> {
                &&& !authorized(state, *ctx) ==> r == Err::<FeeWalletUpdated, ErrorCode>(
                    ErrorCode::Unauthorized,
                )
                &&& r is Ok <==> authorized(state, *ctx)
                &&& r matches Ok(event) ==> {
                    &&& event == (FeeWalletUpdated {
                        admin: ctx.admin,
                        old_fee_wallet: state.fee_wallet,
                        new_fee_wallet,
                        timestamp: ctx.timestamp,
                    })
                    &&& final(self)@ == old(self)@.with_config(
                        GlobalState { fee_wallet: new_fee_wallet, ..state },
                        Event::FeeWalletUpdated(event),
                    )
                }
            },
    {
        let mut state = match self.global_state {
            Some(s) => s,
            None => return Err(ErrorCode::AccountNotInitialized),
        };
        match set_fee_wallet(&mut state, ctx, new_fee_wallet) {
            Ok(event) => {
                self.global_state = Some(state);
                self.events.push(Event::FeeWalletUpdated(event));
                Ok(event)
            },
            Err(e) => Err(e),
        }
    }

    /// Sets or clears the pause flag, as `set_paused` does; refused with
    /// `AccountNotInitialized` before the configuration exists.
    pub fn set_paused(&mut self, ctx: &AdminAuth, paused: bool) -> (r: Result<
        PausedStatusUpdated,
        ErrorCode,
    >)
        requires
            old(self)@.wf(),
        ensures
            final(self)@.wf(),
            r is Err ==> final(self)@ == old(self)@,
            old(self)@.global_state is None ==> r == Err::<PausedStatusUpdated, ErrorCode>(
                ErrorCode::AccountNotInitialized,
            ),
            old(self)@.global_state matches Some(state) ==> {
                &&& !authorized(state, *ctx) ==> r == Err::<PausedStatusUpdated, ErrorCode>(
                    ErrorCode::Unauthorized,
                )
                &&& r is Ok <==> authorized(state, *ctx)
                &&& r matches Ok(event) ==> {
                    &&& event == (PausedStatusUpdated {
                        admin: ctx.admin,
                        paused,
                        timestamp: ctx.timestamp,
                    })
                    &&& final(self)@ == old(self)@.with_config(
                        GlobalState { paused, ..state },
                        Event::PausedStatusUpdated(event),
                    )
                }
            },
    {
        let mut state = match self.global_state {
            Some(s) => s,
            None => return Err(ErrorCode::AccountNotInitialized),
        };
        match set_paused(&mut state, ctx, paused) {
            Ok(event) => {
                self.global_state = Some(state);
                self.events.push(Event::PausedStatusUpdated(event));
                Ok(event)
            },
            Err(e) => Err(e),
        }
    }

    /// Hands the admin role on, as `update_admin` does; refused with
    /// `AccountNotInitialized` before the configuration exists.
    pub fn update_admin(&mut self, ctx: &AdminAuth, new_admin: Pubkey) -> (r: Result<
        AdminUpdated,
        ErrorCode,
    >)
        requires
            old(self)@.wf(),
        ensures
            final(self)@.wf(),
            r is Err ==> final(self)@ == old(self)@,
            old(self)@.global_state is None ==> r == Err::<AdminUpdated, ErrorCode>(
                ErrorCode::AccountNotInitialized,
            ),
            old(self)@.global_state matches Some(state) ==> {
                &&& !authorized(state, *ctx) ==> r == Err::<AdminUpdated, ErrorCode>(
                    ErrorCode::Unauthorized,
                )
                &&& r is Ok <==> authorized(state, *ctx)
                &&& r matches Ok(event) ==> {
                    &&& event == (AdminUpdated {
                        old_admin: state.admin,
                        new_admin,
                        timestamp: ctx.timestamp,
                    })
                    &&& final(self)@ == old(self)@.with_config(
                        GlobalState { admin: new_admin, ..state },
                        Event::AdminUpdated(event),
                    )
                }
            },
    {
        let mut state = match self.global_state {
            Some(s) => s,
            None => return Err(ErrorCode::AccountNotInitialized),
        };
        match update_admin(&mut state, ctx, new_admin) {
            Ok(event) => {
                self.global_state = Some(state);
                self.events.push(Event::AdminUpdated(event));
                Ok(event)
            },
            Err(e) => Err(e),
        }
    }

    /// Creates a merchant record at `ctx.merchant`, as `register_merchant` does, under
    /// the key (signer, `name`). Refused with `AccountAlreadyInUse` when a record stands
    /// at that address or that key already.
    pub fn register_merchant(
        &mut self,
        ctx: &RegisterMerchant,
        settlement_wallet: Pubkey,
        settlement_token: Pubkey,
        name: String,
    ) -> (r: Result<MerchantRegistered, ErrorCode>)
        requires
            old(self)@.wf(),
        ensures
            final(self)@.wf(),
            r is Err ==> final(self)@ == old(self)@,
            old(self)@.has_merchant_at(ctx.merchant) || old(self)@.has_merchant_named(
                ctx.owner,
                name@,
            ) ==> r == Err::<MerchantRegistered, ErrorCode>(ErrorCode::AccountAlreadyInUse),
            r is Ok <==> !old(self)@.has_merchant_at(ctx.merchant) && !old(
                self,
            )@.has_merchant_named(ctx.owner, name@) && name_fits(name@),
            !old(self)@.has_merchant_at(ctx.merchant) && !old(self)@.has_merchant_named(
                ctx.owner,
                name@,
            ) && !name_fits(name@) ==> r == Err::<MerchantRegistered, ErrorCode>(
                ErrorCode::NameTooLong,
            ),
            r matches Ok(event) ==> {
                &&& final(self)@.merchants.len() == old(self)@.merchants.len() + 1
                &&& final(self)@.merchants.drop_last() == old(self)@.merchants
                &&& final(self)@.merchants.last().key == ctx.merchant
                &&& final(self)@.merchants.last().seed@ == name@
                &&& final(self)@.merchants.last().merchant == (Merchant {
                    owner: ctx.owner,
                    settlement_wallet,
                    settlement_token,
                    swap_enabled: false,
                    name: final(self)@.merchants.last().merchant.name,
                    bump: ctx.bump,
                })
                &&& final(self)@.merchants.last().merchant.name@ == name@
                &&& event.owner == ctx.owner
                &&& event.merchant == ctx.merchant
                &&& event.settlement_wallet == settlement_wallet
                &&& event.settlement_token == settlement_token
                &&& event.name@ == name@
                &&& event.timestamp == ctx.timestamp
                &&& final(self)@.events == old(self)@.events.push(Event::MerchantRegistered(event))
                &&& final(self)@.global_state == old(self)@.global_state
                &&& final(self)@.payments == old(self)@.payments
                &&& final(self)@.token_policy == old(self)@.token_policy
            },
    {
        if self.find_merchant(ctx.merchant).is_some() || self.has_merchant_named(ctx.owner, &name) {
            return Err(ErrorCode::AccountAlreadyInUse);
        }
        let seed = name.clone();
        let (merchant, event) = match register_merchant(ctx, settlement_wallet, settlement_token, name) {
            Ok(r) => r,
            Err(e) => return Err(e),
        };
        let ghost before = self@;
        self.merchants.push(MerchantEntry { key: ctx.merchant, seed, merchant });
        self.events.push(Event::MerchantRegistered(event.copied()));
        proof {
            let v = self@;
            let n = v.merchants.len() - 1;
            assert forall|a: int| 0 <= a < v.merchants.len() implies {
                &&& (#[trigger] v.merchants[a]).merchant.wf()
                &&& name_fits(v.merchants[a].seed@)
            } by {
                if a < n {
                    assert(before.merchants[a] == v.merchants[a]);
                }
            }
            assert forall|a: int, b: int|
                0 <= a < v.merchants.len() && 0 <= b < v.merchants.len() && a != b implies {
                &&& (#[trigger] v.merchants[a]).key != (#[trigger] v.merchants[b]).key
                &&& !v.merchants[a].is_at(v.merchants[b].merchant.owner, v.merchants[b].seed@)
            } by {
                if a == n {
                    assert(before.merchants[b] == v.merchants[b]);
                } else if b == n {
                    assert(before.merchants[a] == v.merchants[a]);
                } else {
                    assert(before.merchants[a] == v.merchants[a]);
                    assert(before.merchants[b] == v.merchants[b]);
                }
            }
            assert(v.merchants.drop_last() =~= before.merchants);
            assert(v.payments == before.payments);
            assert(v.global_state == before.global_state);
            assert(v.wf());
        }
        Ok(event)
    }

    /// Changes the merchant record at `ctx.merchant`, registered under `name`, as
    /// `update_merchant` does under the gateway's token policy. Refused with
    /// `AccountNotInitialized` when no record stands there under that name.
    pub fn update_merchant(
        &mut self,
        ctx: &UpdateMerchant,
        name: &String,
        new_name: Option<String>,
        settlement_wallet: Option<Pubkey>,
        settlement_token: Option<Pubkey>,
        swap_enabled: Option<bool>,
    ) -> (r: Result<MerchantUpdated, ErrorCode>)
        requires
            old(self)@.wf(),
        ensures
            final(self)@.wf(),
            r is Err ==> final(self)@ == old(self)@,
            old(self)@.merchant_at(ctx.merchant) is None ==> r == Err::<
                MerchantUpdated,
                ErrorCode,
            >(ErrorCode::AccountNotInitialized),
            old(self)@.merchant_at(ctx.merchant) matches Some(entry) ==> {
                &&& entry.seed@ != name@ ==> r == Err::<MerchantUpdated, ErrorCode>(
                    ErrorCode::AccountNotInitialized,
                )
                &&& entry.seed@ == name@ ==> (r is Err <==> update_error(
                    entry.merchant,
                    *ctx,
                    old(self)@.token_policy,
                    new_name,
                    settlement_token,
                ) is Some)
                &&& entry.seed@ == name@ ==> (r matches Err(e) ==> update_error(
                    entry.merchant,
                    *ctx,
                    old(self)@.token_policy,
                    new_name,
                    settlement_token,
                ) == Some(e))
                &&& r matches Ok(event) ==> {
                    &&& event == update_event(
                        entry.merchant,
                        *ctx,
                        new_name,
                        settlement_wallet,
                        settlement_token,
                        swap_enabled,
                    )
                    &&& final(self)@.merchants == old(self)@.merchants.update(
                        old(self)@.merchant_index(ctx.merchant),
                        MerchantEntry {
                            merchant: apply_update(
                                entry.merchant,
                                new_name,
                                settlement_wallet,
                                settlement_token,
                                swap_enabled,
                            ),
                            ..entry
                        },
                    )
                    &&& final(self)@.events == old(self)@.events.push(
                        Event::MerchantUpdated(event),
                    )
                    &&& final(self)@.global_state == old(self)@.global_state
                    &&& final(self)@.payments == old(self)@.payments
                    &&& final(self)@.token_policy == old(self)@.token_policy
                }
            },
    {
        let i = match self.find_merchant(ctx.merchant) {
            Some(i) => i,
            None => return Err(ErrorCode::AccountNotInitialized),
        };
        if self.merchants[i].seed != *name {
            return Err(ErrorCode::AccountNotInitialized);
        }
        let ghost before = self@;
        let policy = self.token_policy;
        let event = match update_merchant(
            &mut self.merchants[i].merchant,
            ctx,
            policy,
            new_name,
            settlement_wallet,
            settlement_token,
            swap_enabled,
        ) {
            Ok(event) => event,
            Err(e) => {
                proof {
                    assert(self@.merchants =~= before.merchants);
                }
                return Err(e);
            },
        };
        self.events.push(Event::MerchantUpdated(event.copied()));
        proof {
            let v = self@;
            let entry = before.merchants[i as int];
            assert(v.merchants[i as int] == MerchantEntry {
                merchant: apply_update(
                    entry.merchant,
                    new_name,
                    settlement_wallet,
                    settlement_token,
                    swap_enabled,
                ),
                ..entry
            });
            assert(v.merchants =~= before.merchants.update(i as int, v.merchants[i as int]));
            assert forall|a: int| 0 <= a < v.merchants.len() implies {
                &&& (#[trigger] v.merchants[a]).merchant.wf()
                &&& name_fits(v.merchants[a].seed@)
            } by {
                assert(before.merchants[a].merchant.wf());
            }
            assert forall|a: int, b: int|
                0 <= a < v.merchants.len() && 0 <= b < v.merchants.len() && a != b implies {
                &&& (#[trigger] v.merchants[a]).key != (#[trigger] v.merchants[b]).key
                &&& !v.merchants[a].is_at(v.merchants[b].merchant.owner, v.merchants[b].seed@)
            } by {
                assert(before.merchants[a].key != before.merchants[b].key);
                assert(!before.merchants[a].is_at(
                    before.merchants[b].merchant.owner,
                    before.merchants[b].seed@,
                ));
            }
            assert(v.payments == before.payments);
            assert(v.global_state == before.global_state);
            assert(v.wf());
        }
        Ok(event)
    }

    /// The configuration, once it is created.
    pub fn global_state(&self) -> (r: Option<GlobalState>)
        ensures
            r == self@.global_state,
    {
        self.global_state
    }

    /// The merchant record at address `key`, if there is one.
    pub fn merchant(&self, key: Pubkey) -> (r: Option<&MerchantEntry>)
        requires
            self@.wf(),
        ensures
            r is Some <==> self@.has_merchant_at(key),
            r matches Some(entry) ==> self@.merchant_at(key) == Some(*entry),
    {
        match self.find_merchant(key) {
            Some(i) => Some(&self.merchants[i]),
            None => None,
        }
    }

    /// The receipt at the key (`payer`, `payment_id`), if there is one.
    pub fn payment(&self, payer: Pubkey, payment_id: u64) -> (r: Option<Payment>)
        ensures
            r is Some <==> self@.has_payment(payer, payment_id),
            r matches Some(p) ==> p.has_key(payer, payment_id) && self@.payments.contains(p),
    {
        let mut i: usize = 0;
        while i < self.payments.len()
            invariant
                0 <= i <= self.payments@.len(),
                forall|j: int| 0 <= j < i ==> !(#[trigger] self.payments@[j]).has_key(payer, payment_id),
            decreases self.payments@.len() - i,
        {
            let p = self.payments[i];
            if p.payer == payer && p.payment_id == payment_id {
                assert(self@.payments[i as int] == p);
                return Some(p);
            }
            i = i + 1;
        }
        None
    }

    /// Every receipt, oldest first.
    pub fn payments(&self) -> (r: &Vec<Payment>)
        ensures
            r@ == self@.payments,
    {
        &self.payments
    }

    /// Every notification, oldest first.
    pub fn events(&self) -> (r: &Vec<Event>)
        ensures
            r@ == self@.events,
    {
        &self.events
    }

    /// The policy on changes of a merchant's settlement token.
    pub fn token_policy(&self) -> (r: TokenPolicy)
        ensures
            r == self@.token_policy,
    {
        self.token_policy
    }
}

} // verus!
