use vstd::prelude::*;
use crate::account::AccountId;
use crate::totals::AccountTotals;

verus! {

/// Units available in each window.
pub const DAILY_SUPPLY: u32 = 50;

/// Length of a supply window in milliseconds, the unit of block timestamps: 24 hours.
pub const RESET_WINDOW: u64 = 86_400_000;

/// Why an order was refused. No refusal changes the ledger.
#[derive(Clone, Copy, Debug, PartialEq, Eq, Structural)]
pub enum PizzaError {
    /// Fewer units remain in this window than were asked for.
    DailySupplyReached,
    /// The order would take the account past its cap.
    MaxOrderPerUserReached,
    /// The order asked for nothing.
    CannotOrderZeroPizzas,
}

/// The notice that an order was accepted: who ordered and how much.
#[derive(Clone, Copy, Debug, PartialEq, Eq)]
pub struct PizzaOrdered {
    pub caller: Option<AccountId>,
    pub quantity_ordered: u32,
}

/// What a ledger holds, as plain values.
pub struct LedgerModel {
    pub daily_supply: u32,
    pub remaining_supply: u32,
    pub max_order_per_user: u32,
    /// What each account has ordered; 0 for one that never ordered.
    pub orders_per_user: Map<AccountId, u32>,
    pub last_reset: u64,
    pub total_orders: u32,
    /// Notices of accepted orders not yet taken out, oldest first.
    pub events: Seq<PizzaOrdered>,
    /// Whether a reset also forgets what accounts have ordered.
    pub clear_totals_on_reset: bool,
}

impl LedgerModel {
    /// Remaining supply within the cap, and every account within its cap.
    pub open spec fn valid(self) -> bool {
        &&& self.remaining_supply <= self.daily_supply
        &&& forall|a: AccountId| #[trigger] self.orders_per_user[a] <= self.max_order_per_user
    }

    /// The ledger right after it was created at time `now`.
    pub open spec fn initial(max_order_per_user: u32, now: u64, clear_totals_on_reset: bool) -> LedgerModel {
        LedgerModel {
            daily_supply: DAILY_SUPPLY,
            remaining_supply: DAILY_SUPPLY,
            max_order_per_user,
            orders_per_user: Map::total(|a: AccountId| 0u32),
            last_reset: now,
            total_orders: 0,
            events: Seq::empty(),
            clear_totals_on_reset,
        }
    }

    /// What an order of `quantity` by `caller` answers: the checks in their
    /// order, then the caller's new total.
    pub open spec fn order_outcome(self, caller: AccountId, quantity: u32) -> Result<u32, PizzaError> {
        if quantity == 0 {
            Err(PizzaError::CannotOrderZeroPizzas)
        } else if self.remaining_supply < quantity {
            Err(PizzaError::DailySupplyReached)
        } else if self.orders_per_user[caller] + quantity > self.max_order_per_user {
            Err(PizzaError::MaxOrderPerUserReached)
        } else {
            Ok((self.orders_per_user[caller] + quantity) as u32)
        }
    }

    /// The ledger after an accepted order of `quantity` by `caller`.
    pub open spec fn accept(self, caller: AccountId, quantity: u32) -> LedgerModel {
        LedgerModel {
            remaining_supply: (self.remaining_supply - quantity) as u32,
            orders_per_user: self.orders_per_user.insert(
                caller,
                (self.orders_per_user[caller] + quantity) as u32,
            ),
            total_orders: (self.total_orders + quantity) as u32,
            events: self.events.push(PizzaOrdered { caller: Some(caller), quantity_ordered: quantity }),
            ..self
        }
    }

    /// The ledger after an order: changed only when the order is accepted.
    pub open spec fn after_order(self, caller: AccountId, quantity: u32) -> LedgerModel {
        if self.order_outcome(caller, quantity) is Ok {
            self.accept(caller, quantity)
        } else {
            self
        }
    }

    /// Whether the window that began at the last reset is over at `now`.
    pub open spec fn window_elapsed(self, now: u64) -> bool {
        now >= self.last_reset + RESET_WINDOW
    }

    /// The ledger after a reset asked for at `now`.
    pub open spec fn after_reset(self, now: u64) -> LedgerModel {
        if self.window_elapsed(now) {
            LedgerModel {
                remaining_supply: self.daily_supply,
                last_reset: now,
                orders_per_user: if self.clear_totals_on_reset {
                    Map::total(|a: AccountId| 0u32)
                } else {
                    self.orders_per_user
                },
                ..self
            }
        } else {
            self
        }
    }
}

/// Relies on ink_env::block_timestamp: the timestamp of the current block, as
/// the execution environment reports it.
#[verifier::external_body]
fn block_timestamp() -> (r: u64) {
    ink::env::block_timestamp::<ink::env::DefaultEnvironment>()
}

/// A limited daily supply of pizzas, shared among ordering accounts.
pub struct PizzaLimited {
    daily_supply: u32,
    orders_per_user: AccountTotals,
    remaining_supply: u32,
    max_order_per_user: u32,
    last_reset: u64,
    total_orders: u32,
    events: Vec<PizzaOrdered>,
    clear_totals_on_reset: bool,
}

impl View for PizzaLimited {
    type V = LedgerModel;

    closed spec fn view(&self) -> LedgerModel {
        LedgerModel {
            daily_supply: self.daily_supply,
            remaining_supply: self.remaining_supply,
            max_order_per_user: self.max_order_per_user,
            orders_per_user: self.orders_per_user@,
            last_reset: self.last_reset,
            total_orders: self.total_orders,
            events: self.events@,
            clear_totals_on_reset: self.clear_totals_on_reset,
        }
    }
}

impl PizzaLimited {
    /// Every ledger made by this library is valid; each operation keeps it so.
    pub open spec fn wf(&self) -> bool {
        self@.valid()
    }

    /// A fresh ledger whose window starts at the current block's timestamp.
    pub fn new(max_order_per_user: u32) -> (r: PizzaLimited)
        ensures
            r.wf(),
            r@ == LedgerModel::initial(max_order_per_user, r@.last_reset, false),
    {
        let now = block_timestamp();
        PizzaLimited::new_at(max_order_per_user, now)
    }

    /// A fresh ledger whose window starts at `now`; resets keep what accounts
    /// have ordered.
    pub fn new_at(max_order_per_user: u32, now: u64) -> (r: PizzaLimited)
        ensures
            r.wf(),
            r@ == LedgerModel::initial(max_order_per_user, now, false),
    {
        PizzaLimited::new_with_policy(max_order_per_user, now, false)
    }

    /// A fresh ledger whose window starts at `now`, whose resets forget what
    /// accounts have ordered when `clear_totals_on_reset` holds.
    pub fn new_with_policy(max_order_per_user: u32, now: u64, clear_totals_on_reset: bool) -> (r: PizzaLimited)
        ensures
            r.wf(),
            r@ == LedgerModel::initial(max_order_per_user, now, clear_totals_on_reset),
    {
        let r = PizzaLimited {
            daily_supply: DAILY_SUPPLY,
            orders_per_user: AccountTotals::new(),
            remaining_supply: DAILY_SUPPLY,
            max_order_per_user,
            last_reset: now,
            total_orders: 0,
            events: Vec::new(),
            clear_totals_on_reset,
        };
        assert(r@.events =~= Seq::<PizzaOrdered>::empty());
        r
    }

    /// Units still available in the current window.
    pub fn get_remaining_supply(&self) -> (r: u32)
        ensures
            r == self@.remaining_supply,
    {
        self.remaining_supply
    }

    /// Units available in each window.
    pub fn get_daily_supply(&self) -> (r: u32)
        ensures
            r == self@.daily_supply,
    {
        self.daily_supply
    }

    /// The moment the current window began.
    pub fn get_last_reset(&self) -> (r: u64)
        ensures
            r == self@.last_reset,
    {
        self.last_reset
    }

    /// All units ever ordered with success.
    pub fn get_total_orders(&self) -> (r: u32)
        ensures
            r == self@.total_orders,
    {
        self.total_orders
    }

    /// Units that `account` has ordered so far.
    pub fn get_account_total(&self, account: &AccountId) -> (r: u32)
        ensures
            r == self@.orders_per_user[*account],
    {
        self.orders_per_user.get(account)
    }

    /// Hands out the notices of accepted orders recorded so far, oldest first,
    /// and forgets them.
    pub fn take_events(&mut self) -> (r: Vec<PizzaOrdered>)
        requires
            old(self).wf(),
        ensures
            final(self).wf(),
            r@ == old(self)@.events,
            final(self)@ == (LedgerModel { events: Seq::empty(), ..old(self)@ }),
    {
        let mut r: Vec<PizzaOrdered> = Vec::new();
        std::mem::swap(&mut r, &mut self.events);
        proof {
            let m = final(self)@;
            assert(m.events =~= Seq::<PizzaOrdered>::empty());
            assert forall|a: AccountId| #[trigger] m.orders_per_user[a] <= m.max_order_per_user by {
                assert(old(self)@.orders_per_user[a] <= old(self)@.max_order_per_user);
            }
        }
        r
    }

    /// Whether `order_pizza` may be called with these arguments: false only
    /// when the order would be accepted and the all-time total would then no
    /// longer fit in a `u32`.
    pub fn order_fits(&self, caller: &AccountId, quantity_ordered: u32) -> (r: bool)
        requires
            self.wf(),
        ensures
            r == (self@.order_outcome(*caller, quantity_ordered) is Ok
                ==> self@.total_orders + quantity_ordered <= u32::MAX),
    {
        if quantity_ordered == 0 || self.remaining_supply < quantity_ordered {
            return true;
        }
        let user_orders = self.orders_per_user.get(caller);
        if user_orders as u64 + quantity_ordered as u64 > self.max_order_per_user as u64 {
            return true;
        }
        self.total_orders as u64 + quantity_ordered as u64 <= u32::MAX as u64
    }

    /// Orders `quantity_ordered` units for `caller`. The checks come in a fixed
    /// order and all come before any change: an empty order, then the supply
    /// left in this window, then the caller's cap. On success the supply shrinks,
    /// the caller's total and the all-time total grow by the quantity, a notice
    /// is recorded, and the caller's new total is returned.
    pub fn order_pizza(&mut self, caller: AccountId, quantity_ordered: u32) -> (r: Result<u32, PizzaError>)
        requires
            old(self).wf(),
            old(self)@.order_outcome(caller, quantity_ordered) is Ok
                ==> old(self)@.total_orders + quantity_ordered <= u32::MAX,
        ensures
            final(self).wf(),
            r == old(self)@.order_outcome(caller, quantity_ordered),
            final(self)@ == old(self)@.after_order(caller, quantity_ordered),
            quantity_ordered == 0 ==> r == Err::<u32, PizzaError>(PizzaError::CannotOrderZeroPizzas)
                && final(self)@ == old(self)@,
            r is Err ==> final(self)@ == old(self)@,
            r is Ok ==> final(self)@.total_orders == old(self)@.total_orders + quantity_ordered,
    {
        if quantity_ordered == 0 {
            return Err(PizzaError::CannotOrderZeroPizzas);
        }
        if self.remaining_supply < quantity_ordered {
            return Err(PizzaError::DailySupplyReached);
        }
        let user_orders = self.orders_per_user.get(&caller);
        if user_orders as u64 + quantity_ordered as u64 > self.max_order_per_user as u64 {
            return Err(PizzaError::MaxOrderPerUserReached);
        }
        let new_total = user_orders + quantity_ordered;
        self.remaining_supply = self.remaining_supply - quantity_ordered;
        self.orders_per_user.set(&caller, new_total);
        self.total_orders = self.total_orders + quantity_ordered;
        self.events.push(PizzaOrdered { caller: Some(caller), quantity_ordered });
        proof {
            let m = final(self)@;
            assert forall|a: AccountId| #[trigger] m.orders_per_user[a] <= m.max_order_per_user by {
                assert(old(self)@.orders_per_user[a] <= old(self)@.max_order_per_user);
            }
            assert(m == old(self)@.accept(caller, quantity_ordered));
        }
        Ok(new_total)
    }

    /// Restores the supply to the daily cap if the window is over at `now`, and
    /// starts the next window there; otherwise changes nothing. Returns the
    /// supply left. What accounts have ordered is kept across windows unless
    /// the ledger was made to clear it.
    pub fn reset_supply_at(&mut self, now: u64) -> (r: u32)
        requires
            old(self).wf(),
        ensures
            final(self).wf(),
            final(self)@ == old(self)@.after_reset(now),
            r == final(self)@.remaining_supply,
            !old(self)@.window_elapsed(now) ==> final(self)@ == old(self)@
                && r == old(self)@.remaining_supply,
            old(self)@.window_elapsed(now) ==> r == old(self)@.daily_supply
                && final(self)@.last_reset == now,
    {
        if now >= self.last_reset && now - self.last_reset >= RESET_WINDOW {
            self.remaining_supply = self.daily_supply;
            self.last_reset = now;
            if self.clear_totals_on_reset {
                self.orders_per_user = AccountTotals::new();
            }
        }
        proof {
            let m = final(self)@;
            assert forall|a: AccountId| #[trigger] m.orders_per_user[a] <= m.max_order_per_user by {
                assert(old(self)@.orders_per_user[a] <= old(self)@.max_order_per_user);
            }
        }
        self.remaining_supply
    }

    /// Resets the supply as `reset_supply_at` does, at the current block's
    /// timestamp, which becomes the last reset when the supply is restored.
    pub fn reset_supply(&mut self) -> (r: u32)
        requires
            old(self).wf(),
        ensures
            final(self).wf(),
            final(self)@ == old(self)@
                || (old(self)@.window_elapsed(final(self)@.last_reset)
                    && final(self)@ == old(self)@.after_reset(final(self)@.last_reset)),
            r == final(self)@.remaining_supply,
    {
        let now = block_timestamp();
        self.reset_supply_at(now)
    }
}

} // verus!
