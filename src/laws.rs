use vstd::prelude::*;
use crate::account::AccountId;
use crate::ledger::{LedgerModel, PizzaError};

verus! {

/// The ledger after the orders in `orders`, each an account and a quantity,
/// placed one after another.
pub open spec fn run_orders(m: LedgerModel, orders: Seq<(AccountId, u32)>) -> LedgerModel
    decreases orders.len(),
{
    if orders.len() == 0 {
        m
    } else {
        run_orders(m, orders.drop_last()).after_order(orders.last().0, orders.last().1)
    }
}

/// Whether every order in `orders`, placed one after another, is accepted.
pub open spec fn all_accepted(m: LedgerModel, orders: Seq<(AccountId, u32)>) -> bool
    decreases orders.len(),
{
    if orders.len() == 0 {
        true
    } else {
        &&& all_accepted(m, orders.drop_last())
        &&& run_orders(m, orders.drop_last()).order_outcome(orders.last().0, orders.last().1) is Ok
    }
}

/// The sum of the quantities in `orders`.
pub open spec fn quantity_sum(orders: Seq<(AccountId, u32)>) -> int
    decreases orders.len(),
{
    if orders.len() == 0 {
        0
    } else {
        quantity_sum(orders.drop_last()) + orders.last().1
    }
}

/// An order of nothing is refused as such, and leaves the ledger as it was.
pub proof fn lemma_zero_order_refused(m: LedgerModel, caller: AccountId)
    ensures
        m.order_outcome(caller, 0) == Err::<u32, PizzaError>(PizzaError::CannotOrderZeroPizzas),
        m.after_order(caller, 0) == m,
{
}

/// Every order and every reset keeps a valid ledger valid: the supply stays
/// within the daily cap and no account goes past its cap.
pub proof fn lemma_steps_keep_valid(m: LedgerModel, caller: AccountId, quantity: u32, now: u64)
    requires
        m.valid(),
    ensures
        m.after_order(caller, quantity).valid(),
        m.after_reset(now).valid(),
{
    let n = m.after_order(caller, quantity);
    assert forall|a: AccountId| #[trigger] n.orders_per_user[a] <= n.max_order_per_user by {
        assert(m.orders_per_user[a] <= m.max_order_per_user);
    }
    let p = m.after_reset(now);
    assert forall|a: AccountId| #[trigger] p.orders_per_user[a] <= p.max_order_per_user by {
        assert(m.orders_per_user[a] <= m.max_order_per_user);
    }
}

/// No account ever holds more than the per-account cap, and the first order
/// that would take it past the cap (with enough supply left) is refused for
/// that reason and leaves its total as it was.
pub proof fn lemma_account_cap(m: LedgerModel, caller: AccountId, quantity: u32)
    requires
        m.valid(),
    ensures
        forall|a: AccountId| #[trigger] m.after_order(caller, quantity).orders_per_user[a]
            <= m.max_order_per_user,
        quantity > 0 && quantity <= m.remaining_supply
            && m.orders_per_user[caller] + quantity > m.max_order_per_user
            ==> m.order_outcome(caller, quantity) == Err::<u32, PizzaError>(PizzaError::MaxOrderPerUserReached)
                && m.after_order(caller, quantity).orders_per_user[caller] == m.orders_per_user[caller],
{
    lemma_steps_keep_valid(m, caller, quantity, 0);
}

/// The all-time total never decreases: a reset keeps it, a refused order
/// keeps it, and an accepted order adds exactly its quantity.
pub proof fn lemma_total_orders_grow(m: LedgerModel, caller: AccountId, quantity: u32, now: u64)
    requires
        m.order_outcome(caller, quantity) is Ok ==> m.total_orders + quantity <= u32::MAX,
    ensures
        m.after_reset(now).total_orders == m.total_orders,
        m.after_order(caller, quantity).total_orders >= m.total_orders,
        m.order_outcome(caller, quantity) is Ok
            ==> m.after_order(caller, quantity).total_orders == m.total_orders + quantity,
        m.order_outcome(caller, quantity) is Err
            ==> m.after_order(caller, quantity).total_orders == m.total_orders,
{
}

/// Within one window, after orders that are all accepted, the supply left is
/// what was left before less the sum of their quantities, which never exceeds
/// it; from the start of a window that is the daily cap less the sum.
pub proof fn lemma_supply_after_orders(m: LedgerModel, orders: Seq<(AccountId, u32)>)
    requires
        m.valid(),
        all_accepted(m, orders),
    ensures
        run_orders(m, orders).valid(),
        quantity_sum(orders) <= m.remaining_supply,
        run_orders(m, orders).remaining_supply == m.remaining_supply - quantity_sum(orders),
        m.remaining_supply == m.daily_supply
            ==> run_orders(m, orders).remaining_supply == m.daily_supply - quantity_sum(orders),
    decreases orders.len(),
{
    if orders.len() > 0 {
        let prefix = orders.drop_last();
        lemma_supply_after_orders(m, prefix);
        let before = run_orders(m, prefix);
        lemma_steps_keep_valid(before, orders.last().0, orders.last().1, 0);
    }
}

} // verus!
