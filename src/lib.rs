//! A daily-limited supply shared among accounts: a global cap restored once per
//! window, a cap on what any one account may order, and no empty orders.
mod account;
mod laws;
mod ledger;
mod totals;

pub use account::AccountId;
pub use laws::{
    all_accepted, lemma_account_cap, lemma_steps_keep_valid, lemma_supply_after_orders,
    lemma_total_orders_grow, lemma_zero_order_refused, quantity_sum, run_orders,
};
pub use ledger::{LedgerModel, PizzaError, PizzaLimited, PizzaOrdered, DAILY_SUPPLY, RESET_WINDOW};
pub use totals::AccountTotals;
