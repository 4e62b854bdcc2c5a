use ink::env::DefaultEnvironment;
use pizza_limited::{AccountId, PizzaError, PizzaLimited, PizzaOrdered, DAILY_SUPPLY, RESET_WINDOW};

fn alice() -> AccountId {
    AccountId::new([1u8; 32])
}

fn bob() -> AccountId {
    AccountId::new([2u8; 32])
}

#[test]
fn it_works() {
    let pizza_limited = PizzaLimited::new(5);
    assert_eq!(pizza_limited.get_daily_supply(), 50);
}

#[test]
fn get_remaining_supply_works() {
    let pizza_limited = PizzaLimited::new(5);
    assert_eq!(pizza_limited.get_remaining_supply(), 50);
}

#[test]
fn order_pizza_works() {
    let mut contract = PizzaLimited::new(5);
    let result = contract.order_pizza(alice(), 3);
    assert_eq!(result, Ok(3));
    assert_eq!(contract.get_remaining_supply(), 47);
    assert_eq!(contract.get_total_orders(), 3);

    let result = contract.order_pizza(alice(), 0);
    assert_eq!(result, Err(PizzaError::CannotOrderZeroPizzas));

    let mut contract = PizzaLimited::new(5);
    let _ = contract.order_pizza(alice(), 3);
    let result = contract.order_pizza(alice(), 3);
    assert_eq!(result, Err(PizzaError::MaxOrderPerUserReached));
}

#[test]
fn zero_order_changes_nothing() {
    let mut l = PizzaLimited::new_at(5, 7);
    assert_eq!(l.order_pizza(alice(), 2), Ok(2));
    assert_eq!(l.order_pizza(alice(), 0), Err(PizzaError::CannotOrderZeroPizzas));
    assert_eq!(l.get_remaining_supply(), 48);
    assert_eq!(l.get_total_orders(), 2);
    assert_eq!(l.get_account_total(&alice()), 2);
    assert_eq!(l.get_last_reset(), 7);
    assert_eq!(l.take_events().len(), 1);
}

#[test]
fn scenario_cap_fifty_per_account_five() {
    let mut l = PizzaLimited::new_at(5, 0);
    assert_eq!(l.order_pizza(alice(), 3), Ok(3));
    assert_eq!(l.get_remaining_supply(), 47);
    assert_eq!(l.get_total_orders(), 3);
    assert_eq!(l.order_pizza(alice(), 0), Err(PizzaError::CannotOrderZeroPizzas));
    assert_eq!(l.get_remaining_supply(), 47);
    assert_eq!(l.get_total_orders(), 3);
    assert_eq!(l.order_pizza(bob(), 3), Ok(3));
    assert_eq!(l.order_pizza(bob(), 3), Err(PizzaError::MaxOrderPerUserReached));
    assert_eq!(l.get_account_total(&bob()), 3);
    assert_eq!(l.get_remaining_supply(), 44);
}

#[test]
fn supply_exhausted_keeps_remaining() {
    let mut l = PizzaLimited::new_at(20, 0);
    assert_eq!(l.order_pizza(alice(), 20), Ok(20));
    assert_eq!(l.order_pizza(bob(), 15), Ok(15));
    assert_eq!(l.get_remaining_supply(), 15);
    let carol = AccountId::new([3u8; 32]);
    assert_eq!(l.order_pizza(carol, 16), Err(PizzaError::DailySupplyReached));
    assert_eq!(l.get_remaining_supply(), 15);
    assert_eq!(l.get_account_total(&carol), 0);
    assert_eq!(l.order_pizza(carol, 15), Ok(15));
    assert_eq!(l.get_remaining_supply(), 0);
}

#[test]
fn supply_is_cap_less_sum_of_orders() {
    let mut l = PizzaLimited::new_at(10, 0);
    let qs: [u32; 4] = [4, 1, 7, 2];
    let mut sum: u32 = 0;
    for (i, q) in qs.iter().enumerate() {
        let who = AccountId::new([i as u8; 32]);
        assert_eq!(l.order_pizza(who, *q), Ok(*q));
        sum += *q;
        assert_eq!(l.get_remaining_supply(), DAILY_SUPPLY - sum);
    }
    assert_eq!(l.get_total_orders(), sum);
}

#[test]
fn account_cap_edge() {
    let mut l = PizzaLimited::new_at(5, 0);
    assert_eq!(l.order_pizza(alice(), 5), Ok(5));
    assert_eq!(l.order_pizza(alice(), 1), Err(PizzaError::MaxOrderPerUserReached));
    assert_eq!(l.get_account_total(&alice()), 5);
    assert_eq!(l.get_remaining_supply(), 45);
    let mut z = PizzaLimited::new_at(0, 0);
    assert_eq!(z.order_pizza(alice(), 1), Err(PizzaError::MaxOrderPerUserReached));
}

#[test]
fn checks_come_in_order() {
    let mut l = PizzaLimited::new_at(0, 0);
    assert_eq!(l.order_pizza(alice(), 0), Err(PizzaError::CannotOrderZeroPizzas));
    assert_eq!(l.order_pizza(alice(), 51), Err(PizzaError::DailySupplyReached));
    assert_eq!(l.order_pizza(alice(), u32::MAX), Err(PizzaError::DailySupplyReached));
}

#[test]
fn reset_before_window_is_noop() {
    let mut l = PizzaLimited::new_at(5, 1_000);
    assert_eq!(l.order_pizza(alice(), 4), Ok(4));
    assert_eq!(l.reset_supply_at(1_000 + RESET_WINDOW - 1), 46);
    assert_eq!(l.get_last_reset(), 1_000);
    assert_eq!(l.reset_supply_at(0), 46);
    assert_eq!(l.get_last_reset(), 1_000);
}

#[test]
fn reset_after_window_restores_supply() {
    let mut l = PizzaLimited::new_at(5, 1_000);
    assert_eq!(l.order_pizza(alice(), 4), Ok(4));
    assert_eq!(l.reset_supply_at(1_000 + RESET_WINDOW), 50);
    assert_eq!(l.get_last_reset(), 1_000 + RESET_WINDOW);
    assert_eq!(l.get_account_total(&alice()), 4);
    assert_eq!(l.get_total_orders(), 4);
    assert_eq!(l.order_pizza(alice(), 2), Err(PizzaError::MaxOrderPerUserReached));
    assert_eq!(l.order_pizza(alice(), 1), Ok(5));
}

#[test]
fn reset_with_window_end_past_clock_range() {
    let mut l = PizzaLimited::new_at(5, u64::MAX - 10);
    assert_eq!(l.order_pizza(alice(), 1), Ok(1));
    assert_eq!(l.reset_supply_at(u64::MAX), 49);
}

#[test]
fn reset_reads_block_timestamp() {
    ink::env::test::set_block_timestamp::<DefaultEnvironment>(5_000);
    let mut l = PizzaLimited::new(5);
    assert_eq!(l.get_last_reset(), 5_000);
    assert_eq!(l.order_pizza(alice(), 2), Ok(2));
    assert_eq!(l.reset_supply(), 48);
    assert_eq!(l.get_last_reset(), 5_000);
    ink::env::test::set_block_timestamp::<DefaultEnvironment>(5_000 + RESET_WINDOW);
    assert_eq!(l.reset_supply(), 50);
    assert_eq!(l.get_last_reset(), 5_000 + RESET_WINDOW);
}

#[test]
fn total_orders_grow_by_accepted_quantity() {
    let mut l = PizzaLimited::new_at(5, 0);
    assert_eq!(l.order_pizza(alice(), 2), Ok(2));
    assert_eq!(l.get_total_orders(), 2);
    assert_eq!(l.order_pizza(alice(), 9), Err(PizzaError::MaxOrderPerUserReached));
    assert_eq!(l.get_total_orders(), 2);
    assert_eq!(l.reset_supply_at(RESET_WINDOW), 50);
    assert_eq!(l.get_total_orders(), 2);
    assert_eq!(l.order_pizza(bob(), 5), Ok(5));
    assert_eq!(l.get_total_orders(), 7);
}

#[test]
fn notices_record_accepted_orders() {
    let mut l = PizzaLimited::new_at(5, 0);
    assert_eq!(l.order_pizza(alice(), 2), Ok(2));
    assert_eq!(l.order_pizza(bob(), 0), Err(PizzaError::CannotOrderZeroPizzas));
    assert_eq!(l.order_pizza(bob(), 1), Ok(1));
    let events = l.take_events();
    assert_eq!(
        events,
        vec![
            PizzaOrdered { caller: Some(alice()), quantity_ordered: 2 },
            PizzaOrdered { caller: Some(bob()), quantity_ordered: 1 },
        ]
    );
    assert!(l.take_events().is_empty());
}

#[test]
fn accounts_compare_by_bytes() {
    let mut b = [1u8; 32];
    assert!(alice().same_as(&AccountId::new(b)));
    b[31] = 0;
    assert!(!alice().same_as(&AccountId::new(b)));
}

#[test]
fn order_fits_for_ordinary_orders() {
    let mut l = PizzaLimited::new_at(5, 0);
    assert!(l.order_fits(&alice(), 3));
    assert!(l.order_fits(&alice(), 0));
    assert!(l.order_fits(&alice(), 60));
    assert_eq!(l.order_pizza(alice(), 3), Ok(3));
    assert!(l.order_fits(&alice(), 2));
}

#[test]
fn reset_can_clear_account_totals() {
    let mut l = PizzaLimited::new_with_policy(5, 0, true);
    assert_eq!(l.order_pizza(alice(), 5), Ok(5));
    assert_eq!(l.order_pizza(alice(), 1), Err(PizzaError::MaxOrderPerUserReached));
    assert_eq!(l.reset_supply_at(RESET_WINDOW - 1), 45);
    assert_eq!(l.get_account_total(&alice()), 5);
    assert_eq!(l.reset_supply_at(RESET_WINDOW), 50);
    assert_eq!(l.get_account_total(&alice()), 0);
    assert_eq!(l.get_total_orders(), 5);
    assert_eq!(l.order_pizza(alice(), 1), Ok(1));
}
