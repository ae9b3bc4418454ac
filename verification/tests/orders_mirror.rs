//! The in-memory mirror of the operator's orders: lookups, filters,
//! sorting and mutation.

use wf_trader::orders::Orders;
use wf_trader::types::{Order, OrderType, OrderUser, SubType};

fn order(id: &str, url: &str, side: OrderType, platinum: i64, sub: Option<SubType>) -> Order {
    Order {
        id: id.to_string(),
        item_url: url.to_string(),
        sub_type: sub,
        order_type: side,
        platinum,
        quantity: 1,
        visible: true,
        user: None,
        closed_avg: None,
        profit: None,
    }
}

fn with_user(mut o: Order, name: &str) -> Order {
    o.user = Some(OrderUser { id: format!("id_{}", name), ingame_name: name.to_string() });
    o
}

#[test]
fn find_matches_url_and_sub_type() {
    let mut m = Orders::new();
    m.buy_orders.push(order("b1", "a", OrderType::Buy, 10, None));
    m.buy_orders.push(order("b2", "a", OrderType::Buy, 12, Some(SubType::from_rank(3))));
    let plain = m.find_order_by_url_sub_type(&"a".to_string(), OrderType::Buy, &None).unwrap();
    assert_eq!(plain.id, "b1");
    let ranked = m
        .find_order_by_url_sub_type(
            &"a".to_string(),
            OrderType::Buy,
            &Some(SubType::from_rank(3)),
        )
        .unwrap();
    assert_eq!(ranked.id, "b2");
    assert!(m.find_order_by_url_sub_type(&"a".to_string(), OrderType::Sell, &None).is_none());
}

#[test]
fn filter_by_sub_type_drops_unset_when_asked() {
    let mut m = Orders::new();
    m.sell_orders.push(order("s1", "a", OrderType::Sell, 10, None));
    m.sell_orders.push(order("s2", "a", OrderType::Sell, 11, Some(SubType::from_rank(3))));
    let kept = m.filter_by_sub_type(&Some(SubType::from_rank(3)), false);
    assert_eq!(kept.sell_orders.len(), 1);
    assert_eq!(kept.sell_orders[0].id, "s2");
}

#[test]
fn filter_by_sub_type_keeps_unset_when_included() {
    let mut m = Orders::new();
    m.sell_orders.push(order("s1", "a", OrderType::Sell, 10, None));
    m.sell_orders.push(order("s2", "a", OrderType::Sell, 11, Some(SubType::from_rank(3))));
    let kept = m.filter_by_sub_type(&Some(SubType::from_rank(3)), true);
    assert_eq!(kept.sell_orders.len(), 2);
}

#[test]
fn filter_by_username_excludes_own_listings() {
    let mut m = Orders::new();
    m.sell_orders.push(with_user(order("s1", "a", OrderType::Sell, 10, None), "me"));
    m.sell_orders.push(with_user(order("s2", "a", OrderType::Sell, 11, None), "rival"));
    let without_me = m.filter_by_username(&"me".to_string(), true);
    assert_eq!(without_me.sell_orders.len(), 1);
    assert_eq!(without_me.sell_orders[0].id, "s2");
}

#[test]
fn sort_by_platinum_orders_both_sides() {
    let mut m = Orders::new();
    m.sell_orders.push(order("s1", "a", OrderType::Sell, 30, None));
    m.sell_orders.push(order("s2", "a", OrderType::Sell, 10, None));
    m.sell_orders.push(order("s3", "a", OrderType::Sell, 20, None));
    m.sort_by_platinum();
    let prices: Vec<i64> = m.sell_orders.iter().map(|o| o.platinum).collect();
    assert_eq!(prices, vec![10, 20, 30]);
}

#[test]
fn highest_lowest_and_range() {
    let mut m = Orders::new();
    m.sell_orders.push(order("s1", "a", OrderType::Sell, 50, None));
    m.sell_orders.push(order("s2", "a", OrderType::Sell, 60, None));
    m.buy_orders.push(order("b1", "a", OrderType::Buy, 5, None));
    assert_eq!(m.highest_price(OrderType::Buy), 5);
    assert_eq!(m.highest_price(OrderType::Sell), 60);
    assert_eq!(m.lowest_order(OrderType::Sell).unwrap().id, "s1");
    // The spread is the highest sell less the lowest sell.
    assert_eq!(m.get_price_range(), 10);
    assert_eq!(m.total_count(), 3);
}

#[test]
fn empty_sides_yield_zero_prices() {
    let m = Orders::new();
    assert_eq!(m.highest_price(OrderType::Buy), 0);
    assert!(m.lowest_order(OrderType::Sell).is_none());
    assert_eq!(m.get_price_range(), 0);
}

#[test]
fn update_order_replaces_by_id() {
    let mut m = Orders::new();
    m.buy_orders.push(order("b1", "a", OrderType::Buy, 10, None));
    let mut newer = order("b1", "a", OrderType::Buy, 15, None);
    newer.quantity = 2;
    m.update_order(newer);
    assert_eq!(m.buy_orders.len(), 1);
    assert_eq!(m.buy_orders[0].platinum, 15);
    assert_eq!(m.buy_orders[0].quantity, 2);
}

#[test]
fn delete_order_by_id_removes_one_side_only() {
    let mut m = Orders::new();
    m.buy_orders.push(order("x", "a", OrderType::Buy, 10, None));
    m.sell_orders.push(order("x", "a", OrderType::Sell, 10, None));
    m.delete_order_by_id(OrderType::Buy, &"x".to_string());
    assert!(m.buy_orders.is_empty());
    assert_eq!(m.sell_orders.len(), 1);
}
