//! The interesting-items selection, its memo, the per-cycle URL list, the
//! order-pruning plans and the knapsack allocator.

use wf_trader::knapsack::{knapsack, KnapsackEntry};
use wf_trader::live::{
    delete_orders_plan, filter_interesting_items, interesting_urls, orders_to_prune,
    str_starts_with, ItemModule,
};
use wf_trader::orders::Orders;
use wf_trader::types::{
    ItemPriceInfo, Order, OrderMode, OrderType, PriceOrderKind, Settings,
};

fn settings() -> Settings {
    Settings {
        order_mode: OrderMode::Both,
        blacklist: vec![],
        whitelist: vec![],
        strict_whitelist: false,
        volume_threshold: 10,
        range_threshold: 5,
        avg_price_cap: 100,
        max_total_price_cap: 500,
        price_shift_threshold: 0,
        min_sma: 0,
        min_profit: 0,
        stock_mode: "item".to_string(),
    }
}

fn record(url: &str, volume: i64, range: i64, avg: i64, shift: i64) -> ItemPriceInfo {
    ItemPriceInfo {
        url_name: url.to_string(),
        order_type: PriceOrderKind::Closed,
        volume,
        range,
        avg_price: avg,
        moving_avg: None,
        week_price_shift: shift,
        mod_rank: None,
    }
}

fn order(id: &str, url: &str, side: OrderType, platinum: i64) -> Order {
    Order {
        id: id.to_string(),
        item_url: url.to_string(),
        sub_type: None,
        order_type: side,
        platinum,
        quantity: 1,
        visible: true,
        user: None,
        closed_avg: None,
        profit: None,
    }
}

#[test]
fn empty_inputs_select_nothing() {
    // With no statistics, no whitelist and no stock the selection and the
    // per-cycle URL list are both empty.
    let s = settings();
    let selected = filter_interesting_items(vec![], &s, &vec![]);
    assert!(selected.is_empty());
    let urls = interesting_urls(OrderMode::Both, &vec![], &vec![], &vec![]);
    assert!(urls.is_empty());
}

#[test]
fn selection_applies_thresholds_and_blacklist() {
    let mut s = settings();
    s.blacklist = vec!["banned".to_string()];
    let items = vec![
        record("good", 20, 9, 50, 1),
        record("thin", 5, 9, 50, 1),     // volume at or below the threshold
        record("narrow", 20, 5, 50, 1),  // range at or below the threshold
        record("banned", 20, 9, 50, 1),  // blacklisted
        record("falling", 20, 9, 50, -1),// shift below the threshold
    ];
    let selected = filter_interesting_items(items, &s, &vec![]);
    let urls: Vec<&str> = selected.iter().map(|r| r.url_name.as_str()).collect();
    assert_eq!(urls, vec!["good"]);
}

#[test]
fn selection_keeps_stock_items_regardless_of_thresholds() {
    let s = settings();
    let items = vec![record("held", 0, 0, 50, -5)];
    let selected = filter_interesting_items(items, &s, &vec!["held".to_string()]);
    assert_eq!(selected.len(), 1);
    assert_eq!(selected[0].url_name, "held");
}

#[test]
fn strict_whitelist_overrides_price_cap() {
    let mut s = settings();
    s.strict_whitelist = true;
    s.whitelist = vec!["dear".to_string()];
    let items = vec![
        record("dear", 20, 9, 1000, 1),
        record("other", 20, 9, 50, 1),
    ];
    let selected = filter_interesting_items(items, &s, &vec![]);
    let urls: Vec<&str> = selected.iter().map(|r| r.url_name.as_str()).collect();
    // Outside the whitelist nothing passes under a strict whitelist; the
    // whitelisted item passes although it is above the price cap.
    assert_eq!(urls, vec!["dear"]);
}

#[test]
fn cycle_urls_are_deduplicated_in_first_occurrence_order() {
    let whitelist = vec!["a".to_string(), "b".to_string()];
    let stock = vec!["b".to_string(), "c".to_string()];
    let selected = vec![record("c", 20, 9, 50, 1), record("d", 20, 9, 50, 1)];
    let urls = interesting_urls(OrderMode::Both, &whitelist, &stock, &selected);
    assert_eq!(urls, vec!["a", "b", "c", "d"]);
}

#[test]
fn cycle_urls_respect_the_order_mode() {
    let whitelist = vec!["a".to_string()];
    let stock = vec!["s".to_string()];
    let selected = vec![record("p", 20, 9, 50, 1)];
    assert_eq!(interesting_urls(OrderMode::Buy, &whitelist, &stock, &selected), vec!["a", "p"]);
    assert_eq!(interesting_urls(OrderMode::Sell, &whitelist, &stock, &selected), vec!["a", "s"]);
}

#[test]
fn memo_returns_stored_selection_and_evicts_by_prefix() {
    let mut m = ItemModule::new();
    m.add_cache_queried("get_buy|vol:1".to_string(), vec![record("a", 1, 1, 1, 1)]);
    let hit = m.get_cache_queried("get_buy|vol:1").unwrap();
    assert_eq!(hit.len(), 1);
    assert!(m.get_cache_queried("get_buy|vol:2").is_none());
    m.remove_cache_queried("get_buy|");
    assert!(m.get_cache_queried("get_buy|vol:1").is_none());
}

#[test]
fn memoized_selection_is_reused() {
    let mut m = ItemModule::new();
    let s = settings();
    let items = vec![record("good", 20, 9, 50, 1)];
    let first = m.get_interesting_items("key|a".to_string(), items, &s, &vec![]);
    assert_eq!(first.len(), 1);
    // A second call under the same key returns the stored selection even
    // though the statistics are now empty.
    let second = m.get_interesting_items("key|a".to_string(), vec![], &s, &vec![]);
    assert_eq!(second.len(), 1);
    assert_eq!(second[0].url_name, "good");
}

#[test]
fn prefix_test_matches_string_prefixes() {
    assert!(str_starts_with("get_buy|", "get_buy|vol:1"));
    assert!(!str_starts_with("get_sell|", "get_buy|vol:1"));
    assert!(str_starts_with("", "anything"));
    assert!(!str_starts_with("longer", "long"));
}

#[test]
fn pruning_removes_the_opposite_side_except_blacklisted() {
    let mut my = Orders::new();
    my.buy_orders.push(order("b1", "a", OrderType::Buy, 10));
    my.sell_orders.push(order("s1", "b", OrderType::Sell, 20));
    my.sell_orders.push(order("s2", "keep", OrderType::Sell, 30));
    let blacklist = vec!["keep".to_string()];
    assert_eq!(orders_to_prune(OrderMode::Buy, &my, &blacklist), vec!["s1"]);
    assert_eq!(orders_to_prune(OrderMode::Sell, &my, &blacklist), vec!["b1"]);
    assert!(orders_to_prune(OrderMode::Both, &my, &blacklist).is_empty());
}

#[test]
fn bulk_deletion_covers_the_selected_sides() {
    let mut my = Orders::new();
    my.buy_orders.push(order("b1", "a", OrderType::Buy, 10));
    my.sell_orders.push(order("s1", "b", OrderType::Sell, 20));
    let none: Vec<String> = vec![];
    assert_eq!(delete_orders_plan(OrderMode::Both, &my, &none), vec!["b1", "s1"]);
    assert_eq!(delete_orders_plan(OrderMode::Buy, &my, &none), vec!["b1"]);
    assert_eq!(delete_orders_plan(OrderMode::Sell, &my, &none), vec!["s1"]);
}

#[test]
fn knapsack_picks_the_optimal_subset() {
    // A(50, 5), B(100, 20), C(80, 15) under a cap of 150: the best
    // feasible subset is {A, B} worth 25; C stays out.
    let entries = vec![
        KnapsackEntry { weight: 50, value: 5, url: "a".to_string(), order_id: "ia".to_string() },
        KnapsackEntry { weight: 100, value: 20, url: "b".to_string(), order_id: "ib".to_string() },
        KnapsackEntry { weight: 80, value: 15, url: "c".to_string(), order_id: "".to_string() },
    ];
    let (best, selected, unselected) = knapsack(&entries, 150);
    assert_eq!(best, 25);
    assert_eq!(selected, vec![1, 0]);
    assert_eq!(unselected, vec![2]);
}

#[test]
fn knapsack_with_no_capacity_selects_nothing() {
    let entries = vec![KnapsackEntry {
        weight: 1,
        value: 10,
        url: "a".to_string(),
        order_id: "ia".to_string(),
    }];
    let (best, selected, unselected) = knapsack(&entries, 0);
    assert_eq!(best, 0);
    assert!(selected.is_empty());
    assert_eq!(unselected, vec![0]);
}

#[test]
fn annotation_fills_average_and_profit() {
    let mut my = Orders::new();
    my.buy_orders.push(order("b1", "a", OrderType::Buy, 10));
    my.buy_orders.push(order("b2", "gone", OrderType::Buy, 10));
    let interesting = vec!["a".to_string()];
    let stats = vec![record("a", 20, 9, 45, 1)];
    wf_trader::live::annotate_buy_orders(&mut my, &interesting, &stats);
    assert_eq!(my.buy_orders.len(), 1);
    assert_eq!(my.buy_orders[0].closed_avg, Some(45));
    assert_eq!(my.buy_orders[0].profit, Some(35));
}
