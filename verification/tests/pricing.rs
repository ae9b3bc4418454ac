//! End-to-end scenarios of the buy- and sell-side decision engines.

use wf_trader::buy::{compare_live_orders_when_buying, BuyAction};
use wf_trader::orders::Orders;
use wf_trader::sell::{
    apply_sell_create_result, compare_live_orders_when_selling, sell_row_changed, SellAction,
};
use wf_trader::stock::{StockItemStruct, UnitPrice};
use wf_trader::types::{
    Order, OrderMode, OrderType, OrderUser, Settings, StockStatus, SubType, TradableItem,
};

fn settings(avg_price_cap: i64, max_total_price_cap: i64) -> Settings {
    Settings {
        order_mode: OrderMode::Both,
        blacklist: vec![],
        whitelist: vec![],
        strict_whitelist: false,
        volume_threshold: 0,
        range_threshold: 0,
        avg_price_cap,
        max_total_price_cap,
        price_shift_threshold: 0,
        min_sma: 0,
        min_profit: 0,
        stock_mode: "item".to_string(),
    }
}

fn item(url: &str) -> TradableItem {
    TradableItem {
        wfm_id: format!("id_{}", url),
        wfm_url_name: url.to_string(),
        name: url.to_string(),
        max_rank: Some(0),
        tags: vec![],
    }
}

fn order(
    id: &str,
    url: &str,
    side: OrderType,
    platinum: i64,
    visible: bool,
    sub_type: Option<SubType>,
    user: Option<(&str, &str)>,
) -> Order {
    Order {
        id: id.to_string(),
        item_url: url.to_string(),
        sub_type,
        order_type: side,
        platinum,
        quantity: 1,
        visible,
        user: user.map(|(uid, name)| OrderUser {
            id: uid.to_string(),
            ingame_name: name.to_string(),
        }),
        closed_avg: None,
        profit: None,
    }
}

fn rank0() -> Option<SubType> {
    Some(SubType::from_rank(0))
}

fn stock_row(bought: u128, owned: i64) -> StockItemStruct {
    StockItemStruct {
        id: 1,
        wfm_id: "id_x".to_string(),
        wfm_url: "x".to_string(),
        display_name: "x".to_string(),
        tags: vec![],
        rank: 0,
        sub_type: None,
        bought: UnitPrice { num: bought, den: 1 },
        minimum_price: None,
        list_price: None,
        price_history: vec![],
        owned,
        is_hidden: false,
        status: StockStatus::Pending,
        created_at: "2024-01-01 00:00:00".to_string(),
    }
}

#[test]
fn buy_no_sellers_means_no_action() {
    // No live sellers at all: the decision skips, whatever else holds.
    let my = Orders::new();
    let mut live = Orders::new();
    live.buy_orders.push(order("b1", "x", OrderType::Buy, 10, true, rank0(), None));
    let plan =
        compare_live_orders_when_buying(&item("x"), Some(0), &my, live, 40, &settings(80, 200));
    assert!(matches!(plan.action, BuyAction::Skip));
    assert!(plan.deletions.is_empty());
}

#[test]
fn buy_new_order_in_empty_market() {
    // Sellers at 50 and 60, no real bids: range 10, average 40 above 25,
    // so the empty-market price is max(10 - 40, 10/3 - 1) = 2 and a buy
    // order is created at 2 platinum, quantity 1. (A zero-platinum bid
    // keeps the bid side non-empty without raising the highest bid.)
    let my = Orders::new();
    let mut live = Orders::new();
    live.sell_orders.push(order("s1", "x", OrderType::Sell, 50, true, rank0(), None));
    live.sell_orders.push(order("s2", "x", OrderType::Sell, 60, true, rank0(), None));
    live.buy_orders.push(order("b0", "x", OrderType::Buy, 0, true, rank0(), None));
    let plan =
        compare_live_orders_when_buying(&item("x"), Some(0), &my, live, 40, &settings(80, 200));
    assert_eq!(plan.post_price, 2);
    assert_eq!(plan.status, StockStatus::Live);
    match plan.action {
        BuyAction::CreateOrder { platinum, quantity, .. } => {
            assert_eq!(platinum, 2);
            assert_eq!(quantity, 1);
        }
        other => panic!("expected a creation, got {:?}", other),
    }
    assert!(plan.deletions.is_empty());
}

#[test]
fn buy_skips_when_bid_side_is_empty() {
    // With a truly empty bid side the decision returns before acting.
    let my = Orders::new();
    let mut live = Orders::new();
    live.sell_orders.push(order("s1", "x", OrderType::Sell, 50, true, rank0(), None));
    live.sell_orders.push(order("s2", "x", OrderType::Sell, 60, true, rank0(), None));
    let plan =
        compare_live_orders_when_buying(&item("x"), Some(0), &my, live, 40, &settings(80, 200));
    assert!(matches!(plan.action, BuyAction::Skip));
    assert!(plan.deletions.is_empty());
}

#[test]
fn buy_overpriced_item_is_skipped() {
    // A single live bid at 300 with a cap of 80: the post price follows
    // the bid, the status becomes Overpriced, and nothing happens.
    let my = Orders::new();
    let mut live = Orders::new();
    live.sell_orders.push(order("s1", "x", OrderType::Sell, 200, true, rank0(), None));
    live.sell_orders.push(order("s2", "x", OrderType::Sell, 210, true, rank0(), None));
    live.buy_orders.push(order("b1", "x", OrderType::Buy, 300, true, rank0(), None));
    let plan =
        compare_live_orders_when_buying(&item("x"), Some(0), &my, live, 40, &settings(80, 200));
    assert_eq!(plan.post_price, 300);
    assert_eq!(plan.status, StockStatus::Overpriced);
    assert!(matches!(plan.action, BuyAction::Skip));
    assert!(plan.deletions.is_empty());
}

#[test]
fn buy_overpriced_gate_not_taken_when_live() {
    // A high average with low sell prices: the empty-market branch fires,
    // sets Live, and the Overpriced gate is not taken afterwards.
    let my = Orders::new();
    let mut live = Orders::new();
    live.sell_orders.push(order("s1", "x", OrderType::Sell, 200, true, rank0(), None));
    live.sell_orders.push(order("s2", "x", OrderType::Sell, 210, true, rank0(), None));
    live.buy_orders.push(order("b0", "x", OrderType::Buy, 0, true, rank0(), None));
    let plan =
        compare_live_orders_when_buying(&item("x"), Some(0), &my, live, 1000, &settings(80, 200));
    assert_eq!(plan.post_price, 2);
    assert_eq!(plan.status, StockStatus::Live);
}

#[test]
fn buy_knapsack_keeps_better_pair_and_reports_underpriced() {
    // Existing orders: A at 50 platinum with profit 5, B at 100 with
    // profit 20. The candidate C costs 80 with profit 15 under a 150 cap.
    // The best feasible set is {A, B} worth 25, so C is unselected: the
    // status is Underpriced and nothing is deleted or created.
    let mut my = Orders::new();
    let mut a = order("ord_a", "item_a", OrderType::Buy, 50, true, None, None);
    a.profit = Some(5);
    let mut b = order("ord_b", "item_b", OrderType::Buy, 100, true, None, None);
    b.profit = Some(20);
    my.buy_orders.push(a);
    my.buy_orders.push(b);
    let mut live = Orders::new();
    live.sell_orders.push(order("s1", "c", OrderType::Sell, 100, true, rank0(), None));
    live.sell_orders.push(order("s2", "c", OrderType::Sell, 130, true, rank0(), None));
    live.buy_orders.push(order("b1", "c", OrderType::Buy, 80, true, rank0(), None));
    let plan =
        compare_live_orders_when_buying(&item("c"), Some(0), &my, live, 96, &settings(200, 150));
    assert_eq!(plan.post_price, 80);
    assert_eq!(plan.potential_profit, 15);
    assert_eq!(plan.status, StockStatus::Underpriced);
    assert!(plan.deletions.is_empty());
    assert!(matches!(plan.action, BuyAction::Skip));
}

#[test]
fn buy_knapsack_evicts_weaker_order_when_candidate_wins() {
    // One existing order at 100 platinum with profit 2; the candidate
    // costs 80 with profit 15 under a 150 cap. Only one of the two fits,
    // and the candidate is worth more: the old order is evicted and the
    // candidate goes live.
    let mut my = Orders::new();
    let mut weak = order("ord_weak", "item_w", OrderType::Buy, 100, true, None, None);
    weak.profit = Some(2);
    my.buy_orders.push(weak);
    let mut live = Orders::new();
    live.sell_orders.push(order("s1", "c", OrderType::Sell, 100, true, rank0(), None));
    live.sell_orders.push(order("s2", "c", OrderType::Sell, 130, true, rank0(), None));
    live.buy_orders.push(order("b1", "c", OrderType::Buy, 80, true, rank0(), None));
    let plan =
        compare_live_orders_when_buying(&item("c"), Some(0), &my, live, 96, &settings(200, 150));
    assert_eq!(plan.status, StockStatus::Live);
    assert_eq!(plan.deletions, vec!["ord_weak".to_string()]);
    match plan.action {
        BuyAction::CreateOrder { platinum, quantity, .. } => {
            assert_eq!(platinum, 80);
            assert_eq!(quantity, 1);
        }
        other => panic!("expected a creation, got {:?}", other),
    }
}

#[test]
fn sell_few_sellers_reports_no_sellers() {
    // Two or fewer live sell orders: the row goes NoSellers and no order
    // is created.
    let my = Orders::new();
    let mut live = Orders::new();
    live.sell_orders.push(order("s1", "x", OrderType::Sell, 45, true, None, Some(("u1", "u1"))));
    live.sell_orders.push(order("s2", "x", OrderType::Sell, 46, true, None, Some(("u2", "u2"))));
    let row = stock_row(30, 2);
    let plan = compare_live_orders_when_selling(&item("x"), 0, &my, live, &row, &settings(80, 200));
    assert_eq!(plan.row.status, StockStatus::NoSellers);
    assert!(matches!(plan.action, SellAction::Skip));
    assert!(plan.persist);
}

#[test]
fn sell_with_moving_average_clamp() {
    // Lowest of three sellers is 45; bought is 30 so the cost floor does
    // not bind; 45 is below 80 - 20, so the price clamps to the moving
    // average 80 under SMALimit; profit 50 appends a history entry from
    // the cheapest seller and a sell order is created at (80, 2).
    let my = Orders::new();
    let mut live = Orders::new();
    live.sell_orders.push(order("s1", "x", OrderType::Sell, 45, true, None, Some(("u1", "u1"))));
    live.sell_orders.push(order("s2", "x", OrderType::Sell, 46, true, None, Some(("u2", "u2"))));
    live.sell_orders.push(order("s3", "x", OrderType::Sell, 47, true, None, Some(("u3", "u3"))));
    let row = stock_row(30, 2);
    let mut s = settings(80, 200);
    s.min_sma = 20;
    s.min_profit = 5;
    let plan = compare_live_orders_when_selling(&item("x"), 80, &my, live, &row, &s);
    assert_eq!(plan.row.status, StockStatus::SMALimit);
    assert_eq!(plan.row.list_price, Some(80));
    assert_eq!(plan.row.price_history.len(), 1);
    assert_eq!(plan.row.price_history[0].price, 80);
    assert_eq!(plan.row.price_history[0].user_id, "u1");
    match plan.action {
        SellAction::CreateOrder { platinum, quantity, .. } => {
            assert_eq!(platinum, 80);
            assert_eq!(quantity, 2);
        }
        other => panic!("expected a creation, got {:?}", other),
    }
    assert!(plan.persist);
}

#[test]
fn sell_hidden_row_deletes_visible_order() {
    // A hidden row with a visible sell order: the order is deleted and no
    // pricing happens.
    let mut my = Orders::new();
    my.sell_orders.push(order("mine", "x", OrderType::Sell, 50, true, None, None));
    let mut live = Orders::new();
    live.sell_orders.push(order("s1", "x", OrderType::Sell, 45, true, None, Some(("u1", "u1"))));
    live.sell_orders.push(order("s2", "x", OrderType::Sell, 46, true, None, Some(("u2", "u2"))));
    live.sell_orders.push(order("s3", "x", OrderType::Sell, 47, true, None, Some(("u3", "u3"))));
    let mut row = stock_row(30, 2);
    row.is_hidden = true;
    let plan = compare_live_orders_when_selling(&item("x"), 0, &my, live, &row, &settings(80, 200));
    match plan.action {
        SellAction::DeleteHidden { order_id } => assert_eq!(order_id, "mine"),
        other => panic!("expected the hidden cleanup, got {:?}", other),
    }
    assert!(!plan.persist);
    assert_eq!(plan.row.status, StockStatus::Pending);
}

#[test]
fn sell_low_profit_clears_listing() {
    // Bought at 50 and the market sells at 40: the cost floor posts
    // 50 + 0 but the profit is zero, so the status is ToLowProfit and the
    // listed price is cleared.
    let my = Orders::new();
    let mut live = Orders::new();
    live.sell_orders.push(order("s1", "x", OrderType::Sell, 40, true, None, Some(("u1", "u1"))));
    live.sell_orders.push(order("s2", "x", OrderType::Sell, 41, true, None, Some(("u2", "u2"))));
    live.sell_orders.push(order("s3", "x", OrderType::Sell, 42, true, None, Some(("u3", "u3"))));
    let row = stock_row(50, 1);
    let plan = compare_live_orders_when_selling(&item("x"), 0, &my, live, &row, &settings(80, 200));
    assert_eq!(plan.row.status, StockStatus::ToLowProfit);
    assert_eq!(plan.row.list_price, None);
    assert!(matches!(plan.action, SellAction::Skip));
}

#[test]
fn sell_order_limit_is_a_soft_failure() {
    // The remote answers "order_limit_reached" with no order: the row goes
    // OrderLimit with no listed price, and the caller persists it.
    let mut row = stock_row(30, 2);
    row.status = StockStatus::Live;
    row.list_price = Some(80);
    let before = row.clone();
    let limit = apply_sell_create_result(&mut row, &"order_limit_reached".to_string());
    assert!(limit);
    assert_eq!(row.status, StockStatus::OrderLimit);
    assert_eq!(row.list_price, None);
    assert!(sell_row_changed(&row, &before));
}

#[test]
fn sell_create_result_without_limit_changes_nothing() {
    let mut row = stock_row(30, 2);
    row.status = StockStatus::Live;
    row.list_price = Some(80);
    let limit = apply_sell_create_result(&mut row, &"ok".to_string());
    assert!(!limit);
    assert_eq!(row.status, StockStatus::Live);
    assert_eq!(row.list_price, Some(80));
}

#[test]
fn sell_second_pass_is_quiet() {
    // Run the sell decision, adopt its row and pretend the order was
    // created at the decided price; a second pass over the same live data
    // neither acts nor persists.
    let my = Orders::new();
    let mut live = Orders::new();
    for (i, p) in [(1, 45), (2, 46), (3, 47)] {
        live.sell_orders.push(order(
            &format!("s{}", i),
            "x",
            OrderType::Sell,
            p,
            true,
            None,
            Some(("u", "u")),
        ));
    }
    let row = stock_row(30, 2);
    let mut s = settings(80, 200);
    s.min_sma = 20;
    s.min_profit = 5;
    let mut live2 = Orders::new();
    for o in &live.sell_orders {
        live2.sell_orders.push(o.clone());
    }
    let plan = compare_live_orders_when_selling(&item("x"), 80, &my, live, &row, &s);
    let posted = match plan.action {
        SellAction::CreateOrder { platinum, quantity, .. } => (platinum, quantity),
        ref other => panic!("expected a creation, got {:?}", other),
    };
    let mut my2 = Orders::new();
    let mut mine = order("mine", "x", OrderType::Sell, posted.0, true, None, None);
    mine.quantity = posted.1;
    my2.sell_orders.push(mine);
    let plan2 = compare_live_orders_when_selling(&item("x"), 80, &my2, live2, &plan.row, &s);
    assert!(matches!(plan2.action, SellAction::Skip));
    assert!(!plan2.persist);
}

#[test]
fn buy_second_pass_is_quiet() {
    // After the empty-market creation, a second pass with the order
    // visible at the decided price does nothing.
    let my = Orders::new();
    let mut live = Orders::new();
    live.sell_orders.push(order("s1", "x", OrderType::Sell, 50, true, rank0(), None));
    live.sell_orders.push(order("s2", "x", OrderType::Sell, 60, true, rank0(), None));
    live.buy_orders.push(order("b0", "x", OrderType::Buy, 0, true, rank0(), None));
    let mut live2 = Orders::new();
    for o in &live.sell_orders {
        live2.sell_orders.push(o.clone());
    }
    for o in &live.buy_orders {
        live2.buy_orders.push(o.clone());
    }
    let plan =
        compare_live_orders_when_buying(&item("x"), Some(0), &my, live, 40, &settings(80, 200));
    let posted = match plan.action {
        BuyAction::CreateOrder { platinum, .. } => platinum,
        ref other => panic!("expected a creation, got {:?}", other),
    };
    let mut my2 = Orders::new();
    my2.buy_orders.push(order("mine", "x", OrderType::Buy, posted, true, rank0(), None));
    let plan2 =
        compare_live_orders_when_buying(&item("x"), Some(0), &my2, live2, 40, &settings(80, 200));
    assert!(matches!(plan2.action, BuyAction::Skip));
    assert!(plan2.deletions.is_empty());
}
