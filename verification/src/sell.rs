//! The sell-side decision engine: from a stock row, the live sell orders
//! and the moving average it derives the posting price, the row's next
//! status, the price-history append, and at most one remote action. The
//! surrounding program performs the remote call and feeds a creation
//! outcome back through `apply_sell_create_result`.

use vstd::prelude::*;

use crate::buy::{exists_visible, first_visible};
use crate::orders::{all_plat_ok, keeps_sub_type, min_platinum, Orders};
use crate::stock::{history_eqv, stock_eqv, StockItemStruct};
use crate::types::{
    opt_sub_type_eqv, plat_ok, Order, Platinum, Settings, StockStatus, SubType, TradableItem,
    PLAT_LIMIT,
};

verus! {

/// The single remote action a sell plan may carry.
#[derive(Debug)]
pub enum SellAction {
    Skip,
    DeleteHidden { order_id: String },
    DeleteLowProfit { order_id: String },
    UpdateOrder { order_id: String, platinum: i64, quantity: i64 },
    CreateOrder { wfm_id: String, platinum: i64, quantity: i64, sub_type: Option<SubType> },
}

/// The outcome of the sell-side decision for one stock row: the row as the
/// decision leaves it, the remote action, and whether the row changed and
/// must be persisted.
#[derive(Debug)]
pub struct SellPlan {
    pub row: StockItemStruct,
    pub action: SellAction,
    pub persist: bool,
}

/// The price after the cost floor: never sell below cost plus the minimum
/// profit.
pub open spec fn sell_post_cost(lowest: int, bought: int, min_profit: int) -> int {
    if bought > lowest {
        bought + min_profit
    } else {
        lowest
    }
}

/// Whether the moving-average clamp applies.
pub open spec fn sell_sma_applies(lowest: int, bought: int, ma: int, settings: Settings) -> bool {
    sell_post_cost(lowest, bought, settings.min_profit as int) < ma - settings.min_sma
}

/// The price after the moving-average clamp.
pub open spec fn sell_post_sma(lowest: int, bought: int, ma: int, settings: Settings) -> int {
    if sell_sma_applies(lowest, bought, ma, settings) {
        ma
    } else {
        sell_post_cost(lowest, bought, settings.min_profit as int)
    }
}

/// The final posting price, after the operator's minimum price.
pub open spec fn sell_post_final(
    lowest: int,
    bought: int,
    ma: int,
    settings: Settings,
    minimum: Option<Platinum>,
) -> int {
    let p = sell_post_sma(lowest, bought, ma, settings);
    match minimum {
        Option::Some(m) => if p < m {
            m as int
        } else {
            p
        },
        Option::None => p,
    }
}

/// The row's next status when sellers exist: too low a profit wins, then
/// the moving-average clamp, else the listing goes live.
pub open spec fn sell_status(
    lowest: int,
    bought: int,
    ma: int,
    settings: Settings,
    minimum: Option<Platinum>,
) -> StockStatus {
    let post = sell_post_final(lowest, bought, ma, settings, minimum);
    if post - bought <= 0 {
        StockStatus::ToLowProfit
    } else if sell_sma_applies(lowest, bought, ma, settings) {
        StockStatus::SMALimit
    } else {
        StockStatus::Live
    }
}

/// Whether the decision appends a price-history entry: only a profitable
/// price that differs from the last recorded one is recorded.
pub open spec fn sell_appends_history(row: StockItemStruct, post: int, profit: int) -> bool {
    profit > 0 && (row.price_history@.len() == 0 || row.price_history@.last().price != post)
}

/// All fields of `b` carried over to `a` unchanged, except the status, the
/// listed price and the price history.
pub open spec fn row_same_but_listing(a: StockItemStruct, b: StockItemStruct) -> bool {
    &&& a.id == b.id
    &&& a.wfm_id@ == b.wfm_id@
    &&& a.wfm_url@ == b.wfm_url@
    &&& a.display_name@ == b.display_name@
    &&& crate::stock::strings_eqv(a.tags@, b.tags@)
    &&& a.rank == b.rank
    &&& opt_sub_type_eqv(a.sub_type, b.sub_type)
    &&& a.bought == b.bought
    &&& a.minimum_price == b.minimum_price
    &&& a.owned == b.owned
    &&& a.is_hidden == b.is_hidden
    &&& a.created_at@ == b.created_at@
}

/// What the sell-side decision promises of its plan.
pub open spec fn sell_plan_post(
    item: TradableItem,
    ma: int,
    my: Orders,
    live: Orders,
    stock: StockItemStruct,
    settings: Settings,
    plan: SellPlan,
) -> bool {
    let st = stock.sub_type;
    let visible = exists_visible(my.sell_orders@, item.wfm_url_name@, st);
    let ls = live.sell_orders@.filter(|o: Order| keeps_sub_type(o, st, false));
    if visible && stock.is_hidden {
        &&& (match first_visible(my.sell_orders@, item.wfm_url_name@, st) {
            Option::Some(u) => plan.action matches SellAction::DeleteHidden { order_id }
                && order_id@ == u.id@,
            Option::None => false,
        })
        &&& stock_eqv(plan.row, stock)
        &&& !plan.persist
    } else if ls.len() <= 2 {
        &&& plan.row.status == StockStatus::NoSellers
        &&& plan.row.list_price == stock.list_price
        &&& history_eqv(plan.row.price_history@, stock.price_history@)
        &&& row_same_but_listing(plan.row, stock)
        &&& plan.action is Skip
        &&& plan.persist == (stock.status != StockStatus::NoSellers)
    } else {
        let lowest = min_platinum(ls);
        let bought = stock.bought.num as int / stock.bought.den as int;
        let post = sell_post_final(lowest, bought, ma, settings, stock.minimum_price);
        let profit = post - bought;
        let status = sell_status(lowest, bought, ma, settings, stock.minimum_price);
        &&& plan.row.status == status
        &&& row_same_but_listing(plan.row, stock)
        &&& (profit <= 0 ==> plan.row.list_price is None && history_eqv(
            plan.row.price_history@,
            stock.price_history@,
        ))
        &&& (profit > 0 ==> plan.row.list_price == Option::Some(post as Platinum))
        &&& (sell_appends_history(stock, post, profit) ==> ({
            let old_h = stock.price_history@;
            let new_h = plan.row.price_history@;
            let kept = if old_h.len() >= 5 {
                old_h.drop_first()
            } else {
                old_h
            };
            &&& new_h.len() == kept.len() + 1
            &&& history_eqv(new_h.take(kept.len() as int), kept)
            &&& new_h.last().price == post
            &&& exists|i: int|
                {
                    &&& 0 <= i < ls.len()
                    &&& (#[trigger] ls[i]).platinum == lowest
                    &&& ls[i].user matches Option::Some(u) && new_h.last().user_id@ == u.id@
                        && new_h.last().name@ == u.ingame_name@
                }
        }))
        &&& (profit > 0 && !sell_appends_history(stock, post, profit) ==> history_eqv(
            plan.row.price_history@,
            stock.price_history@,
        ))
        &&& (visible && status == StockStatus::ToLowProfit ==> (
        match first_visible(my.sell_orders@, item.wfm_url_name@, st) {
            Option::Some(u) => plan.action matches SellAction::DeleteLowProfit { order_id }
                && order_id@ == u.id@,
            Option::None => false,
        }))
        &&& (visible && status != StockStatus::ToLowProfit ==> (
        match first_visible(my.sell_orders@, item.wfm_url_name@, st) {
            Option::Some(u) => if u.platinum != post {
                plan.action matches SellAction::UpdateOrder { order_id, platinum, quantity }
                    && order_id@ == u.id@ && platinum == post && quantity == stock.owned
            } else {
                plan.action is Skip
            },
            Option::None => false,
        }))
        &&& (!visible && status != StockStatus::ToLowProfit ==> (
        plan.action matches SellAction::CreateOrder { wfm_id, platinum, quantity, sub_type }
            && wfm_id@ == item.wfm_id@ && platinum == post && quantity == stock.owned
            && opt_sub_type_eqv(sub_type, stock.sub_type)))
        &&& (!visible && status == StockStatus::ToLowProfit ==> plan.action is Skip)
        &&& plan.persist == (plan.row.list_price != stock.list_price || plan.row.status
            != stock.status || plan.row.price_history@.len() != stock.price_history@.len())
    }
}

/// Decide the sell-side action for one stock row. `live_orders` must
/// already be cleared of the operator's own listings.
#[verifier::loop_isolation(false)]
pub fn compare_live_orders_when_selling(
    item_info: &TradableItem,
    moving_avg: i64,
    my_orders: &Orders,
    live_orders: Orders,
    stock_item: &StockItemStruct,
    settings: &Settings,
) -> (plan: SellPlan)
    requires
        plat_ok(moving_avg as int),
        0 <= settings.min_sma <= PLAT_LIMIT,
        0 <= settings.min_profit <= PLAT_LIMIT,
        all_plat_ok(live_orders.sell_orders@),
        all_plat_ok(my_orders.sell_orders@),
        stock_item.bought.den >= 1,
        stock_item.bought.num / stock_item.bought.den <= PLAT_LIMIT as u128,
        stock_item.minimum_price matches Option::Some(m) ==> plat_ok(m as int),
        forall|i: int|
            0 <= i < live_orders.sell_orders@.len() ==> (#[trigger] live_orders.sell_orders@[i]).user is Some,
    ensures
        sell_plan_post(
            *item_info,
            moving_avg as int,
            *my_orders,
            live_orders,
            *stock_item,
            *settings,
            plan,
        ),
{
    let ghost live0 = live_orders;
    let found_visible = crate::buy::find_first_visible(
        &my_orders.sell_orders,
        &item_info.wfm_url_name,
        &stock_item.sub_type,
    );
    let visible = found_visible.is_some();
    if visible && stock_item.is_hidden {
        let order_id = match found_visible {
            Option::Some(u) => u.id,
            Option::None => String::new(),
        };
        return SellPlan {
            row: stock_item.clone(),
            action: SellAction::DeleteHidden { order_id },
            persist: false,
        };
    }
    let ghost st = stock_item.sub_type;
    let live = live_orders.filter_by_sub_type(&stock_item.sub_type, false);
    proof {
        let c1 = |o: Order| keeps_sub_type(o, stock_item.sub_type, false);
        let c2 = |o: Order| keeps_sub_type(o, st, false);
        assert(c1 =~= c2);
        assert(live.sell_orders@ == live0.sell_orders@.filter(c2));
        crate::orders::lemma_filter_subset(live0.sell_orders@, c2);
        assert forall|i: int| 0 <= i < live.sell_orders@.len() implies plat_ok(
            (#[trigger] live.sell_orders@[i]).platinum as int,
        ) && live.sell_orders@[i].user is Some by {
            let j = choose|j: int|
                0 <= j < live0.sell_orders@.len() && live0.sell_orders@[j]
                    == live.sell_orders@[i];
            assert(plat_ok(live0.sell_orders@[j].platinum as int));
        }
    }
    let ghost ls = live.sell_orders@;
    let mut row = stock_item.clone();
    if live.sell_orders.len() <= 2 {
        row.status = StockStatus::NoSellers;
        let persist = !matches!(stock_item.status, StockStatus::NoSellers);
        return SellPlan { row, action: SellAction::Skip, persist };
    }
    let lowest_order = match live.lowest_order(crate::types::OrderType::Sell) {
        Option::Some(o) => o,
        Option::None => {
            return SellPlan { row, action: SellAction::Skip, persist: false };
        },
    };
    let ghost lowest = min_platinum(ls);
    let seller = match &lowest_order.user {
        Option::Some(u) => u.clone(),
        Option::None => crate::types::OrderUser { id: String::new(), ingame_name: String::new() },
    };
    let bought_u = stock_item.bought.floor();
    let bought: i64 = bought_u as i64;
    let mut post: i64 = lowest_order.platinum;
    if bought > post {
        post = bought + settings.min_profit;
    }
    let sma_applied = post < moving_avg - settings.min_sma;
    let mut status: StockStatus = StockStatus::Live;
    if sma_applied {
        post = moving_avg;
        status = StockStatus::SMALimit;
    }
    match &stock_item.minimum_price {
        Option::Some(m) => {
            if post < *m {
                post = *m;
            }
        },
        Option::None => {},
    }
    proof {
        assert(post as int == sell_post_final(
            lowest,
            bought as int,
            moving_avg as int,
            *settings,
            stock_item.minimum_price,
        ));
    }
    let profit = post - bought;
    if profit <= 0 {
        row.status = StockStatus::ToLowProfit;
        row.list_price = Option::None;
    } else {
        row.status = status;
        let append = if row.price_history.len() == 0 {
            true
        } else {
            row.price_history[row.price_history.len() - 1].price != post
        };
        if append {
            if row.price_history.len() >= 5 {
                row.price_history.remove(0);
            }
            let entry = crate::types::PriceHistory {
                user_id: seller.id,
                name: seller.ingame_name,
                price: post,
                created_at: crate::clock::now_local_string(),
            };
            row.price_history.push(entry);
        }
        row.list_price = Option::Some(post);
    }
    proof {
        assert(row.status == sell_status(
            lowest,
            bought as int,
            moving_avg as int,
            *settings,
            stock_item.minimum_price,
        ));
    }
    let action = if visible {
        if matches!(row.status, StockStatus::ToLowProfit) {
            match found_visible {
                Option::Some(u) => SellAction::DeleteLowProfit { order_id: u.id },
                Option::None => SellAction::Skip,
            }
        } else {
            match found_visible {
                Option::Some(u) => {
                    if u.platinum != post {
                        SellAction::UpdateOrder {
                            order_id: u.id,
                            platinum: post,
                            quantity: stock_item.owned,
                        }
                    } else {
                        SellAction::Skip
                    }
                },
                Option::None => SellAction::Skip,
            }
        }
    } else {
        if !matches!(row.status, StockStatus::ToLowProfit) {
            SellAction::CreateOrder {
                wfm_id: item_info.wfm_id.clone(),
                platinum: post,
                quantity: stock_item.owned,
                sub_type: crate::types::clone_opt_sub_type(&stock_item.sub_type),
            }
        } else {
            SellAction::Skip
        }
    };
    let lp_changed = !crate::types::opt_i64_eq(&row.list_price, &stock_item.list_price);
    let status_changed = !status_eq(row.status, stock_item.status);
    let hist_changed = row.price_history.len() != stock_item.price_history.len();
    let persist = lp_changed || status_changed || hist_changed;
    SellPlan { row, action, persist }
}

/// Executable equality of two statuses.
fn status_eq(a: StockStatus, b: StockStatus) -> (r: bool)
    ensures
        r == (a == b),
{
    a == b
}

/// Fold the remote answer to a sell-order creation back into the row: an
/// `order_limit_reached` answer clears the listed price and marks the row
/// `OrderLimit`; any other answer leaves the row alone.
pub fn apply_sell_create_result(row: &mut StockItemStruct, rep: &String) -> (limit_reached: bool)
    ensures
        limit_reached == (rep@ == "order_limit_reached"@),
        limit_reached ==> ({
            &&& final(row).status == StockStatus::OrderLimit
            &&& final(row).list_price is None
            &&& row_same_but_listing(*final(row), *old(row))
            &&& final(row).price_history == old(row).price_history
        }),
        !limit_reached ==> *final(row) == *old(row),
{
    let limit = "order_limit_reached".to_owned();
    if rep.eq(&limit) {
        row.status = StockStatus::OrderLimit;
        row.list_price = Option::None;
        true
    } else {
        false
    }
}

/// Whether a decided row differs from the stored one in what the loop
/// persists: the listed price, the status, or the history length.
pub fn sell_row_changed(a: &StockItemStruct, b: &StockItemStruct) -> (r: bool)
    ensures
        r == (a.list_price != b.list_price || a.status != b.status || a.price_history@.len()
            != b.price_history@.len()),
{
    let lp = !crate::types::opt_i64_eq(&a.list_price, &b.list_price);
    let st = !status_eq(a.status, b.status);
    let h = a.price_history.len() != b.price_history.len();
    lp || st || h
}

/// A sell plan creates an order only when the operator has no visible sell
/// order for the row's key: within one cycle no second visible order for a
/// key is ever created.
pub proof fn lemma_sell_create_is_unique(
    item: TradableItem,
    ma: int,
    my: Orders,
    live: Orders,
    stock: StockItemStruct,
    settings: Settings,
    plan: SellPlan,
)
    requires
        sell_plan_post(item, ma, my, live, stock, settings, plan),
        plan.action is CreateOrder,
    ensures
        !exists_visible(my.sell_orders@, item.wfm_url_name@, stock.sub_type),
{
    let st = stock.sub_type;
    let visible = exists_visible(my.sell_orders@, item.wfm_url_name@, st);
    if visible {
        let ls = live.sell_orders@.filter(|o: Order| keeps_sub_type(o, st, false));
        if stock.is_hidden {
        } else if ls.len() <= 2 {
        } else {
        }
    }
}

/// With two or fewer live sell orders for the row's sub-type the decision
/// reports `NoSellers` and creates nothing.
pub proof fn lemma_sell_few_sellers(
    item: TradableItem,
    ma: int,
    my: Orders,
    live: Orders,
    stock: StockItemStruct,
    settings: Settings,
    plan: SellPlan,
)
    requires
        sell_plan_post(item, ma, my, live, stock, settings, plan),
        live.sell_orders@.len() <= 2,
        !(exists_visible(my.sell_orders@, item.wfm_url_name@, stock.sub_type)
            && stock.is_hidden),
    ensures
        plan.row.status == StockStatus::NoSellers,
        plan.action is Skip,
{
    let st = stock.sub_type;
    let c = |o: Order| keeps_sub_type(o, st, false);
    live.sell_orders@.lemma_filter_len(c);
}

/// Once the row lists at the decision's own price, its status and history
/// already reflect the decision, and the operator's order stands visible at
/// that price and quantity, a second pass over unchanged live data issues
/// no remote mutation and persists nothing.
pub proof fn lemma_sell_second_pass_quiet(
    item: TradableItem,
    ma: int,
    my2: Orders,
    live: Orders,
    stock2: StockItemStruct,
    settings: Settings,
    plan2: SellPlan,
)
    requires
        sell_plan_post(item, ma, my2, live, stock2, settings, plan2),
        !stock2.is_hidden,
        ({
            let st = stock2.sub_type;
            let ls = live.sell_orders@.filter(|o: Order| keeps_sub_type(o, st, false));
            let lowest = min_platinum(ls);
            let bought = stock2.bought.num as int / stock2.bought.den as int;
            let post = sell_post_final(lowest, bought, ma, settings, stock2.minimum_price);
            let profit = post - bought;
            let status = sell_status(lowest, bought, ma, settings, stock2.minimum_price);
            &&& ls.len() > 2
            &&& profit > 0
            &&& stock2.status == status
            &&& stock2.list_price == Option::Some(post as Platinum)
            &&& stock2.price_history@.len() > 0
            &&& stock2.price_history@.last().price == post
            &&& exists_visible(my2.sell_orders@, item.wfm_url_name@, st)
            &&& (first_visible(my2.sell_orders@, item.wfm_url_name@, st) matches Option::Some(u)
                && u.platinum == post)
        }),
    ensures
        plan2.action is Skip,
        !plan2.persist,
{
}

} // verus!
