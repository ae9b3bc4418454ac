//! The buy-side decision engine: from the live market, the operator's
//! mirror and the closed-trade average it derives a plan — a status, a
//! posting price, the orders the knapsack evicts, and at most one remote
//! action. The surrounding program performs the remote calls the plan
//! names and feeds the outcome back through `apply_buy_create_result`.

use vstd::prelude::*;

use crate::knapsack::{
    lemma_ks_same_numbers,
    knapsack, ks_selected, ks_unselected, KnapsackEntry, KNAPSACK_MAX_ITEMS,
};
use crate::orders::{all_plat_ok, keeps_sub_type, max_platinum, price_range_of, Orders};
use crate::types::{
    amount_ok, opt_sub_type_eqv, plat_ok, Order, Settings, StockStatus, SubType, TradableItem,
};

verus! {

/// The single remote action a buy plan may carry.
#[derive(Debug)]
pub enum BuyAction {
    Skip,
    DeleteUnderpriced { order_id: String },
    UpdateOrder { order_id: String, platinum: i64 },
    CreateOrder { wfm_id: String, platinum: i64, quantity: i64, sub_type: Option<SubType> },
}

/// The outcome of the buy-side decision for one item.
#[derive(Debug)]
pub struct BuyPlan {
    pub status: StockStatus,
    pub post_price: i64,
    pub potential_profit: i64,
    pub deletions: Vec<String>,
    pub action: BuyAction,
}

/// The sub-type a catalog rank induces on the candidate order.
pub open spec fn rank_sub_type(item_rank: Option<i64>) -> Option<SubType> {
    match item_rank {
        Option::Some(r) => Option::Some(
            SubType {
                rank: Option::Some(r),
                variant: Option::None,
                cyan_stars: Option::None,
                amber_stars: Option::None,
            },
        ),
        Option::None => Option::None,
    }
}

/// The greater of two amounts.
pub open spec fn spec_max(a: int, b: int) -> int {
    if a > b {
        a
    } else {
        b
    }
}

/// The price a buy order is posted at: the highest live bid, or — when
/// there are no bids and the item trades above 25 platinum — the greater of
/// `range - 40` and a third of the range less one.
pub open spec fn buy_post_price(h: int, r: int, a: int) -> int {
    if h == 0 && a > 25 {
        spec_max(r - 40, r / 3 - 1)
    } else {
        h
    }
}

/// The status before the knapsack step: `Live` when the empty-market price
/// was taken, `Overpriced` when the post price exceeds the average-price
/// cap, `InActive` otherwise.
pub open spec fn buy_status_pre(h: int, r: int, a: int, avg_cap: int) -> StockStatus {
    let s1 = if h == 0 && a > 25 {
        StockStatus::Live
    } else {
        StockStatus::InActive
    };
    if buy_post_price(h, r, a) > avg_cap && s1 != StockStatus::Live {
        StockStatus::Overpriced
    } else {
        s1
    }
}

/// Whether the knapsack step runs: the margin and spread are attractive,
/// the status is not already `Live`, and the operator has no visible buy
/// order for the item.
pub open spec fn buy_knapsack_gate(h: int, r: int, a: int, avg_cap: int, visible: bool) -> bool {
    let post = buy_post_price(h, r, a);
    ((a - post >= 30 && r >= 15) || r >= 21) && buy_status_pre(h, r, a, avg_cap)
        != StockStatus::Live && !visible
}

/// Whether some visible order of the sequence is for the given key.
pub open spec fn exists_visible(s: Seq<Order>, url: Seq<char>, st: Option<SubType>) -> bool {
    exists|i: int|
        0 <= i < s.len() && crate::orders::order_key_matches(#[trigger] s[i], url, st)
            && s[i].visible
}

/// The first visible order of the sequence for the given key.
pub open spec fn first_visible(s: Seq<Order>, url: Seq<char>, st: Option<SubType>) -> Option<
    Order,
>
    decreases s.len(),
{
    if s.len() == 0 {
        Option::None
    } else if crate::orders::order_key_matches(s[0], url, st) && s[0].visible {
        Option::Some(s[0])
    } else {
        first_visible(s.drop_first(), url, st)
    }
}

/// The knapsack candidates: one entry per operator buy order, then the
/// proposed order for this item.
pub open spec fn buy_candidates(my_buy: Seq<Order>, cand: KnapsackEntry) -> Seq<KnapsackEntry> {
    my_buy.map_values(
        |o: Order|
            KnapsackEntry {
                weight: o.platinum,
                value: o.profit.unwrap(),
                url: o.item_url,
                order_id: o.id,
            },
    ).push(cand)
}

/// The planned deletions name, in back-trace order, exactly the ids of the
/// unselected candidates.
pub open spec fn deletions_match(
    ids: Seq<String>,
    idxs: Seq<usize>,
    cands: Seq<KnapsackEntry>,
) -> bool {
    &&& ids.len() == idxs.len()
    &&& forall|j: int|
        0 <= j < idxs.len() ==> (#[trigger] idxs[j]) < cands.len() && ids[j]@ == cands[idxs[j] as int].order_id@
}

/// What the buy-side decision promises of its plan, given the catalog item,
/// its rank, the operator's mirror, the live orders (already cleared of the
/// operator's own), and the closed-trade average.
pub open spec fn buy_plan_post(
    item: TradableItem,
    item_rank: Option<i64>,
    my: Orders,
    live: Orders,
    a: int,
    settings: Settings,
    plan: BuyPlan,
) -> bool {
    let st = rank_sub_type(item_rank);
    let lb = live.buy_orders@.filter(|o: Order| keeps_sub_type(o, st, false));
    let ls = live.sell_orders@.filter(|o: Order| keeps_sub_type(o, st, false));
    let h = max_platinum(lb);
    let r = price_range_of(ls);
    let post = buy_post_price(h, r, a);
    let profit = a - post - 1;
    let visible = exists_visible(my.buy_orders@, item.wfm_url_name@, st);
    if ls.len() == 0 {
        &&& plan.action is Skip
        &&& plan.deletions@.len() == 0
        &&& plan.status == StockStatus::InActive
        &&& plan.post_price == 0
        &&& plan.potential_profit == 0
    } else if lb.len() == 0 {
        &&& plan.action is Skip
        &&& plan.deletions@.len() == 0
        &&& plan.status == buy_status_pre(h, r, a, settings.avg_price_cap as int)
        &&& plan.post_price == post
        &&& plan.potential_profit == profit
    } else {
        &&& plan.post_price == post
        &&& plan.potential_profit == profit
        &&& (!buy_knapsack_gate(h, r, a, settings.avg_price_cap as int, visible) ==> plan.status
            == buy_status_pre(h, r, a, settings.avg_price_cap as int) && plan.deletions@.len()
            == 0)
        &&& (buy_knapsack_gate(h, r, a, settings.avg_price_cap as int, visible)
            ==> exists|cand: KnapsackEntry|
            {
                &&& cand.weight == post
                &&& cand.value == profit
                &&& cand.url@ == item.wfm_url_name@
                &&& cand.order_id@ == Seq::<char>::empty()
                &&& ({
                    let cands = buy_candidates(my.buy_orders@, cand);
                    let n = cands.len() as int;
                    let sel = ks_selected(cands, n, settings.max_total_price_cap as int);
                    let unsel = ks_unselected(cands, n, settings.max_total_price_cap as int);
                    let chosen = exists|k: int|
                        0 <= k < sel.len() && (#[trigger] sel[k]) < cands.len() && cands[sel[k] as int].url@
                            == item.wfm_url_name@;
                    &&& (chosen ==> plan.status == StockStatus::Live && deletions_match(
                        plan.deletions@,
                        unsel,
                        cands,
                    ))
                    &&& (!chosen ==> plan.status == StockStatus::Underpriced
                        && plan.deletions@.len() == 0)
                })
            })
        &&& (plan.status == StockStatus::Underpriced && visible ==> (
        match first_visible(my.buy_orders@, item.wfm_url_name@, st) {
            Option::Some(u) => plan.action matches BuyAction::DeleteUnderpriced { order_id }
                && order_id@ == u.id@,
            Option::None => false,
        }))
        &&& (plan.status == StockStatus::Underpriced && !visible ==> plan.action is Skip)
        &&& (plan.status == StockStatus::Live && visible ==> (
        match first_visible(my.buy_orders@, item.wfm_url_name@, st) {
            Option::Some(u) => if u.platinum != post {
                plan.action matches BuyAction::UpdateOrder { order_id, platinum } && order_id@
                    == u.id@ && platinum == post
            } else {
                plan.action is Skip
            },
            Option::None => false,
        }))
        &&& (plan.status == StockStatus::Live && !visible ==> (
        plan.action matches BuyAction::CreateOrder { wfm_id, platinum, quantity, sub_type }
            && wfm_id@ == item.wfm_id@ && platinum == post && quantity == 1 && opt_sub_type_eqv(
            sub_type,
            st,
        )))
        &&& (plan.status != StockStatus::Underpriced && plan.status != StockStatus::Live
            ==> plan.action is Skip)
    }
}

/// A filtered side keeps platinum amounts within bounds.
proof fn lemma_filter_plat_ok(s: Seq<Order>, pred: spec_fn(Order) -> bool)
    requires
        all_plat_ok(s),
    ensures
        all_plat_ok(s.filter(pred)),
{
    crate::orders::lemma_filter_subset(s, pred);
    assert forall|i: int|
        0 <= i < s.filter(pred).len() implies plat_ok(
        #[trigger] s.filter(pred)[i].platinum as int,
    ) by {
        let j = choose|j: int| 0 <= j < s.len() && s[j] == s.filter(pred)[i];
        assert(plat_ok(s[j].platinum as int));
    }
}

/// The greatest bid lies between zero and the bound on single amounts.
proof fn lemma_max_platinum_bounds(s: Seq<Order>)
    requires
        all_plat_ok(s),
    ensures
        0 <= max_platinum(s) <= crate::types::PLAT_LIMIT,
    decreases s.len(),
{
    if s.len() > 0 {
        assert(plat_ok(s[s.len() - 1].platinum as int));
        assert forall|i: int| 0 <= i < s.drop_last().len() implies plat_ok(
            #[trigger] s.drop_last()[i].platinum as int,
        ) by {
            assert(s.drop_last()[i] == s[i]);
        }
        lemma_max_platinum_bounds(s.drop_last());
    }
}

/// The spread lies between zero and the bound on single amounts.
proof fn lemma_price_range_bounds(s: Seq<Order>)
    requires
        all_plat_ok(s),
    ensures
        0 <= price_range_of(s) <= crate::types::PLAT_LIMIT,
    decreases s.len(),
{
    if s.len() > 0 {
        lemma_max_platinum_bounds(s);
        lemma_min_platinum_bounds(s);
        crate::orders::lemma_min_le_max(s);
    }
}

/// The least amount of a non-empty bounded side is itself bounded.
proof fn lemma_min_platinum_bounds(s: Seq<Order>)
    requires
        all_plat_ok(s),
        s.len() > 0,
    ensures
        0 <= crate::orders::min_platinum(s) <= crate::types::PLAT_LIMIT,
    decreases s.len(),
{
    if s.len() == 1 {
        assert(plat_ok(s[0].platinum as int));
    } else {
        assert(plat_ok(s[s.len() - 1].platinum as int));
        assert forall|i: int| 0 <= i < s.drop_last().len() implies plat_ok(
            #[trigger] s.drop_last()[i].platinum as int,
        ) by {
            assert(s.drop_last()[i] == s[i]);
        }
        lemma_min_platinum_bounds(s.drop_last());
    }
}

/// Find the first visible order for the given key in one side.
#[verifier::loop_isolation(false)]
pub fn find_first_visible(v: &Vec<Order>, url: &String, st: &Option<SubType>) -> (r: Option<Order>)
    ensures
        r is Some <==> exists_visible(v@, url@, *st),
        match r {
            Option::None => true,
            Option::Some(u) => first_visible(v@, url@, *st) matches Option::Some(w) && crate::types::order_eqv(
                u,
                w,
            ),
        },
{
    let mut i: usize = 0;
    proof {
        assert(v@.skip(0) =~= v@);
    }
    while i < v.len()
        invariant
            i <= v@.len(),
            first_visible(v@, url@, *st) == first_visible(v@.skip(i as int), url@, *st),
            forall|j: int|
                0 <= j < i as int ==> !(crate::orders::order_key_matches(
                    #[trigger] v@[j],
                    url@,
                    *st,
                ) && v@[j].visible),
        decreases v@.len() - i,
    {
        proof {
            assert(v@.skip(i as int).drop_first() =~= v@.skip(i as int + 1));
            assert(v@.skip(i as int)[0] == v@[i as int]);
        }
        let o = &v[i];
        let url_match = o.item_url.eq(url);
        let st_match = crate::types::opt_sub_type_eq(&o.sub_type, st);
        if url_match && st_match && o.visible {
            return Option::Some(o.clone());
        }
        i = i + 1;
    }
    proof {
        assert(v@.skip(v@.len() as int) =~= Seq::<Order>::empty());
    }
    Option::None
}


/// Decide the buy-side action for one item. `live_orders` must already be
/// cleared of the operator's own listings; `my_orders` is the operator's
/// mirror. The returned plan satisfies `buy_plan_post`; the caller performs
/// the deletions first, then the single action.
#[verifier::loop_isolation(false)]
pub fn compare_live_orders_when_buying(
    item_info: &TradableItem,
    item_rank: Option<i64>,
    my_orders: &Orders,
    live_orders: Orders,
    closed_avg: i64,
    settings: &Settings,
) -> (plan: BuyPlan)
    requires
        plat_ok(closed_avg as int),
        plat_ok(settings.avg_price_cap as int),
        plat_ok(settings.max_total_price_cap as int),
        all_plat_ok(live_orders.buy_orders@),
        all_plat_ok(live_orders.sell_orders@),
        all_plat_ok(my_orders.buy_orders@),
        my_orders.buy_orders@.len() < KNAPSACK_MAX_ITEMS,
        forall|i: int|
            0 <= i < my_orders.buy_orders@.len() ==> (#[trigger] my_orders.buy_orders@[i]).profit
                is Some && amount_ok(my_orders.buy_orders@[i].profit.unwrap() as int),
    ensures
        buy_plan_post(
            *item_info,
            item_rank,
            *my_orders,
            live_orders,
            closed_avg as int,
            *settings,
            plan,
        ),
{
    let ghost live0 = live_orders;
    let ghost st = rank_sub_type(item_rank);
    let sub_type = match item_rank {
        Option::Some(r) => Option::Some(SubType::from_rank(r)),
        Option::None => Option::None,
    };
    proof {
        assert(sub_type == st);
    }
    let live = live_orders.filter_by_sub_type(&sub_type, false);
    proof {
        let c1 = |o: Order| keeps_sub_type(o, sub_type, false);
        let c2 = |o: Order| keeps_sub_type(o, st, false);
        assert(c1 =~= c2);
        assert(live.buy_orders@ == live0.buy_orders@.filter(c2));
        assert(live.sell_orders@ == live0.sell_orders@.filter(c2));
        lemma_filter_plat_ok(live0.buy_orders@, c2);
        lemma_filter_plat_ok(live0.sell_orders@, c2);
    }
    let ghost lb = live.buy_orders@;
    let ghost ls = live.sell_orders@;
    if live.sell_orders.len() == 0 {
        return BuyPlan {
            status: StockStatus::InActive,
            post_price: 0,
            potential_profit: 0,
            deletions: Vec::new(),
            action: BuyAction::Skip,
        };
    }
    let h = live.highest_price(crate::types::OrderType::Buy);
    let r = live.get_price_range();
    proof {
        lemma_max_platinum_bounds(lb);
        lemma_price_range_bounds(ls);
    }
    let mut post: i64 = h;
    let mut status: StockStatus = StockStatus::InActive;
    if h == 0 && closed_avg > 25 {
        let alt = r - 40;
        let third = r / 3 - 1;
        post = if alt > third {
            alt
        } else {
            third
        };
        status = StockStatus::Live;
    }
    proof {
        assert(post as int == buy_post_price(h as int, r as int, closed_avg as int));
    }
    let potential_profit = closed_avg - post - 1;
    if post > settings.avg_price_cap && !matches!(status, StockStatus::Live) {
        status = StockStatus::Overpriced;
    }
    proof {
        assert(status == buy_status_pre(
            h as int,
            r as int,
            closed_avg as int,
            settings.avg_price_cap as int,
        ));
    }
    if live.buy_orders.len() == 0 {
        return BuyPlan {
            status,
            post_price: post,
            potential_profit,
            deletions: Vec::new(),
            action: BuyAction::Skip,
        };
    }
    let found_visible = find_first_visible(&my_orders.buy_orders, &item_info.wfm_url_name, &sub_type);
    let visible = found_visible.is_some();
    proof {
        assert(visible == exists_visible(my_orders.buy_orders@, item_info.wfm_url_name@, st));
    }
    let metric_ok = (closed_avg - post >= 30 && r >= 15) || r >= 21;
    let gate = metric_ok && !matches!(status, StockStatus::Live) && !visible;
    proof {
        assert(gate == buy_knapsack_gate(
            h as int,
            r as int,
            closed_avg as int,
            settings.avg_price_cap as int,
            visible,
        ));
    }
    let mut deletions: Vec<String> = Vec::new();
    if gate {
        proof {
            assert(post == h);
        }
        let mut cands: Vec<KnapsackEntry> = Vec::new();
        let mut i: usize = 0;
        while i < my_orders.buy_orders.len()
            invariant
                i <= my_orders.buy_orders@.len(),
                cands@.len() == i,
                forall|j: int|
                    0 <= j < i as int ==> {
                        let o = my_orders.buy_orders@[j];
                        let e = #[trigger] cands@[j];
                        &&& e.weight == o.platinum
                        &&& e.value == o.profit.unwrap()
                        &&& e.url@ == o.item_url@
                        &&& e.order_id@ == o.id@
                    },
            decreases my_orders.buy_orders@.len() - i,
        {
            let o = &my_orders.buy_orders[i];
            let value = match &o.profit {
                Option::Some(p) => *p,
                Option::None => 0,
            };
            cands.push(
                KnapsackEntry {
                    weight: o.platinum,
                    value,
                    url: o.item_url.clone(),
                    order_id: o.id.clone(),
                },
            );
            i = i + 1;
        }
        let cand = KnapsackEntry {
            weight: post,
            value: potential_profit,
            url: item_info.wfm_url_name.clone(),
            order_id: String::new(),
        };
        let ghost cand_g = cand;
        cands.push(cand);
        let ghost cands_spec = buy_candidates(my_orders.buy_orders@, cand_g);
        proof {
            assert(cands@.len() == cands_spec.len());
            assert forall|k: int|
                0 <= k < cands@.len() implies (#[trigger] cands@[k]).weight == cands_spec[k].weight
                && cands@[k].value == cands_spec[k].value && cands@[k].url@ == cands_spec[k].url@
                && cands@[k].order_id@ == cands_spec[k].order_id@ by {
                if k < my_orders.buy_orders@.len() {
                    assert(cands_spec[k] == my_orders.buy_orders@.map_values(
                        |o: Order|
                            KnapsackEntry {
                                weight: o.platinum,
                                value: o.profit.unwrap(),
                                url: o.item_url,
                                order_id: o.id,
                            },
                    )[k]);
                }
            }
        }
        let out = knapsack(&cands, settings.max_total_price_cap);
        let sel = out.1;
        let unsel = out.2;
        let ghost n = cands_spec.len() as int;
        let ghost cap = settings.max_total_price_cap as int;
        proof {
            lemma_ks_same_numbers(cands@, cands_spec, n, cap);
            crate::knapsack::lemma_ks_index_bounds(cands_spec, n, cap);
            assert(sel@ == ks_selected(cands_spec, n, cap));
            assert(unsel@ == ks_unselected(cands_spec, n, cap));
        }
        let mut chosen = false;
        let mut k: usize = 0;
        while k < sel.len()
            invariant
                k <= sel@.len(),
                sel@ == ks_selected(cands_spec, n, cap),
                forall|j: int| 0 <= j < sel@.len() ==> (#[trigger] sel@[j]) < cands@.len(),
                cands@.len() == cands_spec.len(),
                forall|j: int|
                    0 <= j < cands@.len() ==> (#[trigger] cands@[j]).url@ == cands_spec[j].url@,
                chosen == exists|j: int|
                    0 <= j < k as int && (#[trigger] sel@[j]) < cands_spec.len()
                        && cands_spec[sel@[j] as int].url@ == item_info.wfm_url_name@,
            decreases sel@.len() - k,
        {
            let idx = sel[k];
            if cands[idx].url.eq(&item_info.wfm_url_name) {
                chosen = true;
            }
            k = k + 1;
        }
        proof {
            assert(chosen == exists|j: int|
                0 <= j < sel@.len() && (#[trigger] sel@[j]) < cands_spec.len()
                    && cands_spec[sel@[j] as int].url@ == item_info.wfm_url_name@);
        }
        if chosen {
            status = StockStatus::Live;
            let mut k2: usize = 0;
            while k2 < unsel.len()
                invariant
                    k2 <= unsel@.len(),
                    unsel@ == ks_unselected(cands_spec, n, cap),
                    forall|j: int| 0 <= j < unsel@.len() ==> (#[trigger] unsel@[j]) < cands@.len(),
                    cands@.len() == cands_spec.len(),
                    forall|j: int|
                        0 <= j < cands@.len() ==> (#[trigger] cands@[j]).order_id@
                            == cands_spec[j].order_id@,
                    deletions@.len() == k2,
                    forall|j: int|
                        0 <= j < k2 as int ==> (#[trigger] deletions@[j])@
                            == cands_spec[unsel@[j] as int].order_id@,
                decreases unsel@.len() - k2,
            {
                let idx = unsel[k2];
                deletions.push(cands[idx].order_id.clone());
                k2 = k2 + 1;
            }
        } else {
            status = StockStatus::Underpriced;
        }
    }
    let action = if matches!(status, StockStatus::Underpriced) && visible {
        match found_visible {
            Option::Some(u) => BuyAction::DeleteUnderpriced { order_id: u.id },
            Option::None => BuyAction::Skip,
        }
    } else if matches!(status, StockStatus::Live) && visible {
        match found_visible {
            Option::Some(u) => {
                if u.platinum != post {
                    BuyAction::UpdateOrder { order_id: u.id, platinum: post }
                } else {
                    BuyAction::Skip
                }
            },
            Option::None => BuyAction::Skip,
        }
    } else if matches!(status, StockStatus::Live) && !visible {
        BuyAction::CreateOrder {
            wfm_id: item_info.wfm_id.clone(),
            platinum: post,
            quantity: 1,
            sub_type,
        }
    } else {
        BuyAction::Skip
    };
    BuyPlan { status, post_price: post, potential_profit, deletions, action }
}

/// Fold the remote answer to a buy-order creation back into the mirror.
/// A created order is annotated with the closed average and the expected
/// profit and appended to the buy side; an `order_limit_reached` answer
/// without an order reports the soft limit.
pub fn apply_buy_create_result(
    my_orders: &mut Orders,
    rep: &String,
    created: Option<Order>,
    closed_avg: i64,
    potential_profit: i64,
) -> (limit_reached: bool)
    ensures
        final(my_orders).sell_orders == old(my_orders).sell_orders,
        match created {
            Option::Some(o) => {
                &&& final(my_orders).buy_orders@.len() == old(my_orders).buy_orders@.len() + 1
                &&& final(my_orders).buy_orders@.take(old(my_orders).buy_orders@.len() as int)
                    == old(my_orders).buy_orders@
                &&& ({
                    let last = final(my_orders).buy_orders@.last();
                    &&& last.closed_avg == Option::Some(closed_avg)
                    &&& last.profit == Option::Some(potential_profit)
                    &&& last.id == o.id
                    &&& last.item_url == o.item_url
                    &&& last.sub_type == o.sub_type
                    &&& last.order_type == o.order_type
                    &&& last.platinum == o.platinum
                    &&& last.quantity == o.quantity
                    &&& last.visible == o.visible
                    &&& last.user == o.user
                })
                &&& !limit_reached
            },
            Option::None => {
                &&& *final(my_orders) == *old(my_orders)
                &&& limit_reached == (rep@ == "order_limit_reached"@)
            },
        },
{
    match created {
        Option::Some(mut o) => {
            o.closed_avg = Option::Some(closed_avg);
            o.profit = Option::Some(potential_profit);
            my_orders.buy_orders.push(o);
            proof {
                assert(final(my_orders).buy_orders@.take(old(my_orders).buy_orders@.len() as int)
                    =~= old(my_orders).buy_orders@);
            }
            false
        },
        Option::None => {
            let limit = "order_limit_reached".to_owned();
            rep.eq(&limit)
        },
    }
}

/// With no live sellers the buy-side decision takes no action at all,
/// whatever the other inputs.
pub proof fn lemma_buy_no_sellers_no_action(
    item: TradableItem,
    item_rank: Option<i64>,
    my: Orders,
    live: Orders,
    a: int,
    settings: Settings,
    plan: BuyPlan,
)
    requires
        buy_plan_post(item, item_rank, my, live, a, settings, plan),
        live.sell_orders@.len() == 0,
    ensures
        plan.action is Skip,
        plan.deletions@.len() == 0,
{
    let st = rank_sub_type(item_rank);
    let c = |o: Order| keeps_sub_type(o, st, false);
    live.sell_orders@.lemma_filter_len(c);
}

/// A plan creates an order only when the operator has no visible buy order
/// for the same item and sub-type: within one cycle no second visible order
/// for a key is ever created.
pub proof fn lemma_buy_create_is_unique(
    item: TradableItem,
    item_rank: Option<i64>,
    my: Orders,
    live: Orders,
    a: int,
    settings: Settings,
    plan: BuyPlan,
)
    requires
        buy_plan_post(item, item_rank, my, live, a, settings, plan),
        plan.action is CreateOrder,
    ensures
        !exists_visible(my.buy_orders@, item.wfm_url_name@, rank_sub_type(item_rank)),
{
    let st = rank_sub_type(item_rank);
    let visible = exists_visible(my.buy_orders@, item.wfm_url_name@, st);
    if visible {
        let lb = live.buy_orders@.filter(|o: Order| keeps_sub_type(o, st, false));
        let ls = live.sell_orders@.filter(|o: Order| keeps_sub_type(o, st, false));
        if ls.len() == 0 || lb.len() == 0 {
        } else {
            if plan.status == StockStatus::Underpriced {
            } else if plan.status == StockStatus::Live {
            } else {
            }
        }
    }
}

/// An underpriced verdict is inert: the knapsack left the candidate out,
/// so nothing was evicted, and without a visible order of the operator's
/// for the item nothing is created or deleted either.
pub proof fn lemma_buy_underpriced_is_inert(
    item: TradableItem,
    item_rank: Option<i64>,
    my: Orders,
    live: Orders,
    a: int,
    settings: Settings,
    plan: BuyPlan,
)
    requires
        buy_plan_post(item, item_rank, my, live, a, settings, plan),
        plan.status == StockStatus::Underpriced,
        !exists_visible(my.buy_orders@, item.wfm_url_name@, rank_sub_type(item_rank)),
    ensures
        plan.deletions@.len() == 0,
        plan.action is Skip,
{
    let st = rank_sub_type(item_rank);
    let lb = live.buy_orders@.filter(|o: Order| keeps_sub_type(o, st, false));
    let ls = live.sell_orders@.filter(|o: Order| keeps_sub_type(o, st, false));
    let h = max_platinum(lb);
    let r = price_range_of(ls);
    if ls.len() == 0 {
    } else if lb.len() == 0 {
        assert(buy_status_pre(h, r, a, settings.avg_price_cap as int)
            != StockStatus::Underpriced);
    } else {
        if !buy_knapsack_gate(h, r, a, settings.avg_price_cap as int, false) {
            assert(buy_status_pre(h, r, a, settings.avg_price_cap as int)
                != StockStatus::Underpriced);
        }
    }
}

/// Once the operator's order for an item stands visible at the plan's own
/// posting price, a second pass over unchanged live data and settings
/// issues no remote mutation: the knapsack is suppressed, nothing is
/// deleted, and the visible order is neither updated nor recreated.
pub proof fn lemma_buy_second_pass_quiet(
    item: TradableItem,
    item_rank: Option<i64>,
    my2: Orders,
    live: Orders,
    a: int,
    settings: Settings,
    plan2: BuyPlan,
)
    requires
        buy_plan_post(item, item_rank, my2, live, a, settings, plan2),
        exists_visible(my2.buy_orders@, item.wfm_url_name@, rank_sub_type(item_rank)),
        ({
            let st = rank_sub_type(item_rank);
            let lb = live.buy_orders@.filter(|o: Order| keeps_sub_type(o, st, false));
            let ls = live.sell_orders@.filter(|o: Order| keeps_sub_type(o, st, false));
            let h = max_platinum(lb);
            let r = price_range_of(ls);
            first_visible(my2.buy_orders@, item.wfm_url_name@, st) matches Option::Some(u)
                && u.platinum == buy_post_price(h, r, a)
        }),
    ensures
        plan2.action is Skip,
        plan2.deletions@.len() == 0,
{
}

} // verus!
