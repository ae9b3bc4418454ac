//! The per-cycle scaffolding of the item-pricing loop: the memoized
//! interesting-items selection, the deduplicated per-cycle URL list, and the
//! plans for pruning whole sides of the operator's orders. The surrounding
//! program performs the remote calls these plans name.

use vstd::prelude::*;

use crate::cache::price_infos_eqv;
use crate::orders::Orders;
use crate::types::{
    seq_contains_string, ItemPriceInfo, Order, OrderMode, PriceOrderKind, Settings,
};

verus! {

/// Whether `p` is a prefix of `s`.
pub open spec fn is_prefix_of(p: Seq<char>, s: Seq<char>) -> bool {
    p.len() <= s.len() && s.subrange(0, p.len() as int) == p
}

/// Executable prefix test on string slices.
#[verifier::loop_isolation(false)]
pub fn str_starts_with(p: &str, s: &str) -> (r: bool)
    ensures
        r == is_prefix_of(p@, s@),
{
    let plen = p.unicode_len();
    let slen = s.unicode_len();
    if plen > slen {
        proof {
            assert(!is_prefix_of(p@, s@));
        }
        return false;
    }
    let mut i: usize = 0;
    while i < plen
        invariant
            i <= plen,
            plen == p@.len(),
            slen == s@.len(),
            plen <= slen,
            forall|j: int| 0 <= j < i as int ==> p@[j] == s@[j],
        decreases plen - i,
    {
        if p.get_char(i) != s.get_char(i) {
            proof {
                assert(s@.subrange(0, p@.len() as int)[i as int] == s@[i as int]);
            }
            return false;
        }
        i = i + 1;
    }
    proof {
        assert(s@.subrange(0, p@.len() as int) =~= p@);
    }
    true
}

/// The selection predicate of the interesting-items scan, exactly as the
/// pricing loop applies it to each closed-trade statistics record.
pub open spec fn interesting_pred(
    it: ItemPriceInfo,
    settings: Settings,
    stock_urls: Seq<String>,
) -> bool {
    (it.order_type == PriceOrderKind::Closed && it.volume > settings.volume_threshold && it.range
        > settings.range_threshold && !seq_contains_string(settings.blacklist@, it.url_name@) && (
    (settings.strict_whitelist && seq_contains_string(settings.whitelist@, it.url_name@)) || ((
    !settings.strict_whitelist || (seq_contains_string(settings.whitelist@, it.url_name@)
        && it.avg_price <= settings.avg_price_cap)) && it.week_price_shift
        >= settings.price_shift_threshold)) && it.week_price_shift
        >= settings.price_shift_threshold) || (seq_contains_string(stock_urls, it.url_name@)
        && it.order_type == PriceOrderKind::Closed)
}

/// Appending one element to a sequence extends its filtered image by that
/// element exactly when the predicate holds of it.
proof fn lemma_filter_push<A>(s: Seq<A>, pred: spec_fn(A) -> bool, x: A)
    ensures
        s.push(x).filter(pred) == s.filter(pred) + (if pred(x) {
            seq![x]
        } else {
            Seq::<A>::empty()
        }),
{
    reveal(Seq::filter);
    assert(s.push(x).drop_last() =~= s);
    if pred(x) {
        assert(s.push(x).filter(pred) =~= s.filter(pred) + seq![x]);
    } else {
        assert(s.push(x).filter(pred) =~= s.filter(pred) + Seq::<A>::empty());
    }
}

/// Retain exactly the statistics records that pass the selection predicate,
/// in order. On an empty input the selection is empty.
#[verifier::loop_isolation(false)]
pub fn filter_interesting_items(
    items: Vec<ItemPriceInfo>,
    settings: &Settings,
    stock_urls: &Vec<String>,
) -> (r: Vec<ItemPriceInfo>)
    ensures
        r@ == items@.filter(|it: ItemPriceInfo| interesting_pred(it, *settings, stock_urls@)),
{
    let ghost pred = |it: ItemPriceInfo| interesting_pred(it, *settings, stock_urls@);
    let mut rest = items;
    let mut out: Vec<ItemPriceInfo> = Vec::new();
    let ghost done: Seq<ItemPriceInfo> = Seq::empty();
    proof {
        assert(Seq::<ItemPriceInfo>::empty().filter(pred) =~= Seq::<ItemPriceInfo>::empty());
    }
    while rest.len() > 0
        invariant
            done + rest@ == items@,
            out@ == done.filter(pred),
        decreases rest@.len(),
    {
        let it = rest.remove(0);
        proof {
            assert(done.push(it) + rest@ =~= items@);
            lemma_filter_push(done, pred, it);
        }
        let in_blacklist = crate::types::vec_contains_string(&settings.blacklist, &it.url_name);
        let in_whitelist = crate::types::vec_contains_string(&settings.whitelist, &it.url_name);
        let in_stock = crate::types::vec_contains_string(stock_urls, &it.url_name);
        let is_closed = matches!(it.order_type, PriceOrderKind::Closed);
        let keep = (is_closed && it.volume > settings.volume_threshold && it.range
            > settings.range_threshold && !in_blacklist && ((settings.strict_whitelist
            && in_whitelist) || ((!settings.strict_whitelist || (in_whitelist && it.avg_price
            <= settings.avg_price_cap)) && it.week_price_shift >= settings.price_shift_threshold))
            && it.week_price_shift >= settings.price_shift_threshold) || (in_stock && is_closed);
        proof {
            assert(keep == pred(it));
            if keep {
                assert(done.filter(pred).push(it) =~= done.filter(pred) + seq![it]);
            } else {
                assert(done.filter(pred) + Seq::<ItemPriceInfo>::empty() =~= done.filter(pred));
            }
        }
        if keep {
            out.push(it);
        }
        proof {
            done = done.push(it);
        }
    }
    proof {
        assert(done =~= items@);
    }
    out
}

/// First-occurrence deduplication of a sequence of strings, compared by
/// view.
pub open spec fn dedup_keys(s: Seq<String>) -> Seq<String>
    decreases s.len(),
{
    if s.len() == 0 {
        Seq::empty()
    } else {
        let d = dedup_keys(s.drop_last());
        if seq_contains_string(d, s.last()@) {
            d
        } else {
            d.push(s.last())
        }
    }
}

/// Deduplication keeps exactly the members of the input.
proof fn lemma_dedup_contains(s: Seq<String>, v: Seq<char>)
    ensures
        seq_contains_string(dedup_keys(s), v) == seq_contains_string(s, v),
    decreases s.len(),
{
    if s.len() > 0 {
        let d = dedup_keys(s.drop_last());
        lemma_dedup_contains(s.drop_last(), v);
        if seq_contains_string(s, v) {
            let i = choose|i: int| 0 <= i < s.len() && s[i]@ == v;
            if i < s.len() - 1 {
                assert(s.drop_last()[i]@ == v);
                assert(seq_contains_string(s.drop_last(), v));
                let k = choose|k: int| 0 <= k < d.len() && d[k]@ == v;
                if !seq_contains_string(d, s.last()@) {
                    assert(dedup_keys(s)[k]@ == v);
                }
                assert(seq_contains_string(dedup_keys(s), v));
            } else {
                assert(s.last()@ == v);
                if seq_contains_string(d, s.last()@) {
                    assert(dedup_keys(s) == d);
                    let k = choose|k: int| 0 <= k < d.len() && d[k]@ == s.last()@;
                    assert(dedup_keys(s)[k]@ == v);
                } else {
                    assert(dedup_keys(s)[d.len() as int]@ == v);
                }
                assert(seq_contains_string(dedup_keys(s), v));
            }
        }
        if seq_contains_string(dedup_keys(s), v) {
            let k = choose|k: int| 0 <= k < dedup_keys(s).len() && dedup_keys(s)[k]@ == v;
            if seq_contains_string(d, s.last()@) {
                assert(d[k]@ == v);
                assert(seq_contains_string(d, v));
            } else {
                if k < d.len() {
                    assert(d[k]@ == v);
                    assert(seq_contains_string(d, v));
                } else {
                    assert(dedup_keys(s)[k] == s.last());
                }
            }
            if seq_contains_string(d, v) {
                let i = choose|i: int| 0 <= i < s.drop_last().len() && s.drop_last()[i]@ == v;
                assert(s[i]@ == v);
            } else {
                assert(s.last()@ == v);
                assert(s[s.len() - 1]@ == v);
            }
            assert(seq_contains_string(s, v));
        }
    }
}

/// Deduplication keeps membership and removes duplicates.
pub proof fn lemma_dedup_keys_props(s: Seq<String>)
    ensures
        forall|v: Seq<char>| seq_contains_string(dedup_keys(s), v) == seq_contains_string(s, v),
        forall|i: int, j: int|
            0 <= i < j < dedup_keys(s).len() ==> dedup_keys(s)[i]@ != dedup_keys(s)[j]@,
    decreases s.len(),
{
    assert forall|v: Seq<char>| seq_contains_string(dedup_keys(s), v) == seq_contains_string(
        s,
        v,
    ) by {
        lemma_dedup_contains(s, v);
    }
    if s.len() > 0 {
        lemma_dedup_keys_props(s.drop_last());
        let d = dedup_keys(s.drop_last());
        if !seq_contains_string(d, s.last()@) {
            assert forall|i: int, j: int|
                0 <= i < j < dedup_keys(s).len() implies dedup_keys(s)[i]@
                != dedup_keys(s)[j]@ by {
                if j == d.len() {
                    assert(dedup_keys(s)[i] == d[i]);
                    assert(dedup_keys(s)[j] == s.last());
                    if d[i]@ == s.last()@ {
                        assert(seq_contains_string(d, s.last()@));
                    }
                } else {
                    assert(dedup_keys(s)[i] == d[i]);
                    assert(dedup_keys(s)[j] == d[j]);
                }
            }
        }
    }
}

/// The deduplicated per-cycle URL list: the whitelist, then the stock URLs
/// when the mode covers selling, then the URLs of the selected statistics
/// records when the mode covers buying, first occurrence kept.
pub open spec fn cycle_urls(
    order_mode: OrderMode,
    whitelist: Seq<String>,
    stock_urls: Seq<String>,
    selected: Seq<ItemPriceInfo>,
) -> Seq<String> {
    let with_stock = if order_mode == OrderMode::Sell || order_mode == OrderMode::Both {
        whitelist + stock_urls
    } else {
        whitelist
    };
    let with_buy = if order_mode == OrderMode::Buy || order_mode == OrderMode::Both {
        with_stock + selected.map_values(|it: ItemPriceInfo| it.url_name)
    } else {
        with_stock
    };
    dedup_keys(with_buy)
}

/// Build the deduplicated per-cycle URL list. The result carries no
/// duplicate URLs, and on an empty whitelist, empty stock and empty
/// selection it is empty.
#[verifier::loop_isolation(false)]
pub fn interesting_urls(
    order_mode: OrderMode,
    whitelist: &Vec<String>,
    stock_urls: &Vec<String>,
    selected: &Vec<ItemPriceInfo>,
) -> (r: Vec<String>)
    ensures
        crate::stock::strings_eqv(
            r@,
            cycle_urls(order_mode, whitelist@, stock_urls@, selected@),
        ),
        forall|i: int, j: int| 0 <= i < j < r@.len() ==> r@[i]@ != r@[j]@,
        whitelist@.len() == 0 && stock_urls@.len() == 0 && selected@.len() == 0 ==> r@.len() == 0,
{
    let mut combined: Vec<String> = Vec::new();
    let mut i: usize = 0;
    while i < whitelist.len()
        invariant
            i <= whitelist@.len(),
            combined@.len() == i,
            forall|j: int| 0 <= j < i as int ==> combined@[j]@ == whitelist@[j]@,
        decreases whitelist@.len() - i,
    {
        combined.push(whitelist[i].clone());
        i = i + 1;
    }
    let take_stock = matches!(order_mode, OrderMode::Sell) || matches!(order_mode, OrderMode::Both);
    if take_stock {
        let mut k: usize = 0;
        while k < stock_urls.len()
            invariant
                k <= stock_urls@.len(),
                combined@.len() == whitelist@.len() + k,
                forall|j: int| 0 <= j < whitelist@.len() ==> combined@[j]@ == whitelist@[j]@,
                forall|j: int|
                    0 <= j < k as int ==> combined@[whitelist@.len() + j]@ == stock_urls@[j]@,
            decreases stock_urls@.len() - k,
        {
            combined.push(stock_urls[k].clone());
            k = k + 1;
        }
    }
    let ghost with_stock = if order_mode == OrderMode::Sell || order_mode == OrderMode::Both {
        whitelist@ + stock_urls@
    } else {
        whitelist@
    };
    proof {
        assert(combined@.len() == with_stock.len());
        assert(forall|j: int|
            0 <= j < with_stock.len() ==> #[trigger] combined@[j]@ == with_stock[j]@);
    }
    let ghost stock_len = combined@.len() as int;
    let take_buy = matches!(order_mode, OrderMode::Buy) || matches!(order_mode, OrderMode::Both);
    if take_buy {
        let mut k: usize = 0;
        while k < selected.len()
            invariant
                k <= selected@.len(),
                combined@.len() == stock_len + k,
                forall|j: int| 0 <= j < stock_len ==> #[trigger] combined@[j]@ == with_stock[j]@,
                forall|j: int|
                    0 <= j < k as int ==> combined@[stock_len + j]@ == selected@[j].url_name@,
            decreases selected@.len() - k,
        {
            combined.push(selected[k].url_name.clone());
            k = k + 1;
        }
    }
    let ghost with_buy = if order_mode == OrderMode::Buy || order_mode == OrderMode::Both {
        with_stock + selected@.map_values(|it: ItemPriceInfo| it.url_name)
    } else {
        with_stock
    };
    proof {
        assert(combined@.len() == with_buy.len());
        assert forall|j: int| 0 <= j < with_buy.len() implies #[trigger] combined@[j]@
            == with_buy[j]@ by {
            if j >= with_stock.len() {
                assert(with_buy[j] == selected@.map_values(|it: ItemPriceInfo| it.url_name)[j
                    - with_stock.len()]);
            }
        }
    }
    // Deduplicate, keeping the first occurrence of each URL.
    let ghost combined0 = combined@;
    let ghost done: Seq<String> = Seq::empty();
    let mut out: Vec<String> = Vec::new();
    proof {
        assert(dedup_keys(Seq::<String>::empty()) =~= Seq::<String>::empty());
    }
    while combined.len() > 0
        invariant
            done + combined@ == combined0,
            out@ == dedup_keys(done),
        decreases combined@.len(),
    {
        let s = combined.remove(0);
        proof {
            assert(done.push(s) + combined@ =~= combined0);
            assert(done.push(s).drop_last() =~= done);
        }
        let seen = crate::types::vec_contains_string(&out, &s);
        if !seen {
            out.push(s);
        }
        proof {
            done = done.push(s);
        }
    }
    proof {
        assert(done =~= combined0);
        lemma_dedup_keys_props(combined0);
        lemma_dedup_keys_eqv(combined0, with_buy);
    }
    out
}

/// Membership by view agrees on view-equal sequences.
proof fn lemma_contains_eqv(a: Seq<String>, b: Seq<String>, v: Seq<char>)
    requires
        crate::stock::strings_eqv(a, b),
    ensures
        seq_contains_string(a, v) == seq_contains_string(b, v),
{
    if seq_contains_string(a, v) {
        let i = choose|i: int| 0 <= i < a.len() && a[i]@ == v;
        assert(b[i]@ == v);
    }
    if seq_contains_string(b, v) {
        let i = choose|i: int| 0 <= i < b.len() && b[i]@ == v;
        assert(a[i]@ == v);
    }
}

/// Deduplication of view-equal sequences yields view-equal results.
proof fn lemma_dedup_keys_eqv(a: Seq<String>, b: Seq<String>)
    requires
        crate::stock::strings_eqv(a, b),
    ensures
        crate::stock::strings_eqv(dedup_keys(a), dedup_keys(b)),
    decreases a.len(),
{
    if a.len() > 0 {
        assert forall|i: int| 0 <= i < a.drop_last().len() implies a.drop_last()[i]@
            == b.drop_last()[i]@ by {
            assert(a[i]@ == b[i]@);
        }
        lemma_dedup_keys_eqv(a.drop_last(), b.drop_last());
        lemma_contains_eqv(dedup_keys(a.drop_last()), dedup_keys(b.drop_last()), a.last()@);
        assert(a.last()@ == b.last()@);
        if !seq_contains_string(dedup_keys(a.drop_last()), a.last()@) {
            assert(dedup_keys(a) == dedup_keys(a.drop_last()).push(a.last()));
            assert(dedup_keys(b) == dedup_keys(b.drop_last()).push(b.last()));
        }
    }
}


/// The closed-trade average price recorded for the given URL: the first
/// matching record's average, or 0 when none matches.
pub open spec fn closed_avg_of(items: Seq<ItemPriceInfo>, url: Seq<char>) -> int
    decreases items.len(),
{
    if items.len() == 0 {
        0
    } else if items[0].url_name@ == url {
        items[0].avg_price as int
    } else {
        closed_avg_of(items.drop_first(), url)
    }
}

/// Look up the closed-trade average price for the given URL.
#[verifier::loop_isolation(false)]
pub fn closed_avg_lookup(items: &Vec<ItemPriceInfo>, url: &String) -> (r: i64)
    requires
        forall|i: int|
            0 <= i < items@.len() ==> crate::types::plat_ok(
                (#[trigger] items@[i]).avg_price as int,
            ),
    ensures
        r as int == closed_avg_of(items@, url@),
        crate::types::plat_ok(r as int),
{
    let mut i: usize = 0;
    proof {
        assert(items@.skip(0) =~= items@);
    }
    while i < items.len()
        invariant
            i <= items@.len(),
            closed_avg_of(items@, url@) == closed_avg_of(items@.skip(i as int), url@),
            forall|j: int| 0 <= j < i as int ==> (#[trigger] items@[j]).url_name@ != url@,
        decreases items@.len() - i,
    {
        proof {
            assert(items@.skip(i as int).drop_first() =~= items@.skip(i as int + 1));
            assert(items@.skip(i as int)[0] == items@[i as int]);
        }
        if items[i].url_name.eq(url) {
            return items[i].avg_price;
        }
        i = i + 1;
    }
    proof {
        assert(items@.skip(items@.len() as int) =~= Seq::<ItemPriceInfo>::empty());
    }
    0
}

/// How one annotated buy order relates to its original: the same order with
/// its closed average and expected profit filled in from the statistics.
pub open spec fn annotated_matches(n: Order, o: Order, items: Seq<ItemPriceInfo>) -> bool {
    &&& n.id == o.id
    &&& n.item_url == o.item_url
    &&& n.sub_type == o.sub_type
    &&& n.order_type == o.order_type
    &&& n.platinum == o.platinum
    &&& n.quantity == o.quantity
    &&& n.visible == o.visible
    &&& n.user == o.user
    &&& n.closed_avg == Option::Some(closed_avg_of(items, o.item_url@) as i64)
    &&& n.profit == Option::Some((closed_avg_of(items, o.item_url@) - o.platinum) as i64)
}

/// Restrict the operator's buy orders to the interesting URLs and annotate
/// each with its closed average and expected profit; the sell side is left
/// alone.
#[verifier::loop_isolation(false)]
pub fn annotate_buy_orders(
    my_orders: &mut Orders,
    interesting: &Vec<String>,
    price_items: &Vec<ItemPriceInfo>,
)
    requires
        forall|i: int|
            0 <= i < price_items@.len() ==> crate::types::plat_ok(
                (#[trigger] price_items@[i]).avg_price as int,
            ),
        crate::orders::all_plat_ok(old(my_orders).buy_orders@),
    ensures
        final(my_orders).sell_orders == old(my_orders).sell_orders,
        ({
            let kept = old(my_orders).buy_orders@.filter(
                |o: Order| seq_contains_string(interesting@, o.item_url@),
            );
            &&& final(my_orders).buy_orders@.len() == kept.len()
            &&& forall|i: int|
                0 <= i < kept.len() ==> annotated_matches(
                    #[trigger] final(my_orders).buy_orders@[i],
                    kept[i],
                    price_items@,
                )
        }),
{
    let ghost pred = |o: Order| seq_contains_string(interesting@, o.item_url@);
    let mut rest: Vec<Order> = Vec::new();
    core::mem::swap(&mut my_orders.buy_orders, &mut rest);
    let ghost orig = rest@;
    let mut out: Vec<Order> = Vec::new();
    let ghost done: Seq<Order> = Seq::empty();
    proof {
        assert(Seq::<Order>::empty().filter(pred) =~= Seq::<Order>::empty());
    }
    while rest.len() > 0
        invariant
            done + rest@ == orig,
            crate::orders::all_plat_ok(orig),
            out@.len() == done.filter(pred).len(),
            forall|i: int|
                0 <= i < out@.len() ==> annotated_matches(
                    #[trigger] out@[i],
                    done.filter(pred)[i],
                    price_items@,
                ),
        decreases rest@.len(),
    {
        let mut o = rest.remove(0);
        let ghost o0 = o;
        proof {
            assert(done.push(o0) + rest@ =~= orig);
            assert(orig[done.len() as int] == o0);
            lemma_filter_push(done, pred, o0);
        }
        let keep = crate::types::vec_contains_string(interesting, &o.item_url);
        proof {
            if keep {
                assert(done.push(o0).filter(pred) =~= done.filter(pred).push(o0));
            } else {
                assert(done.filter(pred) + Seq::<Order>::empty() =~= done.filter(pred));
            }
        }
        if keep {
            let avg = closed_avg_lookup(price_items, &o.item_url);
            o.closed_avg = Option::Some(avg);
            o.profit = Option::Some(avg - o.platinum);
            out.push(o);
            proof {
                assert(done.filter(pred).push(o0)[done.filter(pred).len() as int] == o0);
            }
        }
        proof {
            done = done.push(o0);
        }
    }
    proof {
        assert(done =~= orig);
    }
    my_orders.buy_orders = out;
}

/// The per-item inputs of one loop step: the candidate rank, the moving
/// average and the closed average, read from the statistics record when one
/// exists and falling back to the catalog rank and zero averages otherwise.
pub fn item_cycle_inputs(stats: Option<&ItemPriceInfo>, item: &crate::types::TradableItem) -> (r:
    (Option<i64>, i64, i64))
    ensures
        match stats {
            Option::Some(s) => {
                &&& r.0 == s.mod_rank
                &&& r.1 == (match s.moving_avg {
                    Option::Some(m) => m,
                    Option::None => 0,
                })
                &&& r.2 == s.avg_price
            },
            Option::None => r.0 == item.max_rank && r.1 == 0 && r.2 == 0,
        },
{
    match stats {
        Option::Some(s) => {
            let ma = match s.moving_avg {
                Option::Some(m) => m,
                Option::None => 0,
            };
            (s.mod_rank, ma, s.avg_price)
        },
        Option::None => (item.max_rank, 0, 0),
    }
}

/// The ids of the orders of one side that are not blacklisted, in order.
pub open spec fn prunable_ids(s: Seq<Order>, blacklist: Seq<String>) -> Seq<Seq<char>> {
    s.filter(|o: Order| !seq_contains_string(blacklist, o.item_url@)).map_values(
        |o: Order| o.id@,
    )
}

/// Collect the ids of one side's orders that are not blacklisted.
#[verifier::loop_isolation(false)]
fn prunable_ids_of(side: &Vec<Order>, blacklist: &Vec<String>) -> (r: Vec<String>)
    ensures
        r@.map_values(|s: String| s@) == prunable_ids(side@, blacklist@),
{
    let ghost pred = |o: Order| !seq_contains_string(blacklist@, o.item_url@);
    let ghost idview = |o: Order| o.id@;
    let ghost sview = |s: String| s@;
    let mut out: Vec<String> = Vec::new();
    let mut i: usize = 0;
    proof {
        assert(side@.take(0) =~= Seq::<Order>::empty());
        assert(Seq::<Order>::empty().filter(pred) =~= Seq::<Order>::empty());
        assert(out@.map_values(sview) =~= Seq::<Order>::empty().map_values(idview));
    }
    while i < side.len()
        invariant
            i <= side@.len(),
            out@.map_values(sview) == side@.take(i as int).filter(pred).map_values(idview),
        decreases side@.len() - i,
    {
        let ghost prefix = side@.take(i as int);
        proof {
            assert(side@.take(i as int + 1).drop_last() =~= prefix);
            assert(side@.take(i as int + 1).last() == side@[i as int]);
            reveal(Seq::filter);
        }
        let in_blacklist = crate::types::vec_contains_string(blacklist, &side[i].item_url);
        if !in_blacklist {
            out.push(side[i].id.clone());
            proof {
                assert(side@.take(i as int + 1).filter(pred) =~= prefix.filter(pred).push(
                    side@[i as int],
                ));
                assert(side@.take(i as int + 1).filter(pred).map_values(idview) =~= prefix.filter(
                    pred,
                ).map_values(idview).push(side@[i as int].id@));
                assert(out@.map_values(sview) =~= prefix.filter(pred).map_values(idview).push(
                    side@[i as int].id@,
                ));
            }
        } else {
            proof {
                assert(side@.take(i as int + 1).filter(pred) =~= prefix.filter(pred));
            }
        }
        i = i + 1;
    }
    proof {
        assert(side@.take(side@.len() as int) =~= side@);
    }
    out
}

/// The ids of the orders the pre-loop pruning deletes: when the cycle works
/// one side only, every order of the opposite side whose item is not
/// blacklisted is removed from the remote; in `Both` mode nothing is
/// pruned.
pub fn orders_to_prune(
    order_mode: OrderMode,
    my_orders: &Orders,
    blacklist: &Vec<String>,
) -> (r: Vec<String>)
    ensures
        order_mode == OrderMode::Both ==> r@.len() == 0,
        order_mode == OrderMode::Buy ==> r@.map_values(|s: String| s@) == prunable_ids(
            my_orders.sell_orders@,
            blacklist@,
        ),
        order_mode == OrderMode::Sell ==> r@.map_values(|s: String| s@) == prunable_ids(
            my_orders.buy_orders@,
            blacklist@,
        ),
{
    match order_mode {
        OrderMode::Buy => prunable_ids_of(&my_orders.sell_orders, blacklist),
        OrderMode::Sell => prunable_ids_of(&my_orders.buy_orders, blacklist),
        OrderMode::Both => Vec::new(),
    }
}

/// The ids the bulk deletion removes: the buy side when the mode covers
/// buying, then the sell side when it covers selling, skipping blacklisted
/// items.
pub fn delete_orders_plan(
    order_mode: OrderMode,
    my_orders: &Orders,
    blacklist: &Vec<String>,
) -> (r: Vec<String>)
    ensures
        r@.map_values(|s: String| s@) == (if order_mode == OrderMode::Buy || order_mode
            == OrderMode::Both {
            prunable_ids(my_orders.buy_orders@, blacklist@)
        } else {
            Seq::<Seq<char>>::empty()
        }) + (if order_mode == OrderMode::Sell || order_mode == OrderMode::Both {
            prunable_ids(my_orders.sell_orders@, blacklist@)
        } else {
            Seq::<Seq<char>>::empty()
        }),
{
    let take_buy = matches!(order_mode, OrderMode::Buy) || matches!(order_mode, OrderMode::Both);
    let take_sell = matches!(order_mode, OrderMode::Sell) || matches!(order_mode, OrderMode::Both);
    let mut out: Vec<String> = Vec::new();
    let ghost sview = |s: String| s@;
    if take_buy {
        let mut ids = prunable_ids_of(&my_orders.buy_orders, blacklist);
        out.append(&mut ids);
    }
    let ghost buy_part = out@.map_values(sview);
    if take_sell {
        let mut ids = prunable_ids_of(&my_orders.sell_orders, blacklist);
        let ghost idsg = ids@;
        let ghost before = out@;
        out.append(&mut ids);
        proof {
            assert(out@.map_values(sview) =~= before.map_values(sview) + idsg.map_values(sview));
        }
    }
    proof {
        if !take_buy && !take_sell {
            assert(out@.map_values(sview) =~= Seq::<Seq<char>>::empty());
        }
        assert(Seq::<Seq<char>>::empty() + out@.map_values(sview) =~= out@.map_values(sview));
        assert(out@.map_values(sview) + Seq::<Seq<char>>::empty() =~= out@.map_values(sview));
    }
    out
}

/// The interesting-items memo and the per-cycle entry points of the item
/// pricing loop.
#[derive(Debug)]
pub struct ItemModule {
    pub interesting_items_cache: Vec<(String, Vec<ItemPriceInfo>)>,
}

/// Whether the memo holds an entry under the given key.
pub open spec fn memo_has_key(m: Seq<(String, Vec<ItemPriceInfo>)>, k: Seq<char>) -> bool {
    exists|i: int| 0 <= i < m.len() && (#[trigger] m[i]).0@ == k
}

impl ItemModule {
    /// A fresh module with an empty memo.
    pub fn new() -> (r: ItemModule)
        ensures
            r.interesting_items_cache@.len() == 0,
    {
        ItemModule { interesting_items_cache: Vec::new() }
    }

    /// Store a selection under its query key, replacing any entry with the
    /// same key.
    #[verifier::loop_isolation(false)]
    pub fn add_cache_queried(&mut self, key: String, df: Vec<ItemPriceInfo>)
        ensures
            ({
                let m = old(self).interesting_items_cache@;
                let n = final(self).interesting_items_cache@;
                if memo_has_key(m, key@) {
                    exists|i: int|
                        {
                            &&& 0 <= i < m.len()
                            &&& (#[trigger] m[i]).0@ == key@
                            &&& forall|j: int| 0 <= j < i ==> (#[trigger] m[j]).0@ != key@
                            &&& n == m.update(i, (key, df))
                        }
                } else {
                    n == m.push((key, df))
                }
            }),
    {
        let mut i: usize = 0;
        while i < self.interesting_items_cache.len()
            invariant
                i <= self.interesting_items_cache@.len(),
                self.interesting_items_cache@ == old(self).interesting_items_cache@,
                forall|j: int|
                    0 <= j < i as int ==> (#[trigger] self.interesting_items_cache@[j]).0@ != key@,
            decreases self.interesting_items_cache@.len() - i,
        {
            if self.interesting_items_cache[i].0.eq(&key) {
                self.interesting_items_cache.set(i, (key, df));
                return ;
            }
            i = i + 1;
        }
        self.interesting_items_cache.push((key, df));
    }

    /// The selection stored under the given key, if any.
    #[verifier::loop_isolation(false)]
    pub fn get_cache_queried(&self, key: &str) -> (r: Option<Vec<ItemPriceInfo>>)
        ensures
            r is Some <==> memo_has_key(self.interesting_items_cache@, key@),
            match r {
                Option::None => true,
                Option::Some(v) => exists|i: int|
                    {
                        &&& 0 <= i < self.interesting_items_cache@.len()
                        &&& (#[trigger] self.interesting_items_cache@[i]).0@ == key@
                        &&& price_infos_eqv(v@, self.interesting_items_cache@[i].1@)
                    },
            },
    {
        let k = key.to_owned();
        let mut i: usize = 0;
        while i < self.interesting_items_cache.len()
            invariant
                i <= self.interesting_items_cache@.len(),
                k@ == key@,
                forall|j: int|
                    0 <= j < i as int ==> (#[trigger] self.interesting_items_cache@[j]).0@ != key@,
            decreases self.interesting_items_cache@.len() - i,
        {
            if self.interesting_items_cache[i].0.eq(&k) {
                return Option::Some(crate::cache::clone_price_infos(
                    &self.interesting_items_cache[i].1,
                ));
            }
            i = i + 1;
        }
        Option::None
    }

    /// Evict every memo entry whose key starts with the given prefix.
    #[verifier::loop_isolation(false)]
    pub fn remove_cache_queried(&mut self, key: &str)
        ensures
            final(self).interesting_items_cache@ == old(self).interesting_items_cache@.filter(
                |e: (String, Vec<ItemPriceInfo>)| !is_prefix_of(key@, e.0@),
            ),
    {
        let ghost pred = |e: (String, Vec<ItemPriceInfo>)| !is_prefix_of(key@, e.0@);
        let mut rest: Vec<(String, Vec<ItemPriceInfo>)> = Vec::new();
        core::mem::swap(&mut self.interesting_items_cache, &mut rest);
        let ghost orig = rest@;
        let mut out: Vec<(String, Vec<ItemPriceInfo>)> = Vec::new();
        let ghost done: Seq<(String, Vec<ItemPriceInfo>)> = Seq::empty();
        proof {
            assert(Seq::<(String, Vec<ItemPriceInfo>)>::empty().filter(pred) =~= Seq::<
                (String, Vec<ItemPriceInfo>),
            >::empty());
        }
        while rest.len() > 0
            invariant
                done + rest@ == orig,
                out@ == done.filter(pred),
            decreases rest@.len(),
        {
            let e = rest.remove(0);
            proof {
                assert(done.push(e) + rest@ =~= orig);
                lemma_filter_push(done, pred, e);
            }
            let drop_entry = str_starts_with(key, e.0.as_str());
            proof {
                if !drop_entry {
                    assert(done.filter(pred).push(e) =~= done.filter(pred) + seq![e]);
                } else {
                    assert(done.filter(pred) + Seq::<(String, Vec<ItemPriceInfo>)>::empty()
                        =~= done.filter(pred));
                }
            }
            if !drop_entry {
                out.push(e);
            }
            proof {
                done = done.push(e);
            }
        }
        proof {
            assert(done =~= orig);
        }
        self.interesting_items_cache = out;
    }

    /// The memoized interesting-items selection: return the entry stored
    /// under the query key when one exists; otherwise evict stale entries
    /// with the same prefix, filter the statistics records, memoize the
    /// result under the key and return it.
    pub fn get_interesting_items(
        &mut self,
        query_id: String,
        price_items: Vec<ItemPriceInfo>,
        settings: &Settings,
        stock_urls: &Vec<String>,
    ) -> (r: Vec<ItemPriceInfo>)
        ensures
            memo_has_key(old(self).interesting_items_cache@, query_id@) ==> ({
                &&& *final(self) == *old(self)
                &&& exists|i: int|
                    {
                        &&& 0 <= i < old(self).interesting_items_cache@.len()
                        &&& (#[trigger] old(self).interesting_items_cache@[i]).0@ == query_id@
                        &&& price_infos_eqv(r@, old(self).interesting_items_cache@[i].1@)
                    }
            }),
            !memo_has_key(old(self).interesting_items_cache@, query_id@) ==> ({
                let survivors = old(self).interesting_items_cache@.filter(
                    |e: (String, Vec<ItemPriceInfo>)| !is_prefix_of(query_id@, e.0@),
                );
                let n = final(self).interesting_items_cache@;
                &&& r@ == price_items@.filter(
                    |it: ItemPriceInfo| interesting_pred(it, *settings, stock_urls@),
                )
                &&& n.len() == survivors.len() + 1
                &&& n.take(survivors.len() as int) == survivors
                &&& n.last().0@ == query_id@
                &&& price_infos_eqv(n.last().1@, r@)
            }),
    {
        match self.get_cache_queried(query_id.as_str()) {
            Option::Some(v) => v,
            Option::None => {
                self.remove_cache_queried(query_id.as_str());
                let ghost survivors = self.interesting_items_cache@;
                let filtered = filter_interesting_items(price_items, settings, stock_urls);
                let stored = crate::cache::clone_price_infos(&filtered);
                self.add_cache_queried(query_id, stored);
                proof {
                    assert(!memo_has_key(survivors, query_id@)) by {
                        let m = old(self).interesting_items_cache@;
                        assert forall|i: int|
                            0 <= i < survivors.len() implies (#[trigger] survivors[i]).0@
                            != query_id@ by {
                            m.lemma_filter_pred(
                                |e: (String, Vec<ItemPriceInfo>)| !is_prefix_of(query_id@, e.0@),
                                i,
                            );
                            assert(!is_prefix_of(query_id@, survivors[i].0@));
                            assert(survivors[i].0@.subrange(0, query_id@.len() as int)
                                =~= survivors[i].0@ ==> survivors[i].0@ == query_id@
                                ==> is_prefix_of(query_id@, survivors[i].0@));
                            if survivors[i].0@ == query_id@ {
                                assert(survivors[i].0@.subrange(0, query_id@.len() as int)
                                    =~= query_id@);
                            }
                        }
                    }
                    assert(final(self).interesting_items_cache@.take(survivors.len() as int)
                        =~= survivors);
                }
                filtered
            },
        }
    }
}

} // verus!
