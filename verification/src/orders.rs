//! In-memory mirror of the operator's live orders on the remote marketplace,
//! with the filters and lookups the pricing loop works over.

use vstd::multiset::Multiset;
use vstd::prelude::*;

use crate::types::{
    opt_sub_type_eqv, order_eqv, plat_ok, Order, OrderType, Platinum, SubType,
};

verus! {

/// The operator's orders, one sequence per side.
#[derive(Debug)]
pub struct Orders {
    pub buy_orders: Vec<Order>,
    pub sell_orders: Vec<Order>,
}

/// Whether an order is for the given item URL and sub-type.
pub open spec fn order_key_matches(o: Order, url: Seq<char>, st: Option<SubType>) -> bool {
    o.item_url@ == url && opt_sub_type_eqv(o.sub_type, st)
}

/// Whether an order survives the sub-type filter: its sub-type equals the
/// wanted one, or it has none set and unset orders are kept.
pub open spec fn keeps_sub_type(o: Order, st: Option<SubType>, include_unset: bool) -> bool {
    opt_sub_type_eqv(o.sub_type, st) || (include_unset && o.sub_type is None)
}

/// Whether an order survives the username filter.
pub open spec fn keeps_username(o: Order, name: Seq<char>, exclude: bool) -> bool {
    if exclude {
        match o.user {
            Option::Some(u) => u.ingame_name@ != name,
            Option::None => true,
        }
    } else {
        match o.user {
            Option::Some(u) => u.ingame_name@ == name,
            Option::None => false,
        }
    }
}

/// The greatest platinum amount among the orders, 0 when there are none.
pub open spec fn max_platinum(s: Seq<Order>) -> int
    decreases s.len(),
{
    if s.len() == 0 {
        0
    } else {
        let rest = max_platinum(s.drop_last());
        if s.last().platinum > rest {
            s.last().platinum as int
        } else {
            rest
        }
    }
}

/// The least platinum amount among the orders, 0 when there are none.
pub open spec fn min_platinum(s: Seq<Order>) -> int
    decreases s.len(),
{
    if s.len() == 0 {
        0
    } else if s.len() == 1 {
        s[0].platinum as int
    } else {
        let rest = min_platinum(s.drop_last());
        if (s.last().platinum as int) < rest {
            s.last().platinum as int
        } else {
            rest
        }
    }
}

/// The spread between the dearest and the cheapest sell order, 0 when there
/// are no sell orders.
pub open spec fn price_range_of(sells: Seq<Order>) -> int {
    if sells.len() == 0 {
        0
    } else {
        max_platinum(sells) - min_platinum(sells)
    }
}

/// Every order in the sequence has a platinum amount the pricing rules accept.
pub open spec fn all_plat_ok(s: Seq<Order>) -> bool {
    forall|i: int| 0 <= i < s.len() ==> plat_ok(#[trigger] s[i].platinum as int)
}

/// Appending one element to a sequence extends its filtered image by that
/// element exactly when the predicate holds of it.
proof fn lemma_filter_push<A>(s: Seq<A>, pred: spec_fn(A) -> bool, x: A)
    ensures
        s.push(x).filter(pred) == s.filter(pred) + (if pred(x) {
            seq![x]
        } else {
            Seq::<A>::empty()
        }),
{
    reveal(Seq::filter);
    assert(s.push(x).drop_last() =~= s);
    assert(s.push(x).last() == x);
    if pred(x) {
        assert(s.push(x).filter(pred) =~= s.filter(pred) + seq![x]);
    } else {
        assert(s.push(x).filter(pred) =~= s.filter(pred) + Seq::<A>::empty());
    }
}

/// Retain exactly the orders that survive the sub-type filter, in order.
#[verifier::loop_isolation(false)]
fn filter_vec_by_sub_type(v: Vec<Order>, st: &Option<SubType>, include_unset: bool) -> (r: Vec<
    Order,
>)
    ensures
        r@ == v@.filter(|o: Order| keeps_sub_type(o, *st, include_unset)),
{
    let ghost pred = |o: Order| keeps_sub_type(o, *st, include_unset);
    let mut rest = v;
    let mut out: Vec<Order> = Vec::new();
    proof {
        assert(Seq::<Order>::empty().filter(pred) =~= Seq::<Order>::empty());
    }
    let ghost done: Seq<Order> = Seq::empty();
    while rest.len() > 0
        invariant
            done + rest@ == v@,
            out@ == done.filter(pred),
        decreases rest@.len(),
    {
        let o = rest.remove(0);
        proof {
            assert(done.push(o) + rest@ =~= v@);
            lemma_filter_push(done, pred, o);
        }
        let keep = match (&o.sub_type, st) {
            (Option::None, Option::None) => true,
            (Option::Some(x), Option::Some(y)) => x == y,
            (Option::None, Option::Some(_)) => include_unset,
            (Option::Some(_), Option::None) => false,
        };
        proof {
            assert(keep == pred(o));
            if keep {
                assert(done.push(o).filter(pred) == done.filter(pred) + seq![o]);
                assert(done.filter(pred).push(o) =~= done.filter(pred) + seq![o]);
            } else {
                assert(done.push(o).filter(pred) == done.filter(pred) + Seq::<Order>::empty());
                assert(done.filter(pred) + Seq::<Order>::empty() =~= done.filter(pred));
            }
        }
        if keep {
            out.push(o);
        }
        proof {
            done = done.push(o);
        }
    }
    proof {
        assert(done =~= v@);
    }
    out
}

/// Retain exactly the orders that survive the username filter, in order.
#[verifier::loop_isolation(false)]
fn filter_vec_by_username(v: Vec<Order>, name: &String, exclude: bool) -> (r: Vec<Order>)
    ensures
        r@ == v@.filter(|o: Order| keeps_username(o, name@, exclude)),
{
    let ghost pred = |o: Order| keeps_username(o, name@, exclude);
    let mut rest = v;
    let mut out: Vec<Order> = Vec::new();
    let ghost done: Seq<Order> = Seq::empty();
    proof {
        assert(Seq::<Order>::empty().filter(pred) =~= Seq::<Order>::empty());
    }
    while rest.len() > 0
        invariant
            done + rest@ == v@,
            out@ == done.filter(pred),
        decreases rest@.len(),
    {
        let o = rest.remove(0);
        proof {
            assert(done.push(o) + rest@ =~= v@);
            lemma_filter_push(done, pred, o);
        }
        let matches_name = match &o.user {
            Option::Some(u) => u.ingame_name.eq(name),
            Option::None => false,
        };
        let keep = if exclude {
            !matches_name
        } else {
            matches_name
        };
        proof {
            assert(keep == pred(o));
            if keep {
                assert(done.push(o).filter(pred) == done.filter(pred) + seq![o]);
                assert(done.filter(pred).push(o) =~= done.filter(pred) + seq![o]);
            } else {
                assert(done.push(o).filter(pred) == done.filter(pred) + Seq::<Order>::empty());
                assert(done.filter(pred) + Seq::<Order>::empty() =~= done.filter(pred));
            }
        }
        if keep {
            out.push(o);
        }
        proof {
            done = done.push(o);
        }
    }
    proof {
        assert(done =~= v@);
    }
    out
}

/// Sort the orders in place, ascending by platinum, keeping the multiset of
/// orders unchanged.
#[verifier::loop_isolation(false)]
fn sort_vec_by_platinum(v: &mut Vec<Order>)
    ensures
        final(v)@.len() == old(v)@.len(),
        final(v)@.to_multiset() == old(v)@.to_multiset(),
        forall|i: int, j: int|
            0 <= i < j < final(v)@.len() ==> final(v)@[i].platinum <= final(v)@[j].platinum,
{
    broadcast use vstd::seq_lib::group_to_multiset_ensures;

    let mut rest = Vec::new();
    core::mem::swap(v, &mut rest);
    let ghost orig = rest@;
    let mut out: Vec<Order> = Vec::new();
    while rest.len() > 0
        invariant
            out@.to_multiset().add(rest@.to_multiset()) == orig.to_multiset(),
            out@.len() + rest@.len() == orig.len(),
            forall|i: int, j: int|
                0 <= i < j < out@.len() ==> out@[i].platinum <= out@[j].platinum,
            forall|i: int, j: int|
                0 <= i < out@.len() && 0 <= j < rest@.len() ==> #[trigger] out@[i].platinum
                    <= #[trigger] rest@[j].platinum,
        decreases rest@.len(),
    {
        let mut min_idx: usize = 0;
        let mut k: usize = 1;
        while k < rest.len()
            invariant
                min_idx < rest@.len(),
                k <= rest@.len(),
                rest@.len() > 0,
                forall|i: int| 0 <= i < k as int ==> rest@[min_idx as int].platinum
                    <= #[trigger] rest@[i].platinum,
            decreases rest@.len() - k,
        {
            if rest[k].platinum < rest[min_idx].platinum {
                min_idx = k;
            }
            k = k + 1;
        }
        let ghost rest0 = rest@;
        let ghost out0 = out@;
        let o = rest.remove(min_idx);
        out.push(o);
        proof {
            assert(rest0.to_multiset().count(o) > 0);
            assert(out@.to_multiset().add(rest@.to_multiset()) =~= out0.to_multiset().add(
                rest0.to_multiset(),
            ));
            assert forall|j: int| 0 <= j < rest@.len() implies o.platinum
                <= #[trigger] rest@[j].platinum by {
                if j < min_idx as int {
                    assert(rest@[j] == rest0[j]);
                } else {
                    assert(rest@[j] == rest0[j + 1]);
                }
            }
        }
    }
    proof {
        assert(rest@.to_multiset() =~= Multiset::<Order>::empty());
        assert(out@.to_multiset().add(Multiset::<Order>::empty()) =~= out@.to_multiset());
    }
    *v = out;
}

impl Orders {
    /// An empty mirror.
    pub fn new() -> (r: Orders)
        ensures
            r.buy_orders@.len() == 0,
            r.sell_orders@.len() == 0,
    {
        Orders { buy_orders: Vec::new(), sell_orders: Vec::new() }
    }

    /// The orders of one side.
    pub open spec fn side(self, t: OrderType) -> Seq<Order> {
        match t {
            OrderType::Buy => self.buy_orders@,
            OrderType::Sell => self.sell_orders@,
        }
    }

    /// How many orders the mirror holds over both sides.
    pub fn total_count(&self) -> (r: usize)
        requires
            self.buy_orders@.len() + self.sell_orders@.len() <= usize::MAX,
        ensures
            r == self.buy_orders@.len() + self.sell_orders@.len(),
    {
        self.buy_orders.len() + self.sell_orders.len()
    }

    /// The first order of the given side for the given item URL and sub-type,
    /// if any.
    #[verifier::loop_isolation(false)]
    pub fn find_order_by_url_sub_type(
        &self,
        url: &String,
        order_type: OrderType,
        sub_type: &Option<SubType>,
    ) -> (r: Option<Order>)
        ensures
            match r {
                Option::None => forall|i: int|
                    0 <= i < self.side(order_type).len() ==> !order_key_matches(
                        #[trigger] self.side(order_type)[i],
                        url@,
                        *sub_type,
                    ),
                Option::Some(o) => exists|i: int|
                    {
                        &&& 0 <= i < self.side(order_type).len()
                        &&& order_key_matches(#[trigger] self.side(order_type)[i], url@, *sub_type)
                        &&& order_eqv(o, self.side(order_type)[i])
                        &&& forall|j: int|
                            0 <= j < i ==> !order_key_matches(
                                #[trigger] self.side(order_type)[j],
                                url@,
                                *sub_type,
                            )
                    },
            },
    {
        let side: &Vec<Order> = match order_type {
            OrderType::Buy => &self.buy_orders,
            OrderType::Sell => &self.sell_orders,
        };
        let mut i: usize = 0;
        while i < side.len()
            invariant
                i <= side@.len(),
                side@ == self.side(order_type),
                forall|j: int|
                    0 <= j < i as int ==> !order_key_matches(
                        #[trigger] side@[j],
                        url@,
                        *sub_type,
                    ),
            decreases side@.len() - i,
        {
            let o = &side[i];
            let url_match = o.item_url.eq(url);
            let st_match = crate::types::opt_sub_type_eq(&o.sub_type, sub_type);
            if url_match && st_match {
                return Option::Some(o.clone());
            }
            i = i + 1;
        }
        Option::None
    }

    /// A copy of the mirror holding only the orders whose sub-type passes the
    /// filter.
    pub fn filter_by_sub_type(self, sub_type: &Option<SubType>, include_unset: bool) -> (r: Orders)
        ensures
            r.buy_orders@ == self.buy_orders@.filter(
                |o: Order| keeps_sub_type(o, *sub_type, include_unset),
            ),
            r.sell_orders@ == self.sell_orders@.filter(
                |o: Order| keeps_sub_type(o, *sub_type, include_unset),
            ),
    {
        let Orders { buy_orders, sell_orders } = self;
        Orders {
            buy_orders: filter_vec_by_sub_type(buy_orders, sub_type, include_unset),
            sell_orders: filter_vec_by_sub_type(sell_orders, sub_type, include_unset),
        }
    }

    /// A copy of the mirror with the given username's orders removed
    /// (`exclude` set) or retained alone (`exclude` unset).
    pub fn filter_by_username(self, username: &String, exclude: bool) -> (r: Orders)
        ensures
            r.buy_orders@ == self.buy_orders@.filter(
                |o: Order| keeps_username(o, username@, exclude),
            ),
            r.sell_orders@ == self.sell_orders@.filter(
                |o: Order| keeps_username(o, username@, exclude),
            ),
    {
        let Orders { buy_orders, sell_orders } = self;
        Orders {
            buy_orders: filter_vec_by_username(buy_orders, username, exclude),
            sell_orders: filter_vec_by_username(sell_orders, username, exclude),
        }
    }

    /// Sort both sides in place, ascending by platinum.
    pub fn sort_by_platinum(&mut self)
        ensures
            final(self).buy_orders@.to_multiset() == old(self).buy_orders@.to_multiset(),
            final(self).sell_orders@.to_multiset() == old(self).sell_orders@.to_multiset(),
            forall|i: int, j: int|
                0 <= i < j < final(self).buy_orders@.len() ==> final(self).buy_orders@[i].platinum
                    <= final(self).buy_orders@[j].platinum,
            forall|i: int, j: int|
                0 <= i < j < final(self).sell_orders@.len() ==> final(self).sell_orders@[i].platinum
                    <= final(self).sell_orders@[j].platinum,
    {
        sort_vec_by_platinum(&mut self.buy_orders);
        sort_vec_by_platinum(&mut self.sell_orders);
    }

    /// The greatest platinum amount on the given side, 0 when the side is
    /// empty.
    #[verifier::loop_isolation(false)]
    pub fn highest_price(&self, order_type: OrderType) -> (r: Platinum)
        requires
            all_plat_ok(self.side(order_type)),
        ensures
            r as int == max_platinum(self.side(order_type)),
    {
        let side: &Vec<Order> = match order_type {
            OrderType::Buy => &self.buy_orders,
            OrderType::Sell => &self.sell_orders,
        };
        let mut best: Platinum = 0;
        let mut i: usize = 0;
        while i < side.len()
            invariant
                i <= side@.len(),
                side@ == self.side(order_type),
                all_plat_ok(side@),
                best as int == max_platinum(side@.take(i as int)),
                0 <= best <= crate::types::PLAT_LIMIT,
            decreases side@.len() - i,
        {
            proof {
                assert(side@.take(i as int + 1).drop_last() =~= side@.take(i as int));
                assert(side@.take(i as int + 1).last() == side@[i as int]);
            }
            if side[i].platinum > best {
                best = side[i].platinum;
            }
            i = i + 1;
        }
        proof {
            assert(side@.take(side@.len() as int) =~= side@);
        }
        best
    }

    /// An order of least platinum on the given side: the first such order,
    /// or `None` when the side is empty.
    #[verifier::loop_isolation(false)]
    pub fn lowest_order(&self, order_type: OrderType) -> (r: Option<Order>)
        ensures
            r.is_some() <==> self.side(order_type).len() > 0,
            match r {
                Option::None => true,
                Option::Some(o) => {
                    &&& o.platinum as int == min_platinum(self.side(order_type))
                    &&& exists|i: int|
                        0 <= i < self.side(order_type).len() && order_eqv(
                            o,
                            #[trigger] self.side(order_type)[i],
                        )
                    &&& forall|i: int|
                        0 <= i < self.side(order_type).len() ==> o.platinum
                            <= #[trigger] self.side(order_type)[i].platinum
                },
            },
    {
        let side: &Vec<Order> = match order_type {
            OrderType::Buy => &self.buy_orders,
            OrderType::Sell => &self.sell_orders,
        };
        if side.len() == 0 {
            return Option::None;
        }
        let mut best_idx: usize = 0;
        let mut i: usize = 1;
        while i < side.len()
            invariant
                best_idx < side@.len(),
                1 <= i <= side@.len(),
                side@.len() > 0,
                side@ == self.side(order_type),
                side@[best_idx as int].platinum as int == min_platinum(side@.take(i as int)),
                forall|j: int| 0 <= j < i as int ==> side@[best_idx as int].platinum
                    <= #[trigger] side@[j].platinum,
            decreases side@.len() - i,
        {
            proof {
                assert(side@.take(i as int + 1).drop_last() =~= side@.take(i as int));
                assert(side@.take(i as int + 1).last() == side@[i as int]);
            }
            if side[i].platinum < side[best_idx].platinum {
                best_idx = i;
            }
            i = i + 1;
        }
        proof {
            assert(side@.take(side@.len() as int) =~= side@);
        }
        Option::Some(side[best_idx].clone())
    }

    /// The spread between the dearest and the cheapest sell order.
    pub fn get_price_range(&self) -> (r: Platinum)
        requires
            all_plat_ok(self.sell_orders@),
        ensures
            r as int == price_range_of(self.sell_orders@),
            r >= 0,
    {
        if self.sell_orders.len() == 0 {
            return 0;
        }
        let hi = self.highest_price(OrderType::Sell);
        let lo = self.lowest_price_value();
        proof {
            lemma_min_le_max(self.sell_orders@);
        }
        hi - lo
    }

    /// The least platinum amount among the sell orders; callers ensure the
    /// side is not empty.
    #[verifier::loop_isolation(false)]
    fn lowest_price_value(&self) -> (r: Platinum)
        requires
            self.sell_orders@.len() > 0,
            all_plat_ok(self.sell_orders@),
        ensures
            r as int == min_platinum(self.sell_orders@),
            plat_ok(r as int),
    {
        let mut best: Platinum = self.sell_orders[0].platinum;
        let mut i: usize = 1;
        while i < self.sell_orders.len()
            invariant
                1 <= i <= self.sell_orders@.len(),
                self.sell_orders@.len() > 0,
                all_plat_ok(self.sell_orders@),
                best as int == min_platinum(self.sell_orders@.take(i as int)),
                plat_ok(best as int),
            decreases self.sell_orders@.len() - i,
        {
            proof {
                assert(self.sell_orders@.take(i as int + 1).drop_last() =~= self.sell_orders@.take(
                    i as int,
                ));
                assert(self.sell_orders@.take(i as int + 1).last() == self.sell_orders@[i as int]);
            }
            if self.sell_orders[i].platinum < best {
                best = self.sell_orders[i].platinum;
            }
            i = i + 1;
        }
        proof {
            assert(self.sell_orders@.take(self.sell_orders@.len() as int) =~= self.sell_orders@);
        }
        best
    }

    /// Replace the first order of `order.order_type`'s side that carries the
    /// same id with `order`; leave the mirror unchanged when none does.
    pub fn update_order(&mut self, order: Order)
        ensures
            vec_updated_by_id(old(self).side(order.order_type), final(self).side(order.order_type), order),
            final(self).side(other_side(order.order_type)) == old(self).side(
                other_side(order.order_type),
            ),
    {
        match order.order_type {
            OrderType::Buy => update_order_in_vec(&mut self.buy_orders, order),
            OrderType::Sell => update_order_in_vec(&mut self.sell_orders, order),
        }
    }

    /// Remove the first order of the given side that carries the given id;
    /// leave the mirror unchanged when none does.
    pub fn delete_order_by_id(&mut self, order_type: OrderType, id: &String)
        ensures
            vec_removed_by_id(old(self).side(order_type), final(self).side(order_type), id@),
            final(self).side(other_side(order_type)) == old(self).side(other_side(order_type)),
    {
        match order_type {
            OrderType::Buy => delete_order_in_vec(&mut self.buy_orders, id),
            OrderType::Sell => delete_order_in_vec(&mut self.sell_orders, id),
        }
    }
}

/// How a side looks after replacing the first order with the given id by
/// `order`: unchanged when no order carries the id, updated at the first
/// carrier otherwise.
pub open spec fn vec_updated_by_id(side: Seq<Order>, new_side: Seq<Order>, order: Order) -> bool {
    &&& (forall|i: int| 0 <= i < side.len() ==> (#[trigger] side[i]).id@ != order.id@) ==> new_side
        == side
    &&& (exists|i: int| 0 <= i < side.len() && (#[trigger] side[i]).id@ == order.id@)
        ==> exists|i: int|
        {
            &&& 0 <= i < side.len()
            &&& (#[trigger] side[i]).id@ == order.id@
            &&& forall|j: int| 0 <= j < i ==> (#[trigger] side[j]).id@ != order.id@
            &&& new_side == side.update(i, order)
        }
}

/// How a side looks after removing the first order with the given id:
/// unchanged when no order carries it, shortened at the first carrier
/// otherwise.
pub open spec fn vec_removed_by_id(side: Seq<Order>, new_side: Seq<Order>, id: Seq<char>) -> bool {
    &&& (forall|i: int| 0 <= i < side.len() ==> (#[trigger] side[i]).id@ != id) ==> new_side
        == side
    &&& (exists|i: int| 0 <= i < side.len() && (#[trigger] side[i]).id@ == id) ==> exists|i: int|
        {
            &&& 0 <= i < side.len()
            &&& (#[trigger] side[i]).id@ == id
            &&& forall|j: int| 0 <= j < i ==> (#[trigger] side[j]).id@ != id
            &&& new_side == side.remove(i)
        }
}

/// Replace the first order carrying `order.id` in one side's vector.
#[verifier::loop_isolation(false)]
fn update_order_in_vec(v: &mut Vec<Order>, order: Order)
    ensures
        vec_updated_by_id(old(v)@, final(v)@, order),
{
    let mut i: usize = 0;
    while i < v.len()
        invariant
            i <= v@.len(),
            v@ == old(v)@,
            forall|j: int| 0 <= j < i as int ==> (#[trigger] v@[j]).id@ != order.id@,
        decreases v@.len() - i,
    {
        if v[i].id.eq(&order.id) {
            v.set(i, order);
            return ;
        }
        i = i + 1;
    }
}

/// Remove the first order carrying `id` from one side's vector.
#[verifier::loop_isolation(false)]
fn delete_order_in_vec(v: &mut Vec<Order>, id: &String)
    ensures
        vec_removed_by_id(old(v)@, final(v)@, id@),
{
    let mut i: usize = 0;
    while i < v.len()
        invariant
            i <= v@.len(),
            v@ == old(v)@,
            forall|j: int| 0 <= j < i as int ==> (#[trigger] v@[j]).id@ != id@,
        decreases v@.len() - i,
    {
        if v[i].id.eq(id) {
            v.remove(i);
            return ;
        }
        i = i + 1;
    }
}

/// Every element of a filtered sequence is an element of the original.
pub proof fn lemma_filter_subset<A>(s: Seq<A>, pred: spec_fn(A) -> bool)
    ensures
        forall|i: int|
            0 <= i < s.filter(pred).len() ==> s.contains(#[trigger] s.filter(pred)[i]),
    decreases s.len(),
{
    reveal(Seq::filter);
    if s.len() > 0 {
        lemma_filter_subset(s.drop_last(), pred);
        assert forall|i: int|
            0 <= i < s.filter(pred).len() implies s.contains(#[trigger] s.filter(pred)[i]) by {
            let f = s.filter(pred);
            let fd = s.drop_last().filter(pred);
            if i < fd.len() {
                assert(fd[i] == f[i]);
                let j = choose|j: int| 0 <= j < s.drop_last().len() && s.drop_last()[j] == fd[i];
                assert(s[j] == f[i]);
            } else {
                assert(f[i] == s.last());
                assert(s[s.len() - 1] == f[i]);
            }
        }
    }
}

/// The opposite side.
pub open spec fn other_side(t: OrderType) -> OrderType {
    match t {
        OrderType::Buy => OrderType::Sell,
        OrderType::Sell => OrderType::Buy,
    }
}

/// In a non-empty sequence the least platinum amount is at most the greatest.
pub proof fn lemma_min_le_max(s: Seq<Order>)
    requires
        s.len() > 0,
    ensures
        min_platinum(s) <= max_platinum(s),
    decreases s.len(),
{
    if s.len() == 1 {
    } else {
        lemma_min_le_max(s.drop_last());
    }
}

} // verus!
