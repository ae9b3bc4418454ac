//! The stock store: the authoritative record of owned items with
//! weighted-average-cost accounting, a capped price-history ring per row,
//! and status transitions driven by the pricing loop.
//!
//! The cost per unit is kept as an exact rational so that the weighted
//! average is computed without rounding.

use vstd::prelude::*;

use crate::types::{
    clone_opt_sub_type, opt_sub_type_eqv, plat_ok, ErrorKind, Platinum, PriceHistory, StockStatus,
    SubType, TradableItem, PLAT_LIMIT,
};

verus! {

/// An exact non-negative rational: the cost per unit of a stock row.
#[derive(Clone, Copy, Debug)]
pub struct UnitPrice {
    pub num: u128,
    pub den: u128,
}

impl UnitPrice {
    /// A well-formed unit price has a positive denominator.
    pub open spec fn valid(self) -> bool {
        self.den >= 1
    }

    /// The exact ratio `num / den`.
    pub fn from_ratio(num: u128, den: u128) -> (r: UnitPrice)
        requires
            den >= 1,
        ensures
            r.num == num,
            r.den == den,
    {
        UnitPrice { num, den }
    }

    /// The price rounded down to whole platinum.
    pub fn floor(&self) -> (r: u128)
        requires
            self.valid(),
        ensures
            r == self.num / self.den,
    {
        self.num / self.den
    }
}

/// Statuses under which a row must carry no listed price.
pub open spec fn null_price_status(s: StockStatus) -> bool {
    s == StockStatus::ToLowProfit || s == StockStatus::OrderLimit || s == StockStatus::Pending
}

/// One persisted stock row.
#[derive(Debug)]
pub struct StockItemStruct {
    pub id: i64,
    pub wfm_id: String,
    pub wfm_url: String,
    pub display_name: String,
    pub tags: Vec<String>,
    pub rank: i64,
    pub sub_type: Option<SubType>,
    pub bought: UnitPrice,
    pub minimum_price: Option<Platinum>,
    pub list_price: Option<Platinum>,
    pub price_history: Vec<PriceHistory>,
    pub owned: i64,
    pub is_hidden: bool,
    pub status: StockStatus,
    pub created_at: String,
}

/// View-level equality of two string sequences.
pub open spec fn strings_eqv(a: Seq<String>, b: Seq<String>) -> bool {
    a.len() == b.len() && forall|i: int| 0 <= i < a.len() ==> a[i]@ == b[i]@
}

/// View-level equality of two price-history entries.
pub open spec fn history_entry_eqv(a: PriceHistory, b: PriceHistory) -> bool {
    &&& a.user_id@ == b.user_id@
    &&& a.name@ == b.name@
    &&& a.price == b.price
    &&& a.created_at@ == b.created_at@
}

/// View-level equality of two price-history rings.
pub open spec fn history_eqv(a: Seq<PriceHistory>, b: Seq<PriceHistory>) -> bool {
    a.len() == b.len() && forall|i: int| 0 <= i < a.len() ==> history_entry_eqv(a[i], b[i])
}

/// View-level equality of two stock rows.
pub open spec fn stock_eqv(a: StockItemStruct, b: StockItemStruct) -> bool {
    &&& a.id == b.id
    &&& a.wfm_id@ == b.wfm_id@
    &&& a.wfm_url@ == b.wfm_url@
    &&& a.display_name@ == b.display_name@
    &&& strings_eqv(a.tags@, b.tags@)
    &&& a.rank == b.rank
    &&& opt_sub_type_eqv(a.sub_type, b.sub_type)
    &&& a.bought == b.bought
    &&& a.minimum_price == b.minimum_price
    &&& a.list_price == b.list_price
    &&& history_eqv(a.price_history@, b.price_history@)
    &&& a.owned == b.owned
    &&& a.is_hidden == b.is_hidden
    &&& a.status == b.status
    &&& a.created_at@ == b.created_at@
}

/// Clone a vector of strings element by element.
#[verifier::loop_isolation(false)]
pub fn clone_strings(v: &Vec<String>) -> (r: Vec<String>)
    ensures
        strings_eqv(r@, v@),
{
    let mut out: Vec<String> = Vec::new();
    let mut i: usize = 0;
    while i < v.len()
        invariant
            i <= v@.len(),
            out@.len() == i,
            forall|j: int| 0 <= j < i as int ==> out@[j]@ == v@[j]@,
        decreases v@.len() - i,
    {
        out.push(v[i].clone());
        i = i + 1;
    }
    out
}

/// Clone a price-history ring element by element.
#[verifier::loop_isolation(false)]
pub fn clone_history(v: &Vec<PriceHistory>) -> (r: Vec<PriceHistory>)
    ensures
        history_eqv(r@, v@),
{
    let mut out: Vec<PriceHistory> = Vec::new();
    let mut i: usize = 0;
    while i < v.len()
        invariant
            i <= v@.len(),
            out@.len() == i,
            forall|j: int| 0 <= j < i as int ==> history_entry_eqv(out@[j], v@[j]),
        decreases v@.len() - i,
    {
        out.push(v[i].clone());
        i = i + 1;
    }
    out
}

impl Clone for StockItemStruct {
    fn clone(&self) -> (r: Self)
        ensures
            stock_eqv(r, *self),
    {
        StockItemStruct {
            id: self.id,
            wfm_id: self.wfm_id.clone(),
            wfm_url: self.wfm_url.clone(),
            display_name: self.display_name.clone(),
            tags: clone_strings(&self.tags),
            rank: self.rank,
            sub_type: clone_opt_sub_type(&self.sub_type),
            bought: self.bought,
            minimum_price: self.minimum_price,
            list_price: self.list_price,
            price_history: clone_history(&self.price_history),
            owned: self.owned,
            is_hidden: self.is_hidden,
            status: self.status,
            created_at: self.created_at.clone(),
        }
    }
}

/// Whether a row is keyed by the given URL and sub-type.
pub open spec fn row_key_matches(r: StockItemStruct, url: Seq<char>, st: Option<SubType>) -> bool {
    r.wfm_url@ == url && opt_sub_type_eqv(r.sub_type, st)
}

/// The per-row invariant: at least one unit owned, a valid cost rational,
/// at most five history entries, and no listed price under a status that
/// forbids one.
pub open spec fn row_ok(r: StockItemStruct) -> bool {
    &&& 1 <= r.owned <= PLAT_LIMIT
    &&& r.bought.valid()
    &&& r.price_history@.len() <= 5
    &&& (null_price_status(r.status) ==> r.list_price is None)
}

/// A partial update of one optional field: leave it, assign it, or clear
/// it, with no magic sentinel value standing for "clear".
#[derive(Clone, Copy, Debug)]
pub enum FieldUpdate<T> {
    Keep,
    Assign(T),
    Clear,
}

/// The value of an optional field after applying a partial update.
pub open spec fn apply_field_update<T>(u: FieldUpdate<T>, old_val: Option<T>) -> Option<T> {
    match u {
        FieldUpdate::Keep => old_val,
        FieldUpdate::Assign(v) => Option::Some(v),
        FieldUpdate::Clear => Option::None,
    }
}


/// The columns of the stock-item table, in schema order. The table is
/// created idempotently with all of them; later releases added the tail
/// columns through idempotent alters.
#[derive(Clone, Copy, Debug, PartialEq, Eq, Structural)]
pub enum StockItem {
    Table,
    Id,
    WFMId,
    Url,
    Name,
    Tags,
    Rank,
    SubType,
    Price,
    MiniumPrice,
    ListedPrice,
    PriceHistory,
    Owned,
    Hidden,
    Status,
    Created,
}

/// The columns that later releases add to an existing table, in the fixed
/// order the idempotent migrations apply them.
pub fn migration_columns() -> (r: Vec<StockItem>)
    ensures
        r@ == seq![
            StockItem::MiniumPrice,
            StockItem::Hidden,
            StockItem::Status,
            StockItem::PriceHistory,
        ],
{
    let mut out: Vec<StockItem> = Vec::new();
    out.push(StockItem::MiniumPrice);
    out.push(StockItem::Hidden);
    out.push(StockItem::Status);
    out.push(StockItem::PriceHistory);
    proof {
        assert(out@ =~= seq![
            StockItem::MiniumPrice,
            StockItem::Hidden,
            StockItem::Status,
            StockItem::PriceHistory,
        ]);
    }
    out
}

/// The stock store: its rows, the catalog it validates new rows against,
/// and the next row id.
#[derive(Debug)]
pub struct StockItemModule {
    pub rows: Vec<StockItemStruct>,
    pub catalog: Vec<TradableItem>,
    pub next_id: i64,
}

/// The quantity actually applied by `create` and `sell_item`: a
/// non-positive argument counts as one unit.
pub open spec fn clamp_qty(q: int) -> int {
    if q <= 0 {
        1
    } else {
        q
    }
}

/// Whether the weighted-average merge of `price` into row `r` at clamped
/// quantity `q1` fits the machine integers.
pub open spec fn merge_fits(r: StockItemStruct, q1: int, price: int) -> bool {
    &&& r.bought.num * r.owned + price * r.bought.den <= u128::MAX
    &&& r.bought.den * (r.owned + q1) <= u128::MAX
    &&& r.owned + q1 <= PLAT_LIMIT
}

impl StockItemModule {
    /// The store invariant: every row satisfies the row invariant, ids are
    /// unique and below `next_id`, and no two rows share a
    /// `(wfm_url, sub_type)` key.
    pub open spec fn well_formed(self) -> bool {
        &&& forall|i: int| 0 <= i < self.rows@.len() ==> row_ok(#[trigger] self.rows@[i])
        &&& forall|i: int|
            0 <= i < self.rows@.len() ==> 1 <= (#[trigger] self.rows@[i]).id < self.next_id
        &&& forall|i: int, j: int|
            0 <= i < self.rows@.len() && 0 <= j < self.rows@.len() && i != j
                ==> (#[trigger] self.rows@[i]).id != (#[trigger] self.rows@[j]).id
        &&& forall|i: int, j: int|
            0 <= i < self.rows@.len() && 0 <= j < self.rows@.len() && i != j ==> !row_key_matches(
                #[trigger] self.rows@[i],
                (#[trigger] self.rows@[j]).wfm_url@,
                self.rows@[j].sub_type,
            )
        &&& self.next_id >= 1
    }

    /// An empty store over the given catalog.
    pub fn new(catalog: Vec<TradableItem>) -> (r: StockItemModule)
        ensures
            r.rows@.len() == 0,
            r.catalog == catalog,
            r.next_id == 1,
            r.well_formed(),
    {
        StockItemModule { rows: Vec::new(), catalog, next_id: 1 }
    }

    /// Clones of all rows, in storage order.
    #[verifier::loop_isolation(false)]
    pub fn get_items(&self) -> (r: Vec<StockItemStruct>)
        ensures
            r@.len() == self.rows@.len(),
            forall|i: int| 0 <= i < r@.len() ==> stock_eqv(#[trigger] r@[i], self.rows@[i]),
    {
        let mut out: Vec<StockItemStruct> = Vec::new();
        let mut i: usize = 0;
        while i < self.rows.len()
            invariant
                i <= self.rows@.len(),
                out@.len() == i,
                forall|j: int| 0 <= j < i as int ==> stock_eqv(#[trigger] out@[j], self.rows@[j]),
            decreases self.rows@.len() - i,
        {
            out.push(self.rows[i].clone());
            i = i + 1;
        }
        out
    }

    /// A clone of the first row with the given URL, regardless of sub-type.
    #[verifier::loop_isolation(false)]
    pub fn get_item_by_url_name(&self, url_name: &String) -> (r: Option<StockItemStruct>)
        ensures
            match r {
                Option::None => forall|i: int|
                    0 <= i < self.rows@.len() ==> (#[trigger] self.rows@[i]).wfm_url@ != url_name@,
                Option::Some(row) => exists|i: int|
                    {
                        &&& 0 <= i < self.rows@.len()
                        &&& (#[trigger] self.rows@[i]).wfm_url@ == url_name@
                        &&& stock_eqv(row, self.rows@[i])
                        &&& forall|j: int|
                            0 <= j < i ==> (#[trigger] self.rows@[j]).wfm_url@ != url_name@
                    },
            },
    {
        let mut i: usize = 0;
        while i < self.rows.len()
            invariant
                i <= self.rows@.len(),
                forall|j: int| 0 <= j < i as int ==> (#[trigger] self.rows@[j]).wfm_url@ != url_name@,
            decreases self.rows@.len() - i,
        {
            if self.rows[i].wfm_url.eq(url_name) {
                return Option::Some(self.rows[i].clone());
            }
            i = i + 1;
        }
        Option::None
    }

    /// A clone of the row with the given id, if any.
    #[verifier::loop_isolation(false)]
    pub fn get_by_id(&self, id: i64) -> (r: Option<StockItemStruct>)
        ensures
            match r {
                Option::None => forall|i: int|
                    0 <= i < self.rows@.len() ==> (#[trigger] self.rows@[i]).id != id,
                Option::Some(row) => exists|i: int|
                    0 <= i < self.rows@.len() && (#[trigger] self.rows@[i]).id == id && stock_eqv(
                        row,
                        self.rows@[i],
                    ),
            },
    {
        let mut i: usize = 0;
        while i < self.rows.len()
            invariant
                i <= self.rows@.len(),
                forall|j: int| 0 <= j < i as int ==> (#[trigger] self.rows@[j]).id != id,
            decreases self.rows@.len() - i,
        {
            if self.rows[i].id == id {
                return Option::Some(self.rows[i].clone());
            }
            i = i + 1;
        }
        Option::None
    }

    /// The index of the first row with the given id.
    #[verifier::loop_isolation(false)]
    fn find_index_by_id(&self, id: i64) -> (r: Option<usize>)
        ensures
            match r {
                Option::None => forall|i: int|
                    0 <= i < self.rows@.len() ==> (#[trigger] self.rows@[i]).id != id,
                Option::Some(i) => i < self.rows@.len() && self.rows@[i as int].id == id,
            },
    {
        let mut i: usize = 0;
        while i < self.rows.len()
            invariant
                i <= self.rows@.len(),
                forall|j: int| 0 <= j < i as int ==> (#[trigger] self.rows@[j]).id != id,
            decreases self.rows@.len() - i,
        {
            if self.rows[i].id == id {
                return Option::Some(i);
            }
            i = i + 1;
        }
        Option::None
    }

    /// The index of the first row keyed by the given URL and sub-type.
    #[verifier::loop_isolation(false)]
    fn find_index_by_key(&self, url: &String, st: &Option<SubType>) -> (r: Option<usize>)
        ensures
            match r {
                Option::None => forall|i: int|
                    0 <= i < self.rows@.len() ==> !row_key_matches(
                        #[trigger] self.rows@[i],
                        url@,
                        *st,
                    ),
                Option::Some(i) => i < self.rows@.len() && row_key_matches(
                    self.rows@[i as int],
                    url@,
                    *st,
                ),
            },
    {
        let mut i: usize = 0;
        while i < self.rows.len()
            invariant
                i <= self.rows@.len(),
                forall|j: int|
                    0 <= j < i as int ==> !row_key_matches(#[trigger] self.rows@[j], url@, *st),
            decreases self.rows@.len() - i,
        {
            let url_match = self.rows[i].wfm_url.eq(url);
            let st_match = crate::types::opt_sub_type_eq(&self.rows[i].sub_type, st);
            if url_match && st_match {
                return Option::Some(i);
            }
            i = i + 1;
        }
        Option::None
    }

    /// The index of the first catalog entry with the given URL.
    #[verifier::loop_isolation(false)]
    fn find_catalog(&self, url: &String) -> (r: Option<usize>)
        ensures
            match r {
                Option::None => forall|i: int|
                    0 <= i < self.catalog@.len() ==> (#[trigger] self.catalog@[i]).wfm_url_name@
                        != url@,
                Option::Some(i) => i < self.catalog@.len() && self.catalog@[i as int].wfm_url_name@
                    == url@,
            },
    {
        let mut i: usize = 0;
        while i < self.catalog.len()
            invariant
                i <= self.catalog@.len(),
                forall|j: int|
                    0 <= j < i as int ==> (#[trigger] self.catalog@[j]).wfm_url_name@ != url@,
            decreases self.catalog@.len() - i,
        {
            if self.catalog[i].wfm_url_name.eq(url) {
                return Option::Some(i);
            }
            i = i + 1;
        }
        Option::None
    }

    /// Whether the catalog holds an entry for the given URL.
    pub open spec fn in_catalog(self, url: Seq<char>) -> bool {
        exists|i: int| 0 <= i < self.catalog@.len() && (#[trigger] self.catalog@[i]).wfm_url_name@
            == url
    }

    /// Upsert a purchase: merge into the row keyed by `(url, sub_type)`
    /// with exact weighted-average cost, or insert a new `Pending` row whose
    /// cost per unit is `price / quantity`. The incoming `price` is the
    /// total paid for the batch. Fails with `CacheMiss` when the URL has no
    /// catalog entry; the store is unchanged then.
    #[verifier::loop_isolation(false)]
    pub fn create(
        &mut self,
        url_name: &String,
        quantity: i64,
        price: i64,
        minimum_price: Option<Platinum>,
        rank: i64,
        sub_type: Option<SubType>,
    ) -> (r: Result<StockItemStruct, ErrorKind>)
        requires
            old(self).well_formed(),
            plat_ok(price as int),
            quantity <= PLAT_LIMIT,
            old(self).next_id < i64::MAX,
            forall|i: int|
                0 <= i < old(self).rows@.len() && row_key_matches(
                    #[trigger] old(self).rows@[i],
                    url_name@,
                    sub_type,
                ) ==> merge_fits(old(self).rows@[i], clamp_qty(quantity as int), price as int),
        ensures
            final(self).well_formed(),
            final(self).catalog == old(self).catalog,
            r is Err <==> !old(self).in_catalog(url_name@),
            r is Err ==> r == Result::<StockItemStruct, ErrorKind>::Err(ErrorKind::CacheMiss)
                && *final(self) == *old(self),
            r is Ok ==> ({
                let q1 = clamp_qty(quantity as int);
                if exists|i: int|
                    0 <= i < old(self).rows@.len() && row_key_matches(
                        #[trigger] old(self).rows@[i],
                        url_name@,
                        sub_type,
                    ) {
                    exists|i: int|
                        {
                            &&& 0 <= i < old(self).rows@.len()
                            &&& row_key_matches(#[trigger] old(self).rows@[i], url_name@, sub_type)
                            &&& ({
                                let or = old(self).rows@[i];
                                let nr = final(self).rows@[i];
                                &&& final(self).rows@ == old(self).rows@.update(i, nr)
                                &&& nr.owned == or.owned + q1
                                &&& nr.bought.num == or.bought.num * or.owned + price
                                    * or.bought.den
                                &&& nr.bought.den == or.bought.den * (or.owned + q1)
                                &&& nr.id == or.id
                                &&& nr.wfm_id == or.wfm_id
                                &&& nr.wfm_url == or.wfm_url
                                &&& nr.display_name == or.display_name
                                &&& nr.tags == or.tags
                                &&& nr.rank == or.rank
                                &&& nr.sub_type == or.sub_type
                                &&& nr.minimum_price == or.minimum_price
                                &&& nr.list_price == or.list_price
                                &&& nr.price_history == or.price_history
                                &&& nr.is_hidden == or.is_hidden
                                &&& nr.status == or.status
                                &&& nr.created_at == or.created_at
                                &&& stock_eqv(r.unwrap(), nr)
                            })
                        }
                } else {
                    let nr = final(self).rows@.last();
                    &&& final(self).rows@ == old(self).rows@.push(nr)
                    &&& final(self).next_id == old(self).next_id + 1
                    &&& nr.id == old(self).next_id
                    &&& nr.wfm_url@ == url_name@
                    &&& nr.owned == q1
                    &&& nr.bought.num == price
                    &&& nr.bought.den == q1
                    &&& nr.status == StockStatus::Pending
                    &&& nr.list_price is None
                    &&& nr.minimum_price == minimum_price
                    &&& nr.rank == rank
                    &&& opt_sub_type_eqv(nr.sub_type, sub_type)
                    &&& nr.price_history@.len() == 0
                    &&& !nr.is_hidden
                    &&& stock_eqv(r.unwrap(), nr)
                }
            }),
    {
        let q1: i64 = if quantity <= 0 {
            1
        } else {
            quantity
        };
        let cat_idx = match self.find_catalog(url_name) {
            Option::Some(i) => i,
            Option::None => {
                return Result::Err(ErrorKind::CacheMiss);
            },
        };
        match self.find_index_by_key(url_name, &sub_type) {
            Option::Some(i) => {
                let ghost rows0 = self.rows@;
                let mut row = self.rows.remove(i);
                let ghost or = row;
                let prior_owned = row.owned;
                row.owned = row.owned + q1;
                let num = row.bought.num * (prior_owned as u128) + (price as u128) * row.bought.den;
                let den = row.bought.den * (row.owned as u128);
                row.bought = UnitPrice { num, den };
                let out = row.clone();
                self.rows.insert(i, row);
                proof {
                    assert(self.rows@ =~= rows0.update(i as int, self.rows@[i as int]));
                    assert(self.rows@[i as int].bought.den >= 1) by (nonlinear_arith)
                        requires
                            self.rows@[i as int].bought.den == or.bought.den * ((or.owned
                                + q1) as u128),
                            or.bought.den >= 1,
                            or.owned + q1 >= 1,
                    ;
                }
                Result::Ok(out)
            },
            Option::None => {
                let item = &self.catalog[cat_idx];
                let row = StockItemStruct {
                    id: self.next_id,
                    wfm_id: item.wfm_id.clone(),
                    wfm_url: item.wfm_url_name.clone(),
                    display_name: item.name.clone(),
                    tags: clone_strings(&item.tags),
                    rank,
                    sub_type: clone_opt_sub_type(&sub_type),
                    bought: UnitPrice { num: price as u128, den: q1 as u128 },
                    minimum_price,
                    list_price: Option::None,
                    price_history: Vec::new(),
                    owned: q1,
                    is_hidden: false,
                    status: StockStatus::Pending,
                    created_at: crate::clock::now_local_string(),
                };
                let out = row.clone();
                self.rows.push(row);
                self.next_id = self.next_id + 1;
                Result::Ok(out)
            },
        }
    }

    /// Apply a partial update to the row with the given id. Appending to the
    /// price history evicts the oldest entry once the ring is full. Fails
    /// with `InvariantViolation` when no row carries the id; the store is
    /// unchanged then.
    #[verifier::loop_isolation(false)]
    pub fn update_by_id(
        &mut self,
        id: i64,
        owned: Option<i64>,
        bought: Option<UnitPrice>,
        minimum_price: FieldUpdate<Platinum>,
        list_price: FieldUpdate<Platinum>,
        status: Option<StockStatus>,
        hidden: Option<bool>,
        price_history: Option<PriceHistory>,
    ) -> (r: Result<StockItemStruct, ErrorKind>)
        requires
            old(self).well_formed(),
            owned matches Option::Some(v) ==> 1 <= v <= PLAT_LIMIT,
            bought matches Option::Some(b) ==> b.valid(),
            forall|i: int|
                0 <= i < old(self).rows@.len() && (#[trigger] old(self).rows@[i]).id == id ==> ({
                    let new_status = match status {
                        Option::Some(s) => s,
                        Option::None => old(self).rows@[i].status,
                    };
                    let new_lp = apply_field_update(list_price, old(self).rows@[i].list_price);
                    null_price_status(new_status) ==> new_lp is None
                }),
        ensures
            final(self).well_formed(),
            final(self).catalog == old(self).catalog,
            final(self).next_id == old(self).next_id,
            r is Err <==> (forall|i: int|
                0 <= i < old(self).rows@.len() ==> (#[trigger] old(self).rows@[i]).id != id),
            r is Err ==> r == Result::<StockItemStruct, ErrorKind>::Err(
                ErrorKind::InvariantViolation,
            ) && *final(self) == *old(self),
            r is Ok ==> exists|i: int|
                {
                    &&& 0 <= i < old(self).rows@.len()
                    &&& (#[trigger] old(self).rows@[i]).id == id
                    &&& ({
                        let or = old(self).rows@[i];
                        let nr = final(self).rows@[i];
                        &&& final(self).rows@ == old(self).rows@.update(i, nr)
                        &&& nr.owned == (match owned {
                            Option::Some(v) => v,
                            Option::None => or.owned,
                        })
                        &&& nr.bought == (match bought {
                            Option::Some(b) => b,
                            Option::None => or.bought,
                        })
                        &&& nr.minimum_price == apply_field_update(minimum_price, or.minimum_price)
                        &&& nr.list_price == apply_field_update(list_price, or.list_price)
                        &&& nr.status == (match status {
                            Option::Some(s) => s,
                            Option::None => or.status,
                        })
                        &&& nr.is_hidden == (match hidden {
                            Option::Some(h) => h,
                            Option::None => or.is_hidden,
                        })
                        &&& (match price_history {
                            Option::Some(ph) => {
                                if or.price_history@.len() >= 5 {
                                    history_eqv(
                                        nr.price_history@,
                                        or.price_history@.drop_first().push(ph),
                                    )
                                } else {
                                    history_eqv(nr.price_history@, or.price_history@.push(ph))
                                }
                            },
                            Option::None => nr.price_history == or.price_history,
                        })
                        &&& nr.id == or.id
                        &&& nr.wfm_id == or.wfm_id
                        &&& nr.wfm_url == or.wfm_url
                        &&& nr.display_name == or.display_name
                        &&& nr.tags == or.tags
                        &&& nr.rank == or.rank
                        &&& nr.sub_type == or.sub_type
                        &&& nr.created_at == or.created_at
                        &&& stock_eqv(r.unwrap(), nr)
                    })
                },
    {
        let i = match self.find_index_by_id(id) {
            Option::Some(i) => i,
            Option::None => {
                return Result::Err(ErrorKind::InvariantViolation);
            },
        };
        let ghost rows0 = self.rows@;
        let mut row = self.rows.remove(i);
        let ghost or = row;
        match owned {
            Option::Some(v) => {
                row.owned = v;
            },
            Option::None => {},
        }
        match bought {
            Option::Some(b) => {
                row.bought = b;
            },
            Option::None => {},
        }
        match minimum_price {
            FieldUpdate::Keep => {},
            FieldUpdate::Assign(v) => {
                row.minimum_price = Option::Some(v);
            },
            FieldUpdate::Clear => {
                row.minimum_price = Option::None;
            },
        }
        match list_price {
            FieldUpdate::Keep => {},
            FieldUpdate::Assign(v) => {
                row.list_price = Option::Some(v);
            },
            FieldUpdate::Clear => {
                row.list_price = Option::None;
            },
        }
        match status {
            Option::Some(s) => {
                row.status = s;
            },
            Option::None => {},
        }
        match hidden {
            Option::Some(h) => {
                row.is_hidden = h;
            },
            Option::None => {},
        }
        match price_history {
            Option::Some(ph) => {
                if row.price_history.len() >= 5 {
                    row.price_history.remove(0);
                }
                row.price_history.push(ph);
            },
            Option::None => {},
        }
        let out = row.clone();
        self.rows.insert(i, row);
        proof {
            assert(self.rows@ =~= rows0.update(i as int, self.rows@[i as int]));
        }
        Result::Ok(out)
    }

    /// Remove the row with the given id and return it. Fails with
    /// `InvariantViolation` when no row carries the id.
    pub fn delete(&mut self, id: i64) -> (r: Result<StockItemStruct, ErrorKind>)
        requires
            old(self).well_formed(),
        ensures
            final(self).well_formed(),
            final(self).catalog == old(self).catalog,
            final(self).next_id == old(self).next_id,
            r is Err <==> (forall|i: int|
                0 <= i < old(self).rows@.len() ==> (#[trigger] old(self).rows@[i]).id != id),
            r is Err ==> r == Result::<StockItemStruct, ErrorKind>::Err(
                ErrorKind::InvariantViolation,
            ) && *final(self) == *old(self),
            r is Ok ==> exists|i: int|
                {
                    &&& 0 <= i < old(self).rows@.len()
                    &&& (#[trigger] old(self).rows@[i]).id == id
                    &&& final(self).rows@ == old(self).rows@.remove(i)
                    &&& stock_eqv(r.unwrap(), old(self).rows@[i])
                },
    {
        let i = match self.find_index_by_id(id) {
            Option::Some(i) => i,
            Option::None => {
                return Result::Err(ErrorKind::InvariantViolation);
            },
        };
        let row = self.rows.remove(i);
        Result::Ok(row)
    }

    /// Sell `quantity` units (at least one) of the row with the given id:
    /// the row is deleted when nothing remains, and the pre-decrement
    /// snapshot is returned. The cost per unit is unchanged. Fails with
    /// `InvariantViolation` when no row carries the id.
    pub fn sell_item(&mut self, id: i64, quantity: i64) -> (r: Result<StockItemStruct, ErrorKind>)
        requires
            old(self).well_formed(),
            quantity <= PLAT_LIMIT,
        ensures
            final(self).well_formed(),
            final(self).catalog == old(self).catalog,
            final(self).next_id == old(self).next_id,
            r is Err <==> (forall|i: int|
                0 <= i < old(self).rows@.len() ==> (#[trigger] old(self).rows@[i]).id != id),
            r is Err ==> r == Result::<StockItemStruct, ErrorKind>::Err(
                ErrorKind::InvariantViolation,
            ) && *final(self) == *old(self),
            r is Ok ==> exists|i: int|
                {
                    &&& 0 <= i < old(self).rows@.len()
                    &&& (#[trigger] old(self).rows@[i]).id == id
                    &&& stock_eqv(r.unwrap(), old(self).rows@[i])
                    &&& ({
                        let or = old(self).rows@[i];
                        let q1 = clamp_qty(quantity as int);
                        if or.owned - q1 <= 0 {
                            final(self).rows@ == old(self).rows@.remove(i)
                        } else {
                            ({
                                let nr = final(self).rows@[i];
                                &&& final(self).rows@ == old(self).rows@.update(i, nr)
                                &&& nr.owned == or.owned - q1
                                &&& nr.bought == or.bought
                                &&& nr.id == or.id
                                &&& nr.wfm_id == or.wfm_id
                                &&& nr.wfm_url == or.wfm_url
                                &&& nr.display_name == or.display_name
                                &&& nr.tags == or.tags
                                &&& nr.rank == or.rank
                                &&& nr.sub_type == or.sub_type
                                &&& nr.minimum_price == or.minimum_price
                                &&& nr.list_price == or.list_price
                                &&& nr.price_history == or.price_history
                                &&& nr.is_hidden == or.is_hidden
                                &&& nr.status == or.status
                                &&& nr.created_at == or.created_at
                            })
                        }
                    })
                },
    {
        let q1: i64 = if quantity <= 0 {
            1
        } else {
            quantity
        };
        let i = match self.find_index_by_id(id) {
            Option::Some(i) => i,
            Option::None => {
                return Result::Err(ErrorKind::InvariantViolation);
            },
        };
        let ghost rows0 = self.rows@;
        let mut row = self.rows.remove(i);
        let out = row.clone();
        if row.owned - q1 <= 0 {
            Result::Ok(out)
        } else {
            row.owned = row.owned - q1;
            self.rows.insert(i, row);
            proof {
                assert(self.rows@ =~= rows0.update(i as int, self.rows@[i as int]));
            }
            Result::Ok(out)
        }
    }

    /// Clear every row's listed price and reset its status to `Pending`.
    #[verifier::loop_isolation(false)]
    pub fn reset_listed_price(&mut self)
        requires
            old(self).well_formed(),
        ensures
            final(self).well_formed(),
            final(self).catalog == old(self).catalog,
            final(self).next_id == old(self).next_id,
            final(self).rows@.len() == old(self).rows@.len(),
            forall|i: int|
                0 <= i < old(self).rows@.len() ==> ({
                    let or = old(self).rows@[i];
                    let nr = #[trigger] final(self).rows@[i];
                    &&& nr.list_price is None
                    &&& nr.status == StockStatus::Pending
                    &&& nr.owned == or.owned
                    &&& nr.bought == or.bought
                    &&& nr.id == or.id
                    &&& nr.wfm_id == or.wfm_id
                    &&& nr.wfm_url == or.wfm_url
                    &&& nr.display_name == or.display_name
                    &&& nr.tags == or.tags
                    &&& nr.rank == or.rank
                    &&& nr.sub_type == or.sub_type
                    &&& nr.minimum_price == or.minimum_price
                    &&& nr.price_history == or.price_history
                    &&& nr.is_hidden == or.is_hidden
                    &&& nr.created_at == or.created_at
                }),
    {
        let ghost rows0 = self.rows@;
        let mut i: usize = 0;
        while i < self.rows.len()
            invariant
                i <= self.rows@.len(),
                self.rows@.len() == rows0.len(),
                self.catalog == old(self).catalog,
                self.next_id == old(self).next_id,
                forall|j: int| i as int <= j < rows0.len() ==> #[trigger] self.rows@[j] == rows0[j],
                forall|j: int|
                    0 <= j < i as int ==> ({
                        let or = rows0[j];
                        let nr = #[trigger] self.rows@[j];
                        &&& nr.list_price is None
                        &&& nr.status == StockStatus::Pending
                        &&& nr.owned == or.owned
                        &&& nr.bought == or.bought
                        &&& nr.id == or.id
                        &&& nr.wfm_id == or.wfm_id
                        &&& nr.wfm_url == or.wfm_url
                        &&& nr.display_name == or.display_name
                        &&& nr.tags == or.tags
                        &&& nr.rank == or.rank
                        &&& nr.sub_type == or.sub_type
                        &&& nr.minimum_price == or.minimum_price
                        &&& nr.price_history == or.price_history
                        &&& nr.is_hidden == or.is_hidden
                        &&& nr.created_at == or.created_at
                    }),
            decreases self.rows@.len() - i,
        {
            let ghost before = self.rows@;
            let mut row = self.rows.remove(i);
            row.list_price = Option::None;
            row.status = StockStatus::Pending;
            self.rows.insert(i, row);
            proof {
                assert(self.rows@ =~= before.update(i as int, self.rows@[i as int]));
            }
            i = i + 1;
        }
    }

    /// The URLs of all rows that are visible and still owned.
    #[verifier::loop_isolation(false)]
    pub fn get_items_names(&self) -> (r: Vec<String>)
        ensures
            r@.map_values(|s: String| s@) == self.rows@.filter(
                |row: StockItemStruct| !row.is_hidden && row.owned > 0,
            ).map_values(|row: StockItemStruct| row.wfm_url@),
    {
        let ghost pred = |row: StockItemStruct| !row.is_hidden && row.owned > 0;
        let ghost url_of = |row: StockItemStruct| row.wfm_url@;
        let ghost sview = |s: String| s@;
        let mut out: Vec<String> = Vec::new();
        let mut i: usize = 0;
        proof {
            assert(self.rows@.take(0) =~= Seq::<StockItemStruct>::empty());
            assert(Seq::<StockItemStruct>::empty().filter(pred) =~= Seq::<
                StockItemStruct,
            >::empty());
            assert(out@.map_values(sview) =~= Seq::<StockItemStruct>::empty().map_values(url_of));
        }
        while i < self.rows.len()
            invariant
                i <= self.rows@.len(),
                out@.map_values(sview) == self.rows@.take(i as int).filter(pred).map_values(
                    url_of,
                ),
            decreases self.rows@.len() - i,
        {
            let ghost prefix = self.rows@.take(i as int);
            proof {
                assert(self.rows@.take(i as int + 1).drop_last() =~= prefix);
                assert(self.rows@.take(i as int + 1).last() == self.rows@[i as int]);
                reveal(Seq::filter);
            }
            let row = &self.rows[i];
            if !row.is_hidden && row.owned > 0 {
                out.push(row.wfm_url.clone());
                proof {
                    assert(self.rows@.take(i as int + 1).filter(pred) =~= prefix.filter(
                        pred,
                    ).push(self.rows@[i as int]));
                    assert(self.rows@.take(i as int + 1).filter(pred).map_values(url_of)
                        =~= prefix.filter(pred).map_values(url_of).push(
                        self.rows@[i as int].wfm_url@,
                    ));
                    assert(out@.map_values(sview) =~= prefix.filter(pred).map_values(url_of).push(
                        self.rows@[i as int].wfm_url@,
                    ));
                }
            } else {
                proof {
                    assert(self.rows@.take(i as int + 1).filter(pred) =~= prefix.filter(pred));
                }
            }
            i = i + 1;
        }
        proof {
            assert(self.rows@.take(self.rows@.len() as int) =~= self.rows@);
        }
        out
    }
}

} // verus!
