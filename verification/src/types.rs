//! Shared data model: item metadata, price statistics, orders, stock rows,
//! settings and the crate's error kinds.

use vstd::prelude::*;

verus! {

/// Orders and prices are counted in whole platinum, the marketplace currency.
pub type Platinum = i64;

/// Bound on any single platinum amount the decision logic computes with.
/// Keeping amounts below this limit lets every sum and difference of a few
/// amounts fit in an `i64`.
pub const PLAT_LIMIT: i64 = 0x4000_0000;

/// A platinum amount the pricing rules accept: non-negative and small enough
/// that sums and differences of a handful of amounts cannot overflow.
pub open spec fn plat_ok(p: int) -> bool {
    0 <= p <= PLAT_LIMIT
}

/// A possibly negative amount (a price shift, a profit): its magnitude is
/// bounded by twice the single-amount limit, since a profit is a difference
/// of two amounts.
pub open spec fn amount_ok(p: int) -> bool {
    -2 * PLAT_LIMIT <= p <= 2 * PLAT_LIMIT
}

/// Which side of the market an operation works on, or both.
#[derive(Clone, Copy, Debug, PartialEq, Eq, Structural)]
pub enum OrderMode {
    Buy,
    Sell,
    Both,
}

/// The side of a single order.
#[derive(Clone, Copy, Debug, PartialEq, Eq, Structural)]
pub enum OrderType {
    Buy,
    Sell,
}

/// Lifecycle status of a stock row, driven by the pricing loop.
#[derive(Clone, Copy, Debug, PartialEq, Eq, Structural)]
pub enum StockStatus {
    Pending,
    Live,
    InActive,
    NoSellers,
    SMALimit,
    ToLowProfit,
    Overpriced,
    Underpriced,
    OrderLimit,
}

/// The order-type tag of a price-statistics record.
#[derive(Clone, Copy, Debug, PartialEq, Eq, Structural)]
pub enum PriceOrderKind {
    Closed,
    Buy,
    Sell,
}

/// The crate's error kinds.
#[derive(Clone, Copy, Debug, PartialEq, Eq, Structural)]
pub enum ErrorKind {
    Transport,
    DecodeRemote,
    DecodeLocal,
    CacheMiss,
    DatabaseIO,
    FileIO,
    InvariantViolation,
}

/// Equality of two optional strings, compared by their character sequences.
pub open spec fn opt_string_eqv(a: Option<String>, b: Option<String>) -> bool {
    match (a, b) {
        (Option::None, Option::None) => true,
        (Option::Some(x), Option::Some(y)) => x@ == y@,
        _ => false,
    }
}

/// Executable equality of two optional strings.
pub fn opt_string_eq(a: &Option<String>, b: &Option<String>) -> (r: bool)
    ensures
        r == opt_string_eqv(*a, *b),
{
    match (a, b) {
        (Option::None, Option::None) => true,
        (Option::Some(x), Option::Some(y)) => x.eq(y),
        _ => false,
    }
}

/// Executable equality of two optional integers.
pub fn opt_i64_eq(a: &Option<i64>, b: &Option<i64>) -> (r: bool)
    ensures
        r == (*a == *b),
{
    match (a, b) {
        (Option::None, Option::None) => true,
        (Option::Some(x), Option::Some(y)) => *x == *y,
        _ => false,
    }
}

/// Modifiers that make two items with the same catalog URL non-fungible.
/// Two sub-types are equal iff all four fields match.
#[derive(Debug)]
pub struct SubType {
    pub rank: Option<i64>,
    pub variant: Option<String>,
    pub cyan_stars: Option<i64>,
    pub amber_stars: Option<i64>,
}

/// Equality of two sub-types: every field must match.
pub open spec fn sub_type_eqv(a: SubType, b: SubType) -> bool {
    &&& a.rank == b.rank
    &&& opt_string_eqv(a.variant, b.variant)
    &&& a.cyan_stars == b.cyan_stars
    &&& a.amber_stars == b.amber_stars
}

/// Equality of two optional sub-types.
pub open spec fn opt_sub_type_eqv(a: Option<SubType>, b: Option<SubType>) -> bool {
    match (a, b) {
        (Option::None, Option::None) => true,
        (Option::Some(x), Option::Some(y)) => sub_type_eqv(x, y),
        _ => false,
    }
}

impl SubType {
    /// A sub-type carrying only a rank, as derived from catalog metadata.
    pub fn from_rank(rank: i64) -> (r: SubType)
        ensures
            r.rank == Option::<i64>::Some(rank),
            r.variant.is_none(),
            r.cyan_stars.is_none(),
            r.amber_stars.is_none(),
    {
        SubType { rank: Option::Some(rank), variant: Option::None, cyan_stars: Option::None, amber_stars: Option::None }
    }
}

impl Clone for SubType {
    fn clone(&self) -> (r: Self)
        ensures
            sub_type_eqv(r, *self),
            r.rank == self.rank,
            r.cyan_stars == self.cyan_stars,
            r.amber_stars == self.amber_stars,
    {
        SubType {
            rank: self.rank,
            variant: match &self.variant {
                Option::Some(v) => Option::Some(v.clone()),
                Option::None => Option::None,
            },
            cyan_stars: self.cyan_stars,
            amber_stars: self.amber_stars,
        }
    }
}

impl PartialEq for SubType {
    fn eq(&self, other: &Self) -> (r: bool) {
        let rank_eq: bool = opt_i64_eq(&self.rank, &other.rank);
        let variant_eq: bool = opt_string_eq(&self.variant, &other.variant);
        let cyan_eq: bool = opt_i64_eq(&self.cyan_stars, &other.cyan_stars);
        let amber_eq: bool = opt_i64_eq(&self.amber_stars, &other.amber_stars);
        rank_eq && variant_eq && cyan_eq && amber_eq
    }
}

impl vstd::std_specs::cmp::PartialEqSpecImpl for SubType {
    open spec fn obeys_eq_spec() -> bool {
        true
    }

    open spec fn eq_spec(&self, other: &SubType) -> bool {
        sub_type_eqv(*self, *other)
    }
}

/// Executable equality of two optional sub-types.
pub fn opt_sub_type_eq(a: &Option<SubType>, b: &Option<SubType>) -> (r: bool)
    ensures
        r == opt_sub_type_eqv(*a, *b),
{
    match (a, b) {
        (Option::None, Option::None) => true,
        (Option::Some(x), Option::Some(y)) => x == y,
        _ => false,
    }
}

/// Executable clone of an optional sub-type.
pub fn clone_opt_sub_type(a: &Option<SubType>) -> (r: Option<SubType>)
    ensures
        opt_sub_type_eqv(r, *a),
        r.is_some() == a.is_some(),
{
    match a {
        Option::Some(s) => Option::Some(s.clone()),
        Option::None => Option::None,
    }
}

/// One entry of a stock row's price-history ring.
#[derive(Debug)]
pub struct PriceHistory {
    pub user_id: String,
    pub name: String,
    pub price: Platinum,
    pub created_at: String,
}

impl Clone for PriceHistory {
    fn clone(&self) -> (r: Self)
        ensures
            r.user_id@ == self.user_id@,
            r.name@ == self.name@,
            r.price == self.price,
            r.created_at@ == self.created_at@,
    {
        PriceHistory {
            user_id: self.user_id.clone(),
            name: self.name.clone(),
            price: self.price,
            created_at: self.created_at.clone(),
        }
    }
}

/// A catalog entry: one tradable item of the remote marketplace.
#[derive(Debug)]
pub struct TradableItem {
    pub wfm_id: String,
    pub wfm_url_name: String,
    pub name: String,
    pub max_rank: Option<i64>,
    pub tags: Vec<String>,
}

impl Clone for TradableItem {
    fn clone(&self) -> (r: Self)
        ensures
            r.wfm_id@ == self.wfm_id@,
            r.wfm_url_name@ == self.wfm_url_name@,
            r.name@ == self.name@,
            r.max_rank == self.max_rank,
            r.tags@.len() == self.tags@.len(),
            forall|i: int| 0 <= i < self.tags@.len() ==> r.tags@[i]@ == self.tags@[i]@,
    {
        let mut tags: Vec<String> = Vec::new();
        let mut i: usize = 0;
        while i < self.tags.len()
            invariant
                i <= self.tags@.len(),
                tags@.len() == i,
                forall|j: int| 0 <= j < i as int ==> tags@[j]@ == self.tags@[j]@,
            decreases self.tags@.len() - i,
        {
            tags.push(self.tags[i].clone());
            i = i + 1;
        }
        TradableItem {
            wfm_id: self.wfm_id.clone(),
            wfm_url_name: self.wfm_url_name.clone(),
            name: self.name.clone(),
            max_rank: self.max_rank,
            tags,
        }
    }
}

/// One price-statistics record of the cache, per item and order type.
#[derive(Debug)]
pub struct ItemPriceInfo {
    pub url_name: String,
    pub order_type: PriceOrderKind,
    pub volume: i64,
    pub range: i64,
    pub avg_price: Platinum,
    pub moving_avg: Option<Platinum>,
    pub week_price_shift: i64,
    pub mod_rank: Option<i64>,
}

impl Clone for ItemPriceInfo {
    fn clone(&self) -> (r: Self)
        ensures
            r.url_name@ == self.url_name@,
            r.order_type == self.order_type,
            r.volume == self.volume,
            r.range == self.range,
            r.avg_price == self.avg_price,
            r.moving_avg == self.moving_avg,
            r.week_price_shift == self.week_price_shift,
            r.mod_rank == self.mod_rank,
    {
        ItemPriceInfo {
            url_name: self.url_name.clone(),
            order_type: self.order_type,
            volume: self.volume,
            range: self.range,
            avg_price: self.avg_price,
            moving_avg: self.moving_avg,
            week_price_shift: self.week_price_shift,
            mod_rank: self.mod_rank,
        }
    }
}

/// The account behind an order, as the remote marketplace reports it.
#[derive(Debug)]
pub struct OrderUser {
    pub id: String,
    pub ingame_name: String,
}

impl Clone for OrderUser {
    fn clone(&self) -> (r: Self)
        ensures
            r.id@ == self.id@,
            r.ingame_name@ == self.ingame_name@,
    {
        OrderUser { id: self.id.clone(), ingame_name: self.ingame_name.clone() }
    }
}

/// One order of the remote marketplace, either the operator's own or a
/// competitor's.
#[derive(Debug)]
pub struct Order {
    pub id: String,
    pub item_url: String,
    pub sub_type: Option<SubType>,
    pub order_type: OrderType,
    pub platinum: Platinum,
    pub quantity: i64,
    pub visible: bool,
    pub user: Option<OrderUser>,
    pub closed_avg: Option<Platinum>,
    pub profit: Option<Platinum>,
}

/// Field-by-field equivalence of two orders, with strings compared by view.
pub open spec fn order_eqv(a: Order, b: Order) -> bool {
    &&& a.id@ == b.id@
    &&& a.item_url@ == b.item_url@
    &&& opt_sub_type_eqv(a.sub_type, b.sub_type)
    &&& a.order_type == b.order_type
    &&& a.platinum == b.platinum
    &&& a.quantity == b.quantity
    &&& a.visible == b.visible
    &&& match (a.user, b.user) {
        (Option::None, Option::None) => true,
        (Option::Some(x), Option::Some(y)) => x.id@ == y.id@ && x.ingame_name@ == y.ingame_name@,
        _ => false,
    }
    &&& a.closed_avg == b.closed_avg
    &&& a.profit == b.profit
}

impl Clone for Order {
    fn clone(&self) -> (r: Self)
        ensures
            order_eqv(r, *self),
    {
        Order {
            id: self.id.clone(),
            item_url: self.item_url.clone(),
            sub_type: clone_opt_sub_type(&self.sub_type),
            order_type: self.order_type,
            platinum: self.platinum,
            quantity: self.quantity,
            visible: self.visible,
            user: match &self.user {
                Option::Some(u) => Option::Some(u.clone()),
                Option::None => Option::None,
            },
            closed_avg: self.closed_avg,
            profit: self.profit,
        }
    }
}

/// The stock-item settings of the pricing loop for one cycle.
#[derive(Debug)]
pub struct Settings {
    pub order_mode: OrderMode,
    pub blacklist: Vec<String>,
    pub whitelist: Vec<String>,
    pub strict_whitelist: bool,
    pub volume_threshold: i64,
    pub range_threshold: i64,
    pub avg_price_cap: Platinum,
    pub max_total_price_cap: Platinum,
    pub price_shift_threshold: i64,
    pub min_sma: i64,
    pub min_profit: i64,
    pub stock_mode: String,
}

/// Whether a sequence of strings contains one with the given view.
pub open spec fn seq_contains_string(v: Seq<String>, s: Seq<char>) -> bool {
    exists|i: int| 0 <= i < v.len() && v[i]@ == s
}

/// Executable membership test of a string in a vector of strings.
pub fn vec_contains_string(v: &Vec<String>, s: &String) -> (r: bool)
    ensures
        r == seq_contains_string(v@, s@),
{
    let mut i: usize = 0;
    while i < v.len()
        invariant
            i <= v@.len(),
            forall|j: int| 0 <= j < i as int ==> v@[j]@ != s@,
        decreases v@.len() - i,
    {
        if v[i].eq(s) {
            return true;
        }
        i = i + 1;
    }
    false
}

} // verus!
