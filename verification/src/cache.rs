//! The cache layer: an in-memory, queryable view of the item catalog and its
//! price statistics, its lazily materialized sub-modules, and the decision
//! logic of its bootstrap. Reading and writing the on-disk mirror is left to
//! the surrounding program; the snapshot validation and the refresh rules
//! live here.

use vstd::prelude::*;

use crate::types::{ErrorKind, ItemPriceInfo, TradableItem};

verus! {

/// One riven item of the catalog.
#[derive(Debug)]
pub struct RivenTypeInfo {
    pub wfm_url_name: String,
    pub name: String,
}

impl Clone for RivenTypeInfo {
    fn clone(&self) -> (r: Self)
        ensures
            r.wfm_url_name@ == self.wfm_url_name@,
            r.name@ == self.name@,
    {
        RivenTypeInfo { wfm_url_name: self.wfm_url_name.clone(), name: self.name.clone() }
    }
}

/// One riven attribute of the catalog.
#[derive(Debug)]
pub struct RivenAttributeInfo {
    pub url_name: String,
    pub effect: String,
}

impl Clone for RivenAttributeInfo {
    fn clone(&self) -> (r: Self)
        ensures
            r.url_name@ == self.url_name@,
            r.effect@ == self.effect@,
    {
        RivenAttributeInfo { url_name: self.url_name.clone(), effect: self.effect.clone() }
    }
}

/// View-level equality of two catalog-entry sequences.
pub open spec fn items_eqv(a: Seq<TradableItem>, b: Seq<TradableItem>) -> bool {
    a.len() == b.len() && forall|i: int| 0 <= i < a.len() ==> tradable_eqv(#[trigger] a[i], b[i])
}

/// View-level equality of two catalog entries.
pub open spec fn tradable_eqv(a: TradableItem, b: TradableItem) -> bool {
    &&& a.wfm_id@ == b.wfm_id@
    &&& a.wfm_url_name@ == b.wfm_url_name@
    &&& a.name@ == b.name@
    &&& a.max_rank == b.max_rank
    &&& crate::stock::strings_eqv(a.tags@, b.tags@)
}

/// View-level equality of two riven-item sequences.
pub open spec fn riven_items_eqv(a: Seq<RivenTypeInfo>, b: Seq<RivenTypeInfo>) -> bool {
    a.len() == b.len() && forall|i: int|
        0 <= i < a.len() ==> (#[trigger] a[i]).wfm_url_name@ == b[i].wfm_url_name@ && a[i].name@
            == b[i].name@
}

/// View-level equality of two riven-attribute sequences.
pub open spec fn riven_attrs_eqv(a: Seq<RivenAttributeInfo>, b: Seq<RivenAttributeInfo>) -> bool {
    a.len() == b.len() && forall|i: int|
        0 <= i < a.len() ==> (#[trigger] a[i]).url_name@ == b[i].url_name@ && a[i].effect@
            == b[i].effect@
}

/// Clone a vector of catalog entries element by element.
#[verifier::loop_isolation(false)]
pub fn clone_items(v: &Vec<TradableItem>) -> (r: Vec<TradableItem>)
    ensures
        items_eqv(r@, v@),
{
    let mut out: Vec<TradableItem> = Vec::new();
    let mut i: usize = 0;
    while i < v.len()
        invariant
            i <= v@.len(),
            out@.len() == i,
            forall|j: int| 0 <= j < i as int ==> tradable_eqv(#[trigger] out@[j], v@[j]),
        decreases v@.len() - i,
    {
        out.push(v[i].clone());
        i = i + 1;
    }
    out
}

/// Clone a vector of riven items element by element.
#[verifier::loop_isolation(false)]
pub fn clone_riven_items(v: &Vec<RivenTypeInfo>) -> (r: Vec<RivenTypeInfo>)
    ensures
        riven_items_eqv(r@, v@),
{
    let mut out: Vec<RivenTypeInfo> = Vec::new();
    let mut i: usize = 0;
    while i < v.len()
        invariant
            i <= v@.len(),
            out@.len() == i,
            forall|j: int|
                0 <= j < i as int ==> (#[trigger] out@[j]).wfm_url_name@ == v@[j].wfm_url_name@
                    && out@[j].name@ == v@[j].name@,
        decreases v@.len() - i,
    {
        out.push(v[i].clone());
        i = i + 1;
    }
    out
}

/// Clone a vector of riven attributes element by element.
#[verifier::loop_isolation(false)]
pub fn clone_riven_attrs(v: &Vec<RivenAttributeInfo>) -> (r: Vec<RivenAttributeInfo>)
    ensures
        riven_attrs_eqv(r@, v@),
{
    let mut out: Vec<RivenAttributeInfo> = Vec::new();
    let mut i: usize = 0;
    while i < v.len()
        invariant
            i <= v@.len(),
            out@.len() == i,
            forall|j: int|
                0 <= j < i as int ==> (#[trigger] out@[j]).url_name@ == v@[j].url_name@
                    && out@[j].effect@ == v@[j].effect@,
        decreases v@.len() - i,
    {
        out.push(v[i].clone());
        i = i + 1;
    }
    out
}

/// Clone a vector of price-statistics records element by element.
#[verifier::loop_isolation(false)]
pub fn clone_price_infos(v: &Vec<ItemPriceInfo>) -> (r: Vec<ItemPriceInfo>)
    ensures
        price_infos_eqv(r@, v@),
{
    let mut out: Vec<ItemPriceInfo> = Vec::new();
    let mut i: usize = 0;
    while i < v.len()
        invariant
            i <= v@.len(),
            out@.len() == i,
            forall|j: int| 0 <= j < i as int ==> price_info_eqv(#[trigger] out@[j], v@[j]),
        decreases v@.len() - i,
    {
        out.push(v[i].clone());
        i = i + 1;
    }
    out
}

/// View-level equality of two price-statistics records.
pub open spec fn price_info_eqv(a: ItemPriceInfo, b: ItemPriceInfo) -> bool {
    &&& a.url_name@ == b.url_name@
    &&& a.order_type == b.order_type
    &&& a.volume == b.volume
    &&& a.range == b.range
    &&& a.avg_price == b.avg_price
    &&& a.moving_avg == b.moving_avg
    &&& a.week_price_shift == b.week_price_shift
    &&& a.mod_rank == b.mod_rank
}

/// View-level equality of two price-statistics sequences.
pub open spec fn price_infos_eqv(a: Seq<ItemPriceInfo>, b: Seq<ItemPriceInfo>) -> bool {
    a.len() == b.len() && forall|i: int| 0 <= i < a.len() ==> price_info_eqv(#[trigger] a[i], b[i])
}

/// The item section of the in-memory cache data.
#[derive(Debug)]
pub struct CacheDataItemStruct {
    pub items: Vec<TradableItem>,
}

/// The riven section of the in-memory cache data.
#[derive(Debug)]
pub struct CacheDataRivenStruct {
    pub items: Vec<RivenTypeInfo>,
    pub attributes: Vec<RivenAttributeInfo>,
}

/// The in-memory cache data: what the on-disk snapshot mirrors.
#[derive(Debug)]
pub struct CacheDataStruct {
    pub last_refresh: Option<String>,
    pub item: CacheDataItemStruct,
    pub riven: CacheDataRivenStruct,
}

/// View-level equality of two cache-data values, including the refresh
/// stamp.
pub open spec fn cache_data_eqv(a: CacheDataStruct, b: CacheDataStruct) -> bool {
    &&& crate::types::opt_string_eqv(a.last_refresh, b.last_refresh)
    &&& items_eqv(a.item.items@, b.item.items@)
    &&& riven_items_eqv(a.riven.items@, b.riven.items@)
    &&& riven_attrs_eqv(a.riven.attributes@, b.riven.attributes@)
}

impl Clone for CacheDataStruct {
    fn clone(&self) -> (r: Self)
        ensures
            cache_data_eqv(r, *self),
    {
        CacheDataStruct {
            last_refresh: match &self.last_refresh {
                Option::Some(s) => Option::Some(s.clone()),
                Option::None => Option::None,
            },
            item: CacheDataItemStruct { items: clone_items(&self.item.items) },
            riven: CacheDataRivenStruct {
                items: clone_riven_items(&self.riven.items),
                attributes: clone_riven_attrs(&self.riven.attributes),
            },
        }
    }
}

/// The item section of the snapshot as read from disk, before defaults are
/// filled.
#[derive(Debug)]
pub struct RawItemSection {
    pub items: Option<Vec<TradableItem>>,
}

/// The riven section of the snapshot as read from disk.
#[derive(Debug)]
pub struct RawRivenSection {
    pub items: Option<Vec<RivenTypeInfo>>,
    pub attributes: Option<Vec<RivenAttributeInfo>>,
}

/// The snapshot as read from disk: any part may be missing.
#[derive(Debug)]
pub struct RawSnapshot {
    pub last_refresh: Option<String>,
    pub item: Option<RawItemSection>,
    pub riven: Option<RawRivenSection>,
}

impl RawSnapshot {
    /// A snapshot is complete when every part the schema asks for is
    /// present.
    pub open spec fn complete(self) -> bool {
        &&& self.last_refresh is Some
        &&& self.item matches Option::Some(it) && it.items is Some
        &&& self.riven matches Option::Some(rv) && rv.items is Some && rv.attributes is Some
    }
}

/// Check a freshly parsed snapshot against the schema: missing `items` and
/// `attributes` lists are silently defaulted to empty and a missing refresh
/// stamp is replaced with the present instant, in each case reporting the
/// snapshot as invalid; a missing `item` or `riven` section is a local
/// decode error. The returned flag is true exactly when nothing was
/// missing.
pub fn validate_json(raw: RawSnapshot) -> (r: Result<(CacheDataStruct, bool), ErrorKind>)
    ensures
        r is Err <==> !(raw.item is Some && raw.riven is Some),
        r is Err ==> r == Result::<(CacheDataStruct, bool), ErrorKind>::Err(ErrorKind::DecodeLocal),
        r is Ok ==> ({
            let snap = r.unwrap().0;
            let valid = r.unwrap().1;
            &&& valid == raw.complete()
            &&& (raw.last_refresh is Some ==> snap.last_refresh == raw.last_refresh)
            &&& snap.last_refresh is Some
            &&& snap.item.items@ == (match raw.item.unwrap().items {
                Option::Some(v) => v@,
                Option::None => Seq::<TradableItem>::empty(),
            })
            &&& snap.riven.items@ == (match raw.riven.unwrap().items {
                Option::Some(v) => v@,
                Option::None => Seq::<RivenTypeInfo>::empty(),
            })
            &&& snap.riven.attributes@ == (match raw.riven.unwrap().attributes {
                Option::Some(v) => v@,
                Option::None => Seq::<RivenAttributeInfo>::empty(),
            })
        }),
{
    let RawSnapshot { last_refresh, item, riven } = raw;
    let item = match item {
        Option::Some(it) => it,
        Option::None => {
            return Result::Err(ErrorKind::DecodeLocal);
        },
    };
    let riven = match riven {
        Option::Some(rv) => rv,
        Option::None => {
            return Result::Err(ErrorKind::DecodeLocal);
        },
    };
    let mut valid = true;
    let stamp = match last_refresh {
        Option::Some(s) => Option::Some(s),
        Option::None => {
            valid = false;
            Option::Some(crate::clock::now_rfc3339())
        },
    };
    let items = match item.items {
        Option::Some(v) => v,
        Option::None => {
            valid = false;
            Vec::new()
        },
    };
    let riven_items = match riven.items {
        Option::Some(v) => v,
        Option::None => {
            valid = false;
            Vec::new()
        },
    };
    let riven_attrs = match riven.attributes {
        Option::Some(v) => v,
        Option::None => {
            valid = false;
            Vec::new()
        },
    };
    let snap = CacheDataStruct {
        last_refresh: stamp,
        item: CacheDataItemStruct { items },
        riven: CacheDataRivenStruct { items: riven_items, attributes: riven_attrs },
    };
    Result::Ok((snap, valid))
}

impl CacheDataStruct {
    /// An empty cache-data value, as held before any load.
    pub fn empty() -> (r: CacheDataStruct)
        ensures
            r.last_refresh is None,
            r.item.items@.len() == 0,
            r.riven.items@.len() == 0,
            r.riven.attributes@.len() == 0,
    {
        CacheDataStruct {
            last_refresh: Option::None,
            item: CacheDataItemStruct { items: Vec::new() },
            riven: CacheDataRivenStruct { items: Vec::new(), attributes: Vec::new() },
        }
    }

    /// The snapshot form of this value, with every part present.
    pub fn to_raw(&self) -> (r: RawSnapshot)
        requires
            self.last_refresh is Some,
        ensures
            r.complete(),
            r.last_refresh matches Option::Some(s) && s@ == self.last_refresh.unwrap()@,
            r.item.unwrap().items.unwrap()@.len() == self.item.items@.len(),
            items_eqv(r.item.unwrap().items.unwrap()@, self.item.items@),
            riven_items_eqv(r.riven.unwrap().items.unwrap()@, self.riven.items@),
            riven_attrs_eqv(r.riven.unwrap().attributes.unwrap()@, self.riven.attributes@),
    {
        let stamp = match &self.last_refresh {
            Option::Some(s) => s.clone(),
            Option::None => String::new(),
        };
        RawSnapshot {
            last_refresh: Option::Some(stamp),
            item: Option::Some(RawItemSection { items: Option::Some(clone_items(&self.item.items)) }),
            riven: Option::Some(
                RawRivenSection {
                    items: Option::Some(clone_riven_items(&self.riven.items)),
                    attributes: Option::Some(clone_riven_attrs(&self.riven.attributes)),
                },
            ),
        }
    }
}

/// Writing a snapshot out in full and checking it back in yields the same
/// value and reports it valid: the check's outcome is pinned by the two
/// contracts it composes, stated here over any pair of runs.
pub proof fn lemma_snapshot_roundtrip(
    s: CacheDataStruct,
    raw: RawSnapshot,
    out: Result<(CacheDataStruct, bool), ErrorKind>,
)
    requires
        s.last_refresh is Some,
        raw.complete(),
        raw.last_refresh matches Option::Some(st) && st@ == s.last_refresh.unwrap()@,
        items_eqv(raw.item.unwrap().items.unwrap()@, s.item.items@),
        riven_items_eqv(raw.riven.unwrap().items.unwrap()@, s.riven.items@),
        riven_attrs_eqv(raw.riven.unwrap().attributes.unwrap()@, s.riven.attributes@),
        out is Ok,
        ({
            let snap = out.unwrap().0;
            let valid = out.unwrap().1;
            &&& valid == raw.complete()
            &&& (raw.last_refresh is Some ==> snap.last_refresh == raw.last_refresh)
            &&& snap.item.items@ == raw.item.unwrap().items.unwrap()@
            &&& snap.riven.items@ == raw.riven.unwrap().items.unwrap()@
            &&& snap.riven.attributes@ == raw.riven.unwrap().attributes.unwrap()@
        }),
    ensures
        out.unwrap().1 == true,
        cache_data_eqv(out.unwrap().0, s),
{
}

/// The catalog sub-module of the cache.
#[derive(Debug)]
pub struct ItemModule {
    pub items: Vec<TradableItem>,
}

impl Clone for ItemModule {
    fn clone(&self) -> (r: Self)
        ensures
            items_eqv(r.items@, self.items@),
    {
        ItemModule { items: clone_items(&self.items) }
    }
}

impl ItemModule {
    /// An empty catalog module.
    pub fn new() -> (r: ItemModule)
        ensures
            r.items@.len() == 0,
    {
        ItemModule { items: Vec::new() }
    }

    /// The first catalog entry with the given URL, if any.
    #[verifier::loop_isolation(false)]
    pub fn find_type(&self, url: &String) -> (r: Option<TradableItem>)
        ensures
            match r {
                Option::None => forall|i: int|
                    0 <= i < self.items@.len() ==> (#[trigger] self.items@[i]).wfm_url_name@
                        != url@,
                Option::Some(it) => exists|i: int|
                    0 <= i < self.items@.len() && (#[trigger] self.items@[i]).wfm_url_name@ == url@
                        && tradable_eqv(it, self.items@[i]),
            },
    {
        let mut i: usize = 0;
        while i < self.items.len()
            invariant
                i <= self.items@.len(),
                forall|j: int|
                    0 <= j < i as int ==> (#[trigger] self.items@[j]).wfm_url_name@ != url@,
            decreases self.items@.len() - i,
        {
            if self.items[i].wfm_url_name.eq(url) {
                return Option::Some(self.items[i].clone());
            }
            i = i + 1;
        }
        Option::None
    }
}

/// The price-statistics sub-module of the cache.
#[derive(Debug)]
pub struct ItemPriceModule {
    pub items: Vec<ItemPriceInfo>,
}

impl Clone for ItemPriceModule {
    fn clone(&self) -> (r: Self)
        ensures
            price_infos_eqv(r.items@, self.items@),
    {
        ItemPriceModule { items: clone_price_infos(&self.items) }
    }
}

impl ItemPriceModule {
    /// An empty price-statistics module.
    pub fn new() -> (r: ItemPriceModule)
        ensures
            r.items@.len() == 0,
    {
        ItemPriceModule { items: Vec::new() }
    }

    /// Clones of all price-statistics records.
    pub fn get_items(&self) -> (r: Vec<ItemPriceInfo>)
        ensures
            price_infos_eqv(r@, self.items@),
    {
        clone_price_infos(&self.items)
    }
}

/// The riven sub-module of the cache.
#[derive(Debug)]
pub struct RivenModule {
    pub items: Vec<RivenTypeInfo>,
    pub attributes: Vec<RivenAttributeInfo>,
}

impl Clone for RivenModule {
    fn clone(&self) -> (r: Self)
        ensures
            riven_items_eqv(r.items@, self.items@),
            riven_attrs_eqv(r.attributes@, self.attributes@),
    {
        RivenModule {
            items: clone_riven_items(&self.items),
            attributes: clone_riven_attrs(&self.attributes),
        }
    }
}

impl RivenModule {
    /// An empty riven module.
    pub fn new() -> (r: RivenModule)
        ensures
            r.items@.len() == 0,
            r.attributes@.len() == 0,
    {
        RivenModule { items: Vec::new(), attributes: Vec::new() }
    }
}

/// The tradable-items sub-module of the cache.
#[derive(Debug)]
pub struct TradableItemModule {
    pub items: Vec<TradableItem>,
}

impl Clone for TradableItemModule {
    fn clone(&self) -> (r: Self)
        ensures
            items_eqv(r.items@, self.items@),
    {
        TradableItemModule { items: clone_items(&self.items) }
    }
}

impl TradableItemModule {
    /// An empty tradable-items module.
    pub fn new() -> (r: TradableItemModule)
        ensures
            r.items@.len() == 0,
    {
        TradableItemModule { items: Vec::new() }
    }

    /// The first tradable item with the given URL, if any.
    #[verifier::loop_isolation(false)]
    pub fn find_by_url_name(&self, url: &String) -> (r: Option<TradableItem>)
        ensures
            match r {
                Option::None => forall|i: int|
                    0 <= i < self.items@.len() ==> (#[trigger] self.items@[i]).wfm_url_name@
                        != url@,
                Option::Some(it) => exists|i: int|
                    0 <= i < self.items@.len() && (#[trigger] self.items@[i]).wfm_url_name@ == url@
                        && tradable_eqv(it, self.items@[i]),
            },
    {
        let mut i: usize = 0;
        while i < self.items.len()
            invariant
                i <= self.items@.len(),
                forall|j: int|
                    0 <= j < i as int ==> (#[trigger] self.items@[j]).wfm_url_name@ != url@,
            decreases self.items@.len() - i,
        {
            if self.items[i].wfm_url_name.eq(url) {
                return Option::Some(self.items[i].clone());
            }
            i = i + 1;
        }
        Option::None
    }
}

/// A per-category catalog sub-module; every weapon and equipment category
/// shares this shape.
#[derive(Debug)]
pub struct CategoryModule {
    pub items: Vec<TradableItem>,
}

impl Clone for CategoryModule {
    fn clone(&self) -> (r: Self)
        ensures
            items_eqv(r.items@, self.items@),
    {
        CategoryModule { items: clone_items(&self.items) }
    }
}

impl CategoryModule {
    /// An empty category module.
    pub fn new() -> (r: CategoryModule)
        ensures
            r.items@.len() == 0,
    {
        CategoryModule { items: Vec::new() }
    }
}


/// A decision of the bootstrap about the on-disk snapshot.
#[derive(Debug)]
pub enum SnapshotDecision {
    UseSnapshot(CacheDataStruct),
    RefreshAndPersist,
}

/// Which identity to adopt, and whether a download is due: a remote
/// identity that differs from the local one forces a re-download; an
/// unreachable remote degrades to the local cache.
pub fn cache_id_action(current: &String, remote: &Option<String>) -> (r: Option<String>)
    ensures
        match *remote {
            Option::None => r is None,
            Option::Some(id) => if id@ != current@ {
                r matches Option::Some(out) && out@ == id@
            } else {
                r is None
            },
        },
{
    match remote {
        Option::Some(id) => {
            if !id.eq(current) {
                Option::Some(id.clone())
            } else {
                Option::None
            }
        },
        Option::None => Option::None,
    }
}

/// What to do with the snapshot that was read back: use it only when it is
/// present, valid, and its refresh stamp parses to within 24 hours of now;
/// in every other case — missing, repaired, aged out, or an unreadable
/// stamp (`hours_since_refresh` is `None` then) — rebuild from the modules
/// and persist. A broken snapshot never surfaces as an error.
pub fn snapshot_disposition(
    found: Option<(CacheDataStruct, bool)>,
    hours_since_refresh: Option<i64>,
) -> (r: SnapshotDecision)
    ensures
        match found {
            Option::None => r is RefreshAndPersist,
            Option::Some((snap, valid)) => {
                if valid && snap.last_refresh is Some && (hours_since_refresh matches Option::Some(
                    h,
                ) && h < 24) {
                    r matches SnapshotDecision::UseSnapshot(s) && s == snap
                } else {
                    r is RefreshAndPersist
                }
            },
        },
{
    match found {
        Option::None => SnapshotDecision::RefreshAndPersist,
        Option::Some((snap, valid)) => {
            if !valid {
                return SnapshotDecision::RefreshAndPersist;
            }
            if snap.last_refresh.is_none() {
                return SnapshotDecision::RefreshAndPersist;
            }
            match hours_since_refresh {
                Option::None => SnapshotDecision::RefreshAndPersist,
                Option::Some(h) => {
                    if h < 24 {
                        SnapshotDecision::UseSnapshot(snap)
                    } else {
                        SnapshotDecision::RefreshAndPersist
                    }
                },
            }
        },
    }
}

/// The cache client: the shared cache data and one lazily materialized slot
/// per sub-module.
#[derive(Debug)]
pub struct CacheClient {
    pub cache_data: CacheDataStruct,
    pub component: String,
    pub md5_file: String,
    pub item_module: Option<ItemModule>,
    pub item_price_module: Option<ItemPriceModule>,
    pub riven_module: Option<RivenModule>,
    pub tradable_items_module: Option<TradableItemModule>,
    pub arcane_module: Option<CategoryModule>,
    pub warframe_module: Option<CategoryModule>,
    pub arch_gun_module: Option<CategoryModule>,
    pub arch_melee_module: Option<CategoryModule>,
    pub archwing_module: Option<CategoryModule>,
    pub melee_module: Option<CategoryModule>,
    pub mods_module: Option<CategoryModule>,
    pub primary_module: Option<CategoryModule>,
    pub secondary_module: Option<CategoryModule>,
    pub sentinel_module: Option<CategoryModule>,
    pub skin_module: Option<CategoryModule>,
    pub misc_module: Option<CategoryModule>,
    pub pet_module: Option<CategoryModule>,
    pub resource_module: Option<CategoryModule>,
    pub part_module: Option<CategoryModule>,
    pub fish_module: Option<CategoryModule>,
}

impl CacheClient {
    /// A fresh client: empty cache data, no sub-module materialized yet.
    pub fn new() -> (r: CacheClient)
        ensures
            r.cache_data.last_refresh is None,
            r.cache_data.item.items@.len() == 0,
            r.cache_data.riven.items@.len() == 0,
            r.cache_data.riven.attributes@.len() == 0,
            r.item_module is None,
            r.item_price_module is None,
            r.riven_module is None,
            r.tradable_items_module is None,
            r.arcane_module is None,
            r.warframe_module is None,
            r.arch_gun_module is None,
            r.arch_melee_module is None,
            r.archwing_module is None,
            r.melee_module is None,
            r.mods_module is None,
            r.primary_module is None,
            r.secondary_module is None,
            r.sentinel_module is None,
            r.skin_module is None,
            r.misc_module is None,
            r.pet_module is None,
            r.resource_module is None,
            r.part_module is None,
            r.fish_module is None,
    {
        CacheClient {
            cache_data: CacheDataStruct::empty(),
            component: "Cache".to_owned(),
            md5_file: "cache_id.txt".to_owned(),
            item_module: Option::None,
            item_price_module: Option::None,
            riven_module: Option::None,
            tradable_items_module: Option::None,
            arcane_module: Option::None,
            warframe_module: Option::None,
            arch_gun_module: Option::None,
            arch_melee_module: Option::None,
            archwing_module: Option::None,
            melee_module: Option::None,
            mods_module: Option::None,
            primary_module: Option::None,
            secondary_module: Option::None,
            sentinel_module: Option::None,
            skin_module: Option::None,
            misc_module: Option::None,
            pet_module: Option::None,
            resource_module: Option::None,
            part_module: Option::None,
            fish_module: Option::None,
        }
    }

    /// Stamp the shared cache data with the given refresh instant.
    pub fn set_last_refresh(&mut self, last_refresh: String)
        ensures
            *final(self) == (CacheClient {
                cache_data: CacheDataStruct {
                    last_refresh: Option::Some(last_refresh),
                    ..old(self).cache_data
                },
                ..*old(self)
            }),
    {
        self.cache_data.last_refresh = Option::Some(last_refresh);
    }

    /// The catalog sub-module, materialized on first access.
    pub fn item(&mut self) -> (m: ItemModule)
        ensures
            final(self).item_module is Some,
            *final(self) == (CacheClient { item_module: final(self).item_module, ..*old(self) }),
            old(self).item_module is Some ==> final(self).item_module == old(self).item_module,
            old(self).item_module is None ==> final(self).item_module.unwrap().items@.len() == 0,
            items_eqv(m.items@, final(self).item_module.unwrap().items@),
    {
        if self.item_module.is_none() {
            self.item_module = Option::Some(ItemModule::new());
        }
        match &self.item_module {
            Option::Some(m) => m.clone(),
            Option::None => ItemModule::new(),
        }
    }

    /// Replace the catalog sub-module.
    pub fn update_item_module(&mut self, module: ItemModule)
        ensures
            *final(self) == (CacheClient { item_module: Option::Some(module), ..*old(self) }),
    {
        self.item_module = Option::Some(module);
    }

    /// The price-statistics sub-module, materialized on first access.
    pub fn item_price(&mut self) -> (m: ItemPriceModule)
        ensures
            final(self).item_price_module is Some,
            *final(self) == (CacheClient { item_price_module: final(self).item_price_module, ..*old(self) }),
            old(self).item_price_module is Some ==> final(self).item_price_module == old(self).item_price_module,
            old(self).item_price_module is None ==> (final(self).item_price_module.unwrap().items@.len() == 0),
            price_infos_eqv(m.items@, final(self).item_price_module.unwrap().items@),
    {
        if self.item_price_module.is_none() {
            self.item_price_module = Option::Some(ItemPriceModule::new());
        }
        match &self.item_price_module {
            Option::Some(m) => m.clone(),
            Option::None => ItemPriceModule::new(),
        }
    }

    /// Replace the module behind `item_price`.
    pub fn update_item_price_module(&mut self, module: ItemPriceModule)
        ensures
            *final(self) == (CacheClient { item_price_module: Option::Some(module), ..*old(self) }),
    {
        self.item_price_module = Option::Some(module);
    }


    /// The riven sub-module, materialized on first access.
    pub fn riven(&mut self) -> (m: RivenModule)
        ensures
            final(self).riven_module is Some,
            *final(self) == (CacheClient { riven_module: final(self).riven_module, ..*old(self) }),
            old(self).riven_module is Some ==> final(self).riven_module == old(self).riven_module,
            old(self).riven_module is None ==> (final(self).riven_module.unwrap().items@.len() == 0 && final(self).riven_module.unwrap().attributes@.len() == 0),
            riven_items_eqv(m.items@, final(self).riven_module.unwrap().items@) && riven_attrs_eqv(m.attributes@, final(self).riven_module.unwrap().attributes@),
    {
        if self.riven_module.is_none() {
            self.riven_module = Option::Some(RivenModule::new());
        }
        match &self.riven_module {
            Option::Some(m) => m.clone(),
            Option::None => RivenModule::new(),
        }
    }

    /// Replace the module behind `riven`.
    pub fn update_riven_module(&mut self, module: RivenModule)
        ensures
            *final(self) == (CacheClient { riven_module: Option::Some(module), ..*old(self) }),
    {
        self.riven_module = Option::Some(module);
    }


    /// The tradable-items sub-module, materialized on first access.
    pub fn tradable_items(&mut self) -> (m: TradableItemModule)
        ensures
            final(self).tradable_items_module is Some,
            *final(self) == (CacheClient { tradable_items_module: final(self).tradable_items_module, ..*old(self) }),
            old(self).tradable_items_module is Some ==> final(self).tradable_items_module == old(self).tradable_items_module,
            old(self).tradable_items_module is None ==> (final(self).tradable_items_module.unwrap().items@.len() == 0),
            items_eqv(m.items@, final(self).tradable_items_module.unwrap().items@),
    {
        if self.tradable_items_module.is_none() {
            self.tradable_items_module = Option::Some(TradableItemModule::new());
        }
        match &self.tradable_items_module {
            Option::Some(m) => m.clone(),
            Option::None => TradableItemModule::new(),
        }
    }

    /// Replace the module behind `tradable_items`.
    pub fn update_tradable_items_module(&mut self, module: TradableItemModule)
        ensures
            *final(self) == (CacheClient { tradable_items_module: Option::Some(module), ..*old(self) }),
    {
        self.tradable_items_module = Option::Some(module);
    }


    /// The arcane category sub-module, materialized on first access.
    pub fn arcane(&mut self) -> (m: CategoryModule)
        ensures
            final(self).arcane_module is Some,
            *final(self) == (CacheClient { arcane_module: final(self).arcane_module, ..*old(self) }),
            old(self).arcane_module is Some ==> final(self).arcane_module == old(self).arcane_module,
            old(self).arcane_module is None ==> (final(self).arcane_module.unwrap().items@.len() == 0),
            items_eqv(m.items@, final(self).arcane_module.unwrap().items@),
    {
        if self.arcane_module.is_none() {
            self.arcane_module = Option::Some(CategoryModule::new());
        }
        match &self.arcane_module {
            Option::Some(m) => m.clone(),
            Option::None => CategoryModule::new(),
        }
    }

    /// Replace the module behind `arcane`.
    pub fn update_arcane_module(&mut self, module: CategoryModule)
        ensures
            *final(self) == (CacheClient { arcane_module: Option::Some(module), ..*old(self) }),
    {
        self.arcane_module = Option::Some(module);
    }


    /// The archwing-gun category sub-module, materialized on first access.
    pub fn arch_gun(&mut self) -> (m: CategoryModule)
        ensures
            final(self).arch_gun_module is Some,
            *final(self) == (CacheClient { arch_gun_module: final(self).arch_gun_module, ..*old(self) }),
            old(self).arch_gun_module is Some ==> final(self).arch_gun_module == old(self).arch_gun_module,
            old(self).arch_gun_module is None ==> (final(self).arch_gun_module.unwrap().items@.len() == 0),
            items_eqv(m.items@, final(self).arch_gun_module.unwrap().items@),
    {
        if self.arch_gun_module.is_none() {
            self.arch_gun_module = Option::Some(CategoryModule::new());
        }
        match &self.arch_gun_module {
            Option::Some(m) => m.clone(),
            Option::None => CategoryModule::new(),
        }
    }

    /// Replace the module behind `arch_gun`.
    pub fn update_arch_gun_module(&mut self, module: CategoryModule)
        ensures
            *final(self) == (CacheClient { arch_gun_module: Option::Some(module), ..*old(self) }),
    {
        self.arch_gun_module = Option::Some(module);
    }


    /// The archwing-melee category sub-module, materialized on first access.
    pub fn arch_melee(&mut self) -> (m: CategoryModule)
        ensures
            final(self).arch_melee_module is Some,
            *final(self) == (CacheClient { arch_melee_module: final(self).arch_melee_module, ..*old(self) }),
            old(self).arch_melee_module is Some ==> final(self).arch_melee_module == old(self).arch_melee_module,
            old(self).arch_melee_module is None ==> (final(self).arch_melee_module.unwrap().items@.len() == 0),
            items_eqv(m.items@, final(self).arch_melee_module.unwrap().items@),
    {
        if self.arch_melee_module.is_none() {
            self.arch_melee_module = Option::Some(CategoryModule::new());
        }
        match &self.arch_melee_module {
            Option::Some(m) => m.clone(),
            Option::None => CategoryModule::new(),
        }
    }

    /// Replace the module behind `arch_melee`.
    pub fn update_arch_melee_module(&mut self, module: CategoryModule)
        ensures
            *final(self) == (CacheClient { arch_melee_module: Option::Some(module), ..*old(self) }),
    {
        self.arch_melee_module = Option::Some(module);
    }


    /// The archwing category sub-module, materialized on first access.
    pub fn archwing(&mut self) -> (m: CategoryModule)
        ensures
            final(self).archwing_module is Some,
            *final(self) == (CacheClient { archwing_module: final(self).archwing_module, ..*old(self) }),
            old(self).archwing_module is Some ==> final(self).archwing_module == old(self).archwing_module,
            old(self).archwing_module is None ==> (final(self).archwing_module.unwrap().items@.len() == 0),
            items_eqv(m.items@, final(self).archwing_module.unwrap().items@),
    {
        if self.archwing_module.is_none() {
            self.archwing_module = Option::Some(CategoryModule::new());
        }
        match &self.archwing_module {
            Option::Some(m) => m.clone(),
            Option::None => CategoryModule::new(),
        }
    }

    /// Replace the module behind `archwing`.
    pub fn update_archwing_module(&mut self, module: CategoryModule)
        ensures
            *final(self) == (CacheClient { archwing_module: Option::Some(module), ..*old(self) }),
    {
        self.archwing_module = Option::Some(module);
    }


    /// The melee category sub-module, materialized on first access.
    pub fn melee(&mut self) -> (m: CategoryModule)
        ensures
            final(self).melee_module is Some,
            *final(self) == (CacheClient { melee_module: final(self).melee_module, ..*old(self) }),
            old(self).melee_module is Some ==> final(self).melee_module == old(self).melee_module,
            old(self).melee_module is None ==> (final(self).melee_module.unwrap().items@.len() == 0),
            items_eqv(m.items@, final(self).melee_module.unwrap().items@),
    {
        if self.melee_module.is_none() {
            self.melee_module = Option::Some(CategoryModule::new());
        }
        match &self.melee_module {
            Option::Some(m) => m.clone(),
            Option::None => CategoryModule::new(),
        }
    }

    /// Replace the module behind `melee`.
    pub fn update_melee_module(&mut self, module: CategoryModule)
        ensures
            *final(self) == (CacheClient { melee_module: Option::Some(module), ..*old(self) }),
    {
        self.melee_module = Option::Some(module);
    }


    /// The mod category sub-module, materialized on first access.
    pub fn mods(&mut self) -> (m: CategoryModule)
        ensures
            final(self).mods_module is Some,
            *final(self) == (CacheClient { mods_module: final(self).mods_module, ..*old(self) }),
            old(self).mods_module is Some ==> final(self).mods_module == old(self).mods_module,
            old(self).mods_module is None ==> (final(self).mods_module.unwrap().items@.len() == 0),
            items_eqv(m.items@, final(self).mods_module.unwrap().items@),
    {
        if self.mods_module.is_none() {
            self.mods_module = Option::Some(CategoryModule::new());
        }
        match &self.mods_module {
            Option::Some(m) => m.clone(),
            Option::None => CategoryModule::new(),
        }
    }

    /// Replace the module behind `mods`.
    pub fn update_mods_module(&mut self, module: CategoryModule)
        ensures
            *final(self) == (CacheClient { mods_module: Option::Some(module), ..*old(self) }),
    {
        self.mods_module = Option::Some(module);
    }


    /// The primary-weapon category sub-module, materialized on first access.
    pub fn primary(&mut self) -> (m: CategoryModule)
        ensures
            final(self).primary_module is Some,
            *final(self) == (CacheClient { primary_module: final(self).primary_module, ..*old(self) }),
            old(self).primary_module is Some ==> final(self).primary_module == old(self).primary_module,
            old(self).primary_module is None ==> (final(self).primary_module.unwrap().items@.len() == 0),
            items_eqv(m.items@, final(self).primary_module.unwrap().items@),
    {
        if self.primary_module.is_none() {
            self.primary_module = Option::Some(CategoryModule::new());
        }
        match &self.primary_module {
            Option::Some(m) => m.clone(),
            Option::None => CategoryModule::new(),
        }
    }

    /// Replace the module behind `primary`.
    pub fn update_primary_module(&mut self, module: CategoryModule)
        ensures
            *final(self) == (CacheClient { primary_module: Option::Some(module), ..*old(self) }),
    {
        self.primary_module = Option::Some(module);
    }


    /// The secondary-weapon category sub-module, materialized on first access.
    pub fn secondary(&mut self) -> (m: CategoryModule)
        ensures
            final(self).secondary_module is Some,
            *final(self) == (CacheClient { secondary_module: final(self).secondary_module, ..*old(self) }),
            old(self).secondary_module is Some ==> final(self).secondary_module == old(self).secondary_module,
            old(self).secondary_module is None ==> (final(self).secondary_module.unwrap().items@.len() == 0),
            items_eqv(m.items@, final(self).secondary_module.unwrap().items@),
    {
        if self.secondary_module.is_none() {
            self.secondary_module = Option::Some(CategoryModule::new());
        }
        match &self.secondary_module {
            Option::Some(m) => m.clone(),
            Option::None => CategoryModule::new(),
        }
    }

    /// Replace the module behind `secondary`.
    pub fn update_secondary_module(&mut self, module: CategoryModule)
        ensures
            *final(self) == (CacheClient { secondary_module: Option::Some(module), ..*old(self) }),
    {
        self.secondary_module = Option::Some(module);
    }


    /// The sentinel category sub-module, materialized on first access.
    pub fn sentinel(&mut self) -> (m: CategoryModule)
        ensures
            final(self).sentinel_module is Some,
            *final(self) == (CacheClient { sentinel_module: final(self).sentinel_module, ..*old(self) }),
            old(self).sentinel_module is Some ==> final(self).sentinel_module == old(self).sentinel_module,
            old(self).sentinel_module is None ==> (final(self).sentinel_module.unwrap().items@.len() == 0),
            items_eqv(m.items@, final(self).sentinel_module.unwrap().items@),
    {
        if self.sentinel_module.is_none() {
            self.sentinel_module = Option::Some(CategoryModule::new());
        }
        match &self.sentinel_module {
            Option::Some(m) => m.clone(),
            Option::None => CategoryModule::new(),
        }
    }

    /// Replace the module behind `sentinel`.
    pub fn update_sentinel_module(&mut self, module: CategoryModule)
        ensures
            *final(self) == (CacheClient { sentinel_module: Option::Some(module), ..*old(self) }),
    {
        self.sentinel_module = Option::Some(module);
    }


    /// The warframe category sub-module, materialized on first access.
    pub fn warframe(&mut self) -> (m: CategoryModule)
        ensures
            final(self).warframe_module is Some,
            *final(self) == (CacheClient { warframe_module: final(self).warframe_module, ..*old(self) }),
            old(self).warframe_module is Some ==> final(self).warframe_module == old(self).warframe_module,
            old(self).warframe_module is None ==> (final(self).warframe_module.unwrap().items@.len() == 0),
            items_eqv(m.items@, final(self).warframe_module.unwrap().items@),
    {
        if self.warframe_module.is_none() {
            self.warframe_module = Option::Some(CategoryModule::new());
        }
        match &self.warframe_module {
            Option::Some(m) => m.clone(),
            Option::None => CategoryModule::new(),
        }
    }

    /// Replace the module behind `warframe`.
    pub fn update_warframe_module(&mut self, module: CategoryModule)
        ensures
            *final(self) == (CacheClient { warframe_module: Option::Some(module), ..*old(self) }),
    {
        self.warframe_module = Option::Some(module);
    }


    /// The resource category sub-module, materialized on first access.
    pub fn resource(&mut self) -> (m: CategoryModule)
        ensures
            final(self).resource_module is Some,
            *final(self) == (CacheClient { resource_module: final(self).resource_module, ..*old(self) }),
            old(self).resource_module is Some ==> final(self).resource_module == old(self).resource_module,
            old(self).resource_module is None ==> (final(self).resource_module.unwrap().items@.len() == 0),
            items_eqv(m.items@, final(self).resource_module.unwrap().items@),
    {
        if self.resource_module.is_none() {
            self.resource_module = Option::Some(CategoryModule::new());
        }
        match &self.resource_module {
            Option::Some(m) => m.clone(),
            Option::None => CategoryModule::new(),
        }
    }

    /// Replace the module behind `resource`.
    pub fn update_resource_module(&mut self, module: CategoryModule)
        ensures
            *final(self) == (CacheClient { resource_module: Option::Some(module), ..*old(self) }),
    {
        self.resource_module = Option::Some(module);
    }


    /// The miscellaneous category sub-module, materialized on first access.
    pub fn misc(&mut self) -> (m: CategoryModule)
        ensures
            final(self).misc_module is Some,
            *final(self) == (CacheClient { misc_module: final(self).misc_module, ..*old(self) }),
            old(self).misc_module is Some ==> final(self).misc_module == old(self).misc_module,
            old(self).misc_module is None ==> (final(self).misc_module.unwrap().items@.len() == 0),
            items_eqv(m.items@, final(self).misc_module.unwrap().items@),
    {
        if self.misc_module.is_none() {
            self.misc_module = Option::Some(CategoryModule::new());
        }
        match &self.misc_module {
            Option::Some(m) => m.clone(),
            Option::None => CategoryModule::new(),
        }
    }

    /// Replace the module behind `misc`.
    pub fn update_misc_module(&mut self, module: CategoryModule)
        ensures
            *final(self) == (CacheClient { misc_module: Option::Some(module), ..*old(self) }),
    {
        self.misc_module = Option::Some(module);
    }


    /// The pet category sub-module, materialized on first access.
    pub fn pet(&mut self) -> (m: CategoryModule)
        ensures
            final(self).pet_module is Some,
            *final(self) == (CacheClient { pet_module: final(self).pet_module, ..*old(self) }),
            old(self).pet_module is Some ==> final(self).pet_module == old(self).pet_module,
            old(self).pet_module is None ==> (final(self).pet_module.unwrap().items@.len() == 0),
            items_eqv(m.items@, final(self).pet_module.unwrap().items@),
    {
        if self.pet_module.is_none() {
            self.pet_module = Option::Some(CategoryModule::new());
        }
        match &self.pet_module {
            Option::Some(m) => m.clone(),
            Option::None => CategoryModule::new(),
        }
    }

    /// Replace the module behind `pet`.
    pub fn update_pet_module(&mut self, module: CategoryModule)
        ensures
            *final(self) == (CacheClient { pet_module: Option::Some(module), ..*old(self) }),
    {
        self.pet_module = Option::Some(module);
    }


    /// The fish category sub-module, materialized on first access.
    pub fn fish(&mut self) -> (m: CategoryModule)
        ensures
            final(self).fish_module is Some,
            *final(self) == (CacheClient { fish_module: final(self).fish_module, ..*old(self) }),
            old(self).fish_module is Some ==> final(self).fish_module == old(self).fish_module,
            old(self).fish_module is None ==> (final(self).fish_module.unwrap().items@.len() == 0),
            items_eqv(m.items@, final(self).fish_module.unwrap().items@),
    {
        if self.fish_module.is_none() {
            self.fish_module = Option::Some(CategoryModule::new());
        }
        match &self.fish_module {
            Option::Some(m) => m.clone(),
            Option::None => CategoryModule::new(),
        }
    }

    /// Replace the module behind `fish`.
    pub fn update_fish_module(&mut self, module: CategoryModule)
        ensures
            *final(self) == (CacheClient { fish_module: Option::Some(module), ..*old(self) }),
    {
        self.fish_module = Option::Some(module);
    }


    /// The skin category sub-module, materialized on first access.
    pub fn skin(&mut self) -> (m: CategoryModule)
        ensures
            final(self).skin_module is Some,
            *final(self) == (CacheClient { skin_module: final(self).skin_module, ..*old(self) }),
            old(self).skin_module is Some ==> final(self).skin_module == old(self).skin_module,
            old(self).skin_module is None ==> (final(self).skin_module.unwrap().items@.len() == 0),
            items_eqv(m.items@, final(self).skin_module.unwrap().items@),
    {
        if self.skin_module.is_none() {
            self.skin_module = Option::Some(CategoryModule::new());
        }
        match &self.skin_module {
            Option::Some(m) => m.clone(),
            Option::None => CategoryModule::new(),
        }
    }

    /// Replace the module behind `skin`.
    pub fn update_skin_module(&mut self, module: CategoryModule)
        ensures
            *final(self) == (CacheClient { skin_module: Option::Some(module), ..*old(self) }),
    {
        self.skin_module = Option::Some(module);
    }


    /// The item-parts category sub-module, materialized on first access.
    pub fn parts(&mut self) -> (m: CategoryModule)
        ensures
            final(self).part_module is Some,
            *final(self) == (CacheClient { part_module: final(self).part_module, ..*old(self) }),
            old(self).part_module is Some ==> final(self).part_module == old(self).part_module,
            old(self).part_module is None ==> (final(self).part_module.unwrap().items@.len() == 0),
            items_eqv(m.items@, final(self).part_module.unwrap().items@),
    {
        if self.part_module.is_none() {
            self.part_module = Option::Some(CategoryModule::new());
        }
        match &self.part_module {
            Option::Some(m) => m.clone(),
            Option::None => CategoryModule::new(),
        }
    }

    /// Replace the module behind `parts`.
    pub fn update_part_module(&mut self, module: CategoryModule)
        ensures
            *final(self) == (CacheClient { part_module: Option::Some(module), ..*old(self) }),
    {
        self.part_module = Option::Some(module);
    }


    /// Re-derive the shared cache data from the catalog and riven
    /// sub-modules and stamp it with the present instant; returns a copy of
    /// the new value.
    pub fn refresh(&mut self) -> (r: CacheDataStruct)
        ensures
            final(self).item_module is Some,
            final(self).riven_module is Some,
            old(self).item_module is Some ==> final(self).item_module == old(self).item_module,
            old(self).riven_module is Some ==> final(self).riven_module == old(self).riven_module,
            *final(self) == (CacheClient {
                cache_data: final(self).cache_data,
                item_module: final(self).item_module,
                riven_module: final(self).riven_module,
                ..*old(self)
            }),
            final(self).cache_data.last_refresh is Some,
            items_eqv(
                final(self).cache_data.item.items@,
                final(self).item_module.unwrap().items@,
            ),
            riven_items_eqv(
                final(self).cache_data.riven.items@,
                final(self).riven_module.unwrap().items@,
            ),
            riven_attrs_eqv(
                final(self).cache_data.riven.attributes@,
                final(self).riven_module.unwrap().attributes@,
            ),
            cache_data_eqv(r, final(self).cache_data),
    {
        let im = self.item();
        let rm = self.riven();
        let stamp = crate::clock::now_rfc3339();
        self.cache_data = CacheDataStruct {
            last_refresh: Option::Some(stamp),
            item: CacheDataItemStruct { items: im.items },
            riven: CacheDataRivenStruct { items: rm.items, attributes: rm.attributes },
        };
        self.cache_data.clone()
    }
}

} // verus!
