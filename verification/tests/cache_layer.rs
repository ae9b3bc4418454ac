//! The cache layer: snapshot validation and its round trip, the bootstrap
//! decisions, and the lazily materialized sub-modules.

use wf_trader::cache::{
    cache_id_action, snapshot_disposition, validate_json, CacheClient, CacheDataItemStruct,
    CacheDataRivenStruct, CacheDataStruct, CategoryModule, ItemPriceModule, RawItemSection,
    RawRivenSection, RawSnapshot, SnapshotDecision,
};
use wf_trader::types::{ErrorKind, ItemPriceInfo, PriceOrderKind, TradableItem};

fn sample_item(url: &str) -> TradableItem {
    TradableItem {
        wfm_id: format!("id_{}", url),
        wfm_url_name: url.to_string(),
        name: url.to_string(),
        max_rank: Some(5),
        tags: vec!["mod".to_string()],
    }
}

fn sample_snapshot() -> CacheDataStruct {
    CacheDataStruct {
        last_refresh: Some("2024-05-01T10:00:00+00:00".to_string()),
        item: CacheDataItemStruct { items: vec![sample_item("a"), sample_item("b")] },
        riven: CacheDataRivenStruct { items: vec![], attributes: vec![] },
    }
}

#[test]
fn snapshot_round_trip_is_valid_and_equal() {
    // Writing a snapshot out in full and checking it back in yields the
    // same value, reported valid.
    let snap = sample_snapshot();
    let raw = snap.to_raw();
    let (back, valid) = validate_json(raw).unwrap();
    assert!(valid);
    assert_eq!(back.last_refresh, snap.last_refresh);
    assert_eq!(back.item.items.len(), 2);
    assert_eq!(back.item.items[0].wfm_url_name, "a");
    assert_eq!(back.item.items[1].wfm_url_name, "b");
    assert!(back.riven.items.is_empty());
    assert!(back.riven.attributes.is_empty());
}

#[test]
fn validate_json_defaults_missing_lists_and_reports_invalid() {
    let raw = RawSnapshot {
        last_refresh: Some("2024-05-01T10:00:00+00:00".to_string()),
        item: Some(RawItemSection { items: None }),
        riven: Some(RawRivenSection { items: None, attributes: None }),
    };
    let (snap, valid) = validate_json(raw).unwrap();
    assert!(!valid);
    assert!(snap.item.items.is_empty());
    assert!(snap.riven.items.is_empty());
    assert!(snap.riven.attributes.is_empty());
}

#[test]
fn validate_json_fills_missing_refresh_stamp() {
    let raw = RawSnapshot {
        last_refresh: None,
        item: Some(RawItemSection { items: Some(vec![]) }),
        riven: Some(RawRivenSection { items: Some(vec![]), attributes: Some(vec![]) }),
    };
    let (snap, valid) = validate_json(raw).unwrap();
    assert!(!valid);
    assert!(snap.last_refresh.is_some());
}

#[test]
fn validate_json_rejects_missing_sections() {
    let raw = RawSnapshot {
        last_refresh: Some("2024-05-01T10:00:00+00:00".to_string()),
        item: None,
        riven: Some(RawRivenSection { items: Some(vec![]), attributes: Some(vec![]) }),
    };
    assert_eq!(validate_json(raw).unwrap_err(), ErrorKind::DecodeLocal);
}

#[test]
fn cache_id_mismatch_forces_download() {
    let current = "abc".to_string();
    assert_eq!(cache_id_action(&current, &Some("def".to_string())), Some("def".to_string()));
    assert_eq!(cache_id_action(&current, &Some("abc".to_string())), None);
    // An unreachable remote degrades to the local cache.
    assert_eq!(cache_id_action(&current, &None), None);
}

#[test]
fn snapshot_disposition_uses_fresh_valid_snapshot() {
    let snap = sample_snapshot();
    match snapshot_disposition(Some((snap, true)), Some(3)) {
        SnapshotDecision::UseSnapshot(s) => {
            assert_eq!(s.item.items.len(), 2);
        }
        other => panic!("expected the snapshot to be used, got {:?}", other),
    }
}

#[test]
fn snapshot_disposition_refreshes_stale_or_repaired_snapshots() {
    let stale = snapshot_disposition(Some((sample_snapshot(), true)), Some(24));
    assert!(matches!(stale, SnapshotDecision::RefreshAndPersist));
    let repaired = snapshot_disposition(Some((sample_snapshot(), false)), Some(1));
    assert!(matches!(repaired, SnapshotDecision::RefreshAndPersist));
    let missing = snapshot_disposition(None, None);
    assert!(matches!(missing, SnapshotDecision::RefreshAndPersist));
}

#[test]
fn snapshot_disposition_rebuilds_on_unparseable_stamp() {
    // A refresh stamp that does not parse never surfaces as an error: the
    // snapshot is rebuilt instead.
    let r = snapshot_disposition(Some((sample_snapshot(), true)), None);
    assert!(matches!(r, SnapshotDecision::RefreshAndPersist));
}

#[test]
fn lazy_modules_materialize_once() {
    let mut client = CacheClient::new();
    assert!(client.arcane_module.is_none());
    let first = client.arcane();
    assert!(first.items.is_empty());
    assert!(client.arcane_module.is_some());
    client.update_arcane_module(CategoryModule { items: vec![sample_item("arc")] });
    let second = client.arcane();
    assert_eq!(second.items.len(), 1);
    assert_eq!(second.items[0].wfm_url_name, "arc");
}

#[test]
fn refresh_rebuilds_cache_data_from_modules() {
    let mut client = CacheClient::new();
    client.update_item_module(wf_trader::cache::ItemModule { items: vec![sample_item("a")] });
    let data = client.refresh();
    assert!(data.last_refresh.is_some());
    assert_eq!(data.item.items.len(), 1);
    assert_eq!(client.cache_data.item.items.len(), 1);
}

#[test]
fn set_last_refresh_stamps_cache_data() {
    let mut client = CacheClient::new();
    client.set_last_refresh("2024-05-01T10:00:00+00:00".to_string());
    assert_eq!(
        client.cache_data.last_refresh,
        Some("2024-05-01T10:00:00+00:00".to_string())
    );
}

#[test]
fn tradable_items_lookup_by_url() {
    let mut client = CacheClient::new();
    client.update_tradable_items_module(wf_trader::cache::TradableItemModule {
        items: vec![sample_item("a"), sample_item("b")],
    });
    let m = client.tradable_items();
    assert_eq!(m.find_by_url_name(&"b".to_string()).unwrap().wfm_id, "id_b");
    assert!(m.find_by_url_name(&"c".to_string()).is_none());
}

#[test]
fn item_price_module_hands_out_records() {
    let mut client = CacheClient::new();
    client.update_item_price_module(ItemPriceModule {
        items: vec![ItemPriceInfo {
            url_name: "a".to_string(),
            order_type: PriceOrderKind::Closed,
            volume: 10,
            range: 5,
            avg_price: 40,
            moving_avg: Some(42),
            week_price_shift: 1,
            mod_rank: None,
        }],
    });
    let items = client.item_price().get_items();
    assert_eq!(items.len(), 1);
    assert_eq!(items[0].avg_price, 40);
}
