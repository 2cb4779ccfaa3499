use gh_tui::domain::{Artifact, StorageItem, StorageItemType};
use gh_tui::render::{gauge_band, get_spinner, usage_percent, GaugeBand};
use gh_tui::storage::{
    build_storage_report, manageable_items, plan_max_bytes, sum_sizes, CacheEntry,
    PersonalBilling, RepoScan, ENTERPRISE_TIER_MAX_BYTES, FREE_TIER_MAX_BYTES,
    PRO_TIER_MAX_BYTES,
};

const MB: u64 = 1024 * 1024;

fn artifact(id: u64, name: &str, size: u64) -> Artifact {
    Artifact {
        id,
        node_id: String::new(),
        name: name.to_string(),
        size_in_bytes: size,
        url: String::new(),
        archive_download_url: String::new(),
        expired: false,
        created_at: 0,
        expires_at: 0,
        workflow_run_id: None,
        repository_name: String::new(),
        repository_owner: String::new(),
    }
}

fn scan(owner: &str, repo: &str, artifacts: Option<Vec<Artifact>>, caches: Option<Vec<CacheEntry>>) -> RepoScan {
    RepoScan {
        owner: owner.to_string(),
        repo: repo.to_string(),
        artifacts,
        caches,
    }
}

#[test]
fn total_used_is_max_of_billing_and_scan() {
    let scans = vec![scan("o", "r", Some(vec![artifact(1, "big", 150 * MB)]), None)];
    let report = build_storage_report(None, None, vec![Some(100 * MB)], scans);
    assert_eq!(report.total_used, 150 * MB);
}

#[test]
fn total_used_keeps_larger_billing_figure() {
    let scans = vec![scan("o", "r", Some(vec![artifact(1, "big", 150 * MB)]), None)];
    let report = build_storage_report(None, None, vec![Some(200 * MB)], scans);
    assert_eq!(report.total_used, 200 * MB);
}

#[test]
fn plan_tiers_map_to_their_limits() {
    assert_eq!(plan_max_bytes("free"), FREE_TIER_MAX_BYTES);
    assert_eq!(plan_max_bytes("Free"), FREE_TIER_MAX_BYTES);
    assert_eq!(plan_max_bytes("pro"), PRO_TIER_MAX_BYTES);
    assert_eq!(plan_max_bytes("team"), PRO_TIER_MAX_BYTES);
    assert_eq!(plan_max_bytes("enterprise"), ENTERPRISE_TIER_MAX_BYTES);
    assert_eq!(plan_max_bytes("ENTERPRISE_CLOUD"), ENTERPRISE_TIER_MAX_BYTES);
    assert_eq!(plan_max_bytes("something_else"), PRO_TIER_MAX_BYTES);
}

#[test]
fn unknown_plan_defaults_to_pro_limit() {
    let report = build_storage_report(None, None, vec![], vec![]);
    assert_eq!(report.max_allowed, PRO_TIER_MAX_BYTES);
}

#[test]
fn missing_plan_defaults_to_pro_even_with_billing() {
    let billing = Some(PersonalBilling { estimated_storage_for_month: Some(1) });
    let report = build_storage_report(billing, None, vec![], vec![]);
    assert_eq!(report.max_allowed, PRO_TIER_MAX_BYTES);
}

#[test]
fn plan_name_sets_the_tier_limit() {
    let billing = Some(PersonalBilling { estimated_storage_for_month: None });
    let report = build_storage_report(billing, Some("enterprise".to_string()), vec![], vec![]);
    assert_eq!(report.max_allowed, ENTERPRISE_TIER_MAX_BYTES);
    let free = build_storage_report(None, Some("Free".to_string()), vec![], vec![]);
    assert_eq!(free.max_allowed, FREE_TIER_MAX_BYTES);
}

#[test]
fn billing_estimate_counts_in_gigabytes() {
    let billing = Some(PersonalBilling { estimated_storage_for_month: Some(3) });
    let report = build_storage_report(billing, None, vec![], vec![]);
    assert_eq!(report.total_used, 3 * 1024 * MB);
}

#[test]
fn failed_org_billing_contributes_zero() {
    let report = build_storage_report(None, None, vec![None, Some(5 * MB), None], vec![]);
    assert_eq!(report.total_used, 5 * MB);
}

#[test]
fn cache_entries_without_id_or_key_are_skipped() {
    let caches = vec![
        CacheEntry { id: None, key: Some("lost".to_string()), size_in_bytes: Some(9999) },
        CacheEntry { id: Some(7), key: None, size_in_bytes: Some(9999) },
        CacheEntry { id: Some(8), key: Some("deps".to_string()), size_in_bytes: Some(2048) },
        CacheEntry { id: Some(9), key: Some("nosize".to_string()), size_in_bytes: None },
    ];
    let report = build_storage_report(None, None, vec![], vec![scan("o", "r", None, Some(caches))]);
    assert_eq!(report.items.len(), 2);
    assert_eq!(report.items[0].name, "Cache: deps");
    assert_eq!(report.items[0].size_in_bytes, 2048);
    assert_eq!(report.items[0].item_type, StorageItemType::Cache);
    assert_eq!(report.items[1].name, "Cache: nosize");
    assert_eq!(report.items[1].size_in_bytes, 0);
}

#[test]
fn artifacts_become_tagged_items_with_repo_identity() {
    let scans = vec![scan("me", "proj", Some(vec![artifact(42, "bundle", 5 * MB)]), None)];
    let report = build_storage_report(None, None, vec![], scans);
    assert_eq!(report.items.len(), 1);
    assert_eq!(report.items[0].id, 42);
    assert_eq!(report.items[0].name, "Artifact: bundle");
    assert_eq!(report.items[0].owner, "me");
    assert_eq!(report.items[0].repo, "proj");
    assert_eq!(report.items[0].item_type, StorageItemType::Artifact);
}

#[test]
fn failed_repo_fetches_are_skipped_not_fatal() {
    let scans = vec![
        scan("o", "ok", Some(vec![artifact(1, "a", 2 * MB)]), None),
        scan("o", "broken", None, None),
    ];
    let report = build_storage_report(None, None, vec![], scans);
    assert_eq!(report.items.len(), 1);
    assert_eq!(report.items[0].name, "Artifact: a");
}

#[test]
fn manageable_items_hide_small_ones_and_sort_descending() {
    let items = vec![
        StorageItem {
            id: 1,
            name: "small".to_string(),
            owner: "o".to_string(),
            repo: "r".to_string(),
            size_in_bytes: 512,
            item_type: StorageItemType::Cache,
        },
        StorageItem {
            id: 2,
            name: "mid".to_string(),
            owner: "o".to_string(),
            repo: "r".to_string(),
            size_in_bytes: 2048,
            item_type: StorageItemType::Artifact,
        },
        StorageItem {
            id: 3,
            name: "large".to_string(),
            owner: "o".to_string(),
            repo: "r".to_string(),
            size_in_bytes: 8192,
            item_type: StorageItemType::Cache,
        },
    ];
    let sorted = manageable_items(&items);
    assert_eq!(sorted.len(), 2);
    assert_eq!(sorted[0].id, 3);
    assert_eq!(sorted[1].id, 2);
}

#[test]
fn sum_sizes_adds_every_item() {
    let items = vec![
        StorageItem {
            id: 1,
            name: "a".to_string(),
            owner: "o".to_string(),
            repo: "r".to_string(),
            size_in_bytes: 100,
            item_type: StorageItemType::Artifact,
        },
        StorageItem {
            id: 2,
            name: "b".to_string(),
            owner: "o".to_string(),
            repo: "r".to_string(),
            size_in_bytes: 250,
            item_type: StorageItemType::Cache,
        },
    ];
    assert_eq!(sum_sizes(&items), 350);
}

#[test]
fn usage_percent_is_exact_and_capped() {
    assert_eq!(usage_percent(150 * MB, 200 * MB), 75);
    assert_eq!(usage_percent(0, 200 * MB), 0);
    assert_eq!(usage_percent(300 * MB, 200 * MB), 100);
    assert_eq!(usage_percent(5, 0), 0);
}

#[test]
fn gauge_bands_change_at_seventy_and_ninety() {
    assert_eq!(gauge_band(50), GaugeBand::Normal);
    assert_eq!(gauge_band(70), GaugeBand::Normal);
    assert_eq!(gauge_band(71), GaugeBand::Warning);
    assert_eq!(gauge_band(90), GaugeBand::Warning);
    assert_eq!(gauge_band(91), GaugeBand::Critical);
}

#[test]
fn spinner_frames_cycle() {
    assert_eq!(get_spinner(0), "⠋");
    assert_eq!(get_spinner(7), "⠧");
    assert_eq!(get_spinner(0), get_spinner(8));
    assert_eq!(get_spinner(3), get_spinner(11));
    assert_ne!(get_spinner(0), get_spinner(1));
}
