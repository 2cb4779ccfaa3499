//! The storage aggregator: combines account-level billing figures with a
//! full per-repository scan of artifacts and cache entries into one
//! [`StorageUsageReport`].
//!
//! Every sub-fetch of the scan is allowed to fail; a failed fetch is
//! represented as `None` and skipped, never fatal. Byte totals saturate
//! at `u64::MAX` instead of overflowing.

use vstd::prelude::*;
use vstd::string::StringExecFns;
use crate::domain::{Artifact, ItemModel, StorageItem, StorageItemType, StorageUsageReport};
use crate::domain::{lemma_models_add, lemma_models_push, models_of};
use crate::sequences::lemma_take_one_more;
use crate::text::{lower_of, lowercase};

verus! {

/// Maximum storage of the free plan tier.
pub const FREE_TIER_MAX_BYTES: u64 = 500 * 1024 * 1024;

/// Maximum storage of the pro and team plan tiers, and the safe
/// overestimate used when the tier is unknown.
pub const PRO_TIER_MAX_BYTES: u64 = 2 * 1024 * 1024 * 1024;

/// Maximum storage of the enterprise plan tiers.
pub const ENTERPRISE_TIER_MAX_BYTES: u64 = 50 * 1024 * 1024 * 1024;

/// Bytes per gigabyte, for billing figures reported in gigabytes.
pub const BYTES_PER_GIGABYTE: u64 = 1024 * 1024 * 1024;

/// The account-level billing figures, decoded into plain optional fields;
/// a missing or malformed field is `None` and treated as absent.
#[derive(Debug, Clone, Copy, PartialEq, Eq, Structural)]
pub struct PersonalBilling {
    pub estimated_storage_for_month: Option<u64>,
}

/// One cache entry of a repository, decoded into plain optional fields.
/// Entries missing an id or a key are skipped by the aggregator.
#[derive(Debug, PartialEq, Eq)]
pub struct CacheEntry {
    pub id: Option<u64>,
    pub key: Option<String>,
    pub size_in_bytes: Option<u64>,
}

/// The scan results for one repository. A `None` list means the fetch
/// for that repository failed and is skipped for that repository only.
#[derive(Debug, PartialEq, Eq)]
pub struct RepoScan {
    pub owner: String,
    pub repo: String,
    pub artifacts: Option<Vec<Artifact>>,
    pub caches: Option<Vec<CacheEntry>>,
}

/// `x` clamped to the largest value a `u64` holds.
pub open spec fn spec_saturated(x: int) -> int {
    if x > u64::MAX {
        u64::MAX as int
    } else {
        x
    }
}

/// The plan-dependent maximum storage for a lowercased plan-tier name;
/// an unrecognized tier defaults to the pro tier's limit, a deliberate
/// safe overestimate.
pub open spec fn spec_plan_max(plan_lower: Seq<char>) -> u64 {
    if plan_lower == "free"@ {
        FREE_TIER_MAX_BYTES
    } else if plan_lower == "enterprise"@ || plan_lower == "enterprise_cloud"@ {
        ENTERPRISE_TIER_MAX_BYTES
    } else {
        PRO_TIER_MAX_BYTES
    }
}

/// Maximum storage inferred from the plan-tier name of the account, as
/// the upstream reports it (any capitalization).
pub fn plan_max_bytes(plan_name: &str) -> (r: u64)
    ensures
        r == spec_plan_max(lower_of(plan_name@)),
{
    let p: String = lowercase(plan_name);
    let free: String = "free".to_owned();
    let enterprise: String = "enterprise".to_owned();
    let enterprise_cloud: String = "enterprise_cloud".to_owned();
    if p == free {
        FREE_TIER_MAX_BYTES
    } else if p == enterprise || p == enterprise_cloud {
        ENTERPRISE_TIER_MAX_BYTES
    } else {
        PRO_TIER_MAX_BYTES
    }
}

/// The exact (unbounded) sum of the sizes of a sequence of items.
pub open spec fn spec_sum_sizes(s: Seq<StorageItem>) -> int
    decreases s.len(),
{
    if s.len() == 0 {
        0int
    } else {
        spec_sum_sizes(s.drop_last()) + s.last().size_in_bytes
    }
}

/// The sum of all scanned item sizes, saturating at `u64::MAX`.
pub fn sum_sizes(items: &Vec<StorageItem>) -> (r: u64)
    ensures
        r == spec_saturated(spec_sum_sizes(items@)),
{
    let mut acc: u64 = 0;
    let mut i: usize = 0;
    while i < items.len()
        invariant
            0 <= i <= items@.len(),
            acc == spec_saturated(spec_sum_sizes(items@.take(i as int))),
        decreases items@.len() - i,
    {
        proof {
            assert(items@.take(i + 1).drop_last() =~= items@.take(i as int));
            assert(items@.take(i + 1).last() == items@[i as int]);
            assert(spec_sum_sizes(items@.take(i as int)) >= 0) by {
                lemma_sum_sizes_nonneg(items@.take(i as int));
            }
        }
        acc = acc.saturating_add(items[i].size_in_bytes);
        i = i + 1;
    }
    proof {
        assert(items@.take(items@.len() as int) =~= items@);
    }
    acc
}

/// The exact sum of item sizes is never negative.
proof fn lemma_sum_sizes_nonneg(s: Seq<StorageItem>)
    ensures
        spec_sum_sizes(s) >= 0,
    decreases s.len(),
{
    if s.len() > 0 {
        lemma_sum_sizes_nonneg(s.drop_last());
    }
}

/// The billing-reported storage estimate in bytes: the gigabyte figure
/// scaled up, zero when the figure is absent, saturating at `u64::MAX`.
pub open spec fn spec_billing_bytes(billing: Option<PersonalBilling>) -> int {
    match billing {
        Some(b) => match b.estimated_storage_for_month {
            Some(gb) => spec_saturated(gb * BYTES_PER_GIGABYTE),
            None => 0int,
        },
        None => 0int,
    }
}

/// The combined billing figure: the personal estimate plus every
/// organization's reported usage, an absent figure contributing zero,
/// saturating at `u64::MAX`.
pub open spec fn spec_billing_total(
    billing: Option<PersonalBilling>,
    orgs: Seq<Option<u64>>,
) -> int
    decreases orgs.len(),
{
    if orgs.len() == 0 {
        spec_billing_bytes(billing)
    } else {
        spec_saturated(
            spec_billing_total(billing, orgs.drop_last()) + (match orgs.last() {
                Some(n) => n as int,
                None => 0int,
            }),
        )
    }
}

/// The billing-side usage total: the personal gigabyte estimate plus
/// every organization's reported byte usage. A `None` in `org_usages`
/// is an organization whose billing could not be read; it adds zero.
pub fn billing_total(billing: Option<PersonalBilling>, org_usages: &Vec<Option<u64>>) -> (r: u64)
    ensures
        r == spec_billing_total(billing, org_usages@),
{
    let mut acc: u64 = match billing {
        Some(b) => match b.estimated_storage_for_month {
            Some(gb) => match gb.checked_mul(BYTES_PER_GIGABYTE) {
                Some(v) => v,
                None => u64::MAX,
            },
            None => 0,
        },
        None => 0,
    };
    let mut i: usize = 0;
    while i < org_usages.len()
        invariant
            0 <= i <= org_usages@.len(),
            acc == spec_billing_total(billing, org_usages@.take(i as int)),
        decreases org_usages@.len() - i,
    {
        proof {
            assert(org_usages@.take(i + 1).drop_last() =~= org_usages@.take(i as int));
            assert(org_usages@.take(i + 1).last() == org_usages@[i as int]);
        }
        let add: u64 = match org_usages[i] {
            Some(n) => n,
            None => 0,
        };
        acc = acc.saturating_add(add);
        i = i + 1;
    }
    proof {
        assert(org_usages@.take(org_usages@.len() as int) =~= org_usages@);
    }
    acc
}

/// The plan maximum chosen by the aggregator: the account's plan tier
/// when that is known, and the pro tier's limit for a missing or
/// malformed plan — a deliberate safe overestimate, so that an unknown
/// tier never produces a false low-storage warning.
pub open spec fn spec_max_allowed(plan_name: Option<String>) -> u64 {
    match plan_name {
        Some(name) => spec_plan_max(lower_of(name@)),
        None => PRO_TIER_MAX_BYTES,
    }
}

/// The maximum bytes allowed by the account's plan, inferred as
/// [`spec_max_allowed`] describes.
pub fn max_allowed_bytes(plan_name: &Option<String>) -> (r: u64)
    ensures
        r == spec_max_allowed(*plan_name),
{
    match plan_name {
        Some(name) => plan_max_bytes(name.as_str()),
        None => PRO_TIER_MAX_BYTES,
    }
}

/// The storage item one artifact contributes to the scan.
pub open spec fn spec_artifact_item(owner: Seq<char>, repo: Seq<char>, a: Artifact) -> ItemModel {
    ItemModel {
        id: a.id,
        name: "Artifact: "@ + a.name@,
        owner: owner,
        repo: repo,
        size_in_bytes: a.size_in_bytes,
        item_type: StorageItemType::Artifact,
    }
}

/// The storage item one cache entry contributes, when the entry carries
/// both an id and a key; a missing size counts as zero.
pub open spec fn spec_cache_item(owner: Seq<char>, repo: Seq<char>, e: CacheEntry) -> Option<
    ItemModel,
> {
    match (e.id, e.key) {
        (Some(id), Some(key)) => Some(
            ItemModel {
                id: id,
                name: "Cache: "@ + key@,
                owner: owner,
                repo: repo,
                size_in_bytes: (match e.size_in_bytes {
                    Some(s) => s,
                    None => 0u64,
                }),
                item_type: StorageItemType::Cache,
            },
        ),
        _ => None,
    }
}

/// The items a list of artifacts contributes, in order.
pub open spec fn spec_artifact_items(owner: Seq<char>, repo: Seq<char>, arts: Seq<Artifact>) -> Seq<
    ItemModel,
>
    decreases arts.len(),
{
    if arts.len() == 0 {
        Seq::<ItemModel>::empty()
    } else {
        spec_artifact_items(owner, repo, arts.drop_last()).push(
            spec_artifact_item(owner, repo, arts.last()),
        )
    }
}

/// The items a list of cache entries contributes, in order, skipping
/// entries without an id or a key.
pub open spec fn spec_cache_items(owner: Seq<char>, repo: Seq<char>, entries: Seq<CacheEntry>) -> Seq<
    ItemModel,
>
    decreases entries.len(),
{
    if entries.len() == 0 {
        Seq::<ItemModel>::empty()
    } else {
        spec_cache_items(owner, repo, entries.drop_last()) + (match spec_cache_item(
            owner,
            repo,
            entries.last(),
        ) {
            Some(m) => seq![m],
            None => Seq::<ItemModel>::empty(),
        })
    }
}

/// The items one repository's scan contributes: its artifacts, then its
/// kept cache entries, each side empty when that fetch failed.
pub open spec fn spec_repo_items(s: RepoScan) -> Seq<ItemModel> {
    (match s.artifacts {
        Some(arts) => spec_artifact_items(s.owner@, s.repo@, arts@),
        None => Seq::<ItemModel>::empty(),
    }) + (match s.caches {
        Some(entries) => spec_cache_items(s.owner@, s.repo@, entries@),
        None => Seq::<ItemModel>::empty(),
    })
}

/// All items the scan contributes, repository by repository in order.
pub open spec fn spec_scan_items(scans: Seq<RepoScan>) -> Seq<ItemModel>
    decreases scans.len(),
{
    if scans.len() == 0 {
        Seq::<ItemModel>::empty()
    } else {
        spec_scan_items(scans.drop_last()) + spec_repo_items(scans.last())
    }
}

/// Appending one artifact appends exactly its item.
proof fn lemma_artifact_items_push(owner: Seq<char>, repo: Seq<char>, s: Seq<Artifact>, x: Artifact)
    ensures
        spec_artifact_items(owner, repo, s.push(x)) == spec_artifact_items(owner, repo, s).push(
            spec_artifact_item(owner, repo, x),
        ),
{
    assert(s.push(x).drop_last() =~= s);
    assert(s.push(x).last() == x);
}

/// Appending one cache entry appends its item when the entry is kept and
/// nothing otherwise.
proof fn lemma_cache_items_push(owner: Seq<char>, repo: Seq<char>, s: Seq<CacheEntry>, x: CacheEntry)
    ensures
        spec_cache_items(owner, repo, s.push(x)) == spec_cache_items(owner, repo, s) + (
        match spec_cache_item(owner, repo, x) {
            Some(m) => seq![m],
            None => Seq::<ItemModel>::empty(),
        }),
{
    assert(s.push(x).drop_last() =~= s);
    assert(s.push(x).last() == x);
}

/// The storage items for one repository's artifacts.
fn artifact_items(owner: &str, repo: &str, arts: &Vec<Artifact>) -> (r: Vec<StorageItem>)
    ensures
        models_of(r@) == spec_artifact_items(owner@, repo@, arts@),
{
    let mut out: Vec<StorageItem> = Vec::new();
    let mut i: usize = 0;
    while i < arts.len()
        invariant
            0 <= i <= arts@.len(),
            models_of(out@) == spec_artifact_items(owner@, repo@, arts@.take(i as int)),
        decreases arts@.len() - i,
    {
        let a = &arts[i];
        let name: String = "Artifact: ".to_owned().concat(a.name.as_str());
        let item = StorageItem {
            id: a.id,
            name: name,
            owner: owner.to_owned(),
            repo: repo.to_owned(),
            size_in_bytes: a.size_in_bytes,
            item_type: StorageItemType::Artifact,
        };
        proof {
            lemma_take_one_more(arts@, i as int);
            lemma_artifact_items_push(owner@, repo@, arts@.take(i as int), arts@[i as int]);
            lemma_models_push(out@, item);
            assert(item@ == spec_artifact_item(owner@, repo@, arts@[i as int]));
        }
        out.push(item);
        i = i + 1;
    }
    proof {
        assert(arts@.take(arts@.len() as int) =~= arts@);
    }
    out
}

/// The storage items for one repository's cache entries; entries missing
/// an id or a key are skipped.
fn cache_items(owner: &str, repo: &str, entries: &Vec<CacheEntry>) -> (r: Vec<StorageItem>)
    ensures
        models_of(r@) == spec_cache_items(owner@, repo@, entries@),
{
    let mut out: Vec<StorageItem> = Vec::new();
    let mut i: usize = 0;
    while i < entries.len()
        invariant
            0 <= i <= entries@.len(),
            models_of(out@) == spec_cache_items(owner@, repo@, entries@.take(i as int)),
        decreases entries@.len() - i,
    {
        let e = &entries[i];
        proof {
            lemma_take_one_more(entries@, i as int);
            lemma_cache_items_push(owner@, repo@, entries@.take(i as int), entries@[i as int]);
        }
        match (&e.id, &e.key) {
            (Some(id), Some(key)) => {
                let name: String = "Cache: ".to_owned().concat(key.as_str());
                let size: u64 = match e.size_in_bytes {
                    Some(s) => s,
                    None => 0,
                };
                let item = StorageItem {
                    id: *id,
                    name: name,
                    owner: owner.to_owned(),
                    repo: repo.to_owned(),
                    size_in_bytes: size,
                    item_type: StorageItemType::Cache,
                };
                proof {
                    lemma_models_push(out@, item);
                    assert(item@ == spec_cache_item(owner@, repo@, entries@[i as int]).unwrap());
                    assert(spec_cache_items(owner@, repo@, entries@.take(i + 1)) =~= spec_cache_items(
                        owner@,
                        repo@,
                        entries@.take(i as int),
                    ).push(item@));
                }
                out.push(item);
            },
            _ => {
                proof {
                    assert(spec_cache_item(owner@, repo@, entries@[i as int]) is None);
                    assert(spec_cache_items(owner@, repo@, entries@.take(i + 1)) =~= spec_cache_items(
                        owner@,
                        repo@,
                        entries@.take(i as int),
                    ));
                }
            },
        }
        i = i + 1;
    }
    proof {
        assert(entries@.take(entries@.len() as int) =~= entries@);
    }
    out
}

/// All storage items found by a per-repository scan, in scan order.
pub fn scan_items(scans: &Vec<RepoScan>) -> (r: Vec<StorageItem>)
    ensures
        models_of(r@) == spec_scan_items(scans@),
{
    let mut out: Vec<StorageItem> = Vec::new();
    let mut i: usize = 0;
    while i < scans.len()
        invariant
            0 <= i <= scans@.len(),
            models_of(out@) == spec_scan_items(scans@.take(i as int)),
        decreases scans@.len() - i,
    {
        let s = &scans[i];
        let mut seg: Vec<StorageItem> = match &s.artifacts {
            Some(arts) => artifact_items(s.owner.as_str(), s.repo.as_str(), arts),
            None => Vec::new(),
        };
        let mut cseg: Vec<StorageItem> = match &s.caches {
            Some(entries) => cache_items(s.owner.as_str(), s.repo.as_str(), entries),
            None => Vec::new(),
        };
        proof {
            assert(scans@.take(i + 1).drop_last() =~= scans@.take(i as int));
            assert(scans@.take(i + 1).last() == scans@[i as int]);
            lemma_models_add(seg@, cseg@);
            assert(models_of(seg@) + models_of(cseg@) =~= spec_repo_items(scans@[i as int]));
        }
        seg.append(&mut cseg);
        proof {
            lemma_models_add(out@, seg@);
            assert(spec_scan_items(scans@.take(i + 1)) =~= models_of(out@) + models_of(seg@));
        }
        out.append(&mut seg);
        i = i + 1;
    }
    proof {
        assert(scans@.take(scans@.len() as int) =~= scans@);
    }
    out
}

/// Bytes below which an item is hidden from the storage manager list.
pub const MIN_LISTED_ITEM_BYTES: u64 = 1024;

/// The items large enough to list in the storage manager, order kept.
pub open spec fn spec_visible_items(s: Seq<StorageItem>) -> Seq<StorageItem>
    decreases s.len(),
{
    if s.len() == 0 {
        Seq::<StorageItem>::empty()
    } else {
        let rest = spec_visible_items(s.drop_last());
        if s.last().size_in_bytes >= MIN_LISTED_ITEM_BYTES {
            rest.push(s.last())
        } else {
            rest
        }
    }
}

/// Item sizes never increase along the sequence.
pub open spec fn spec_sorted_size_desc(s: Seq<StorageItem>) -> bool {
    forall|i: int, j: int|
        0 <= i < j < s.len() ==> s[i].size_in_bytes >= s[j].size_in_bytes
}

/// Keeps exactly the items of at least [`MIN_LISTED_ITEM_BYTES`], in order.
pub fn visible_items(items: &Vec<StorageItem>) -> (r: Vec<StorageItem>)
    ensures
        r@ == spec_visible_items(items@),
{
    let mut out: Vec<StorageItem> = Vec::new();
    let mut i: usize = 0;
    while i < items.len()
        invariant
            0 <= i <= items@.len(),
            out@ == spec_visible_items(items@.take(i as int)),
        decreases items@.len() - i,
    {
        proof {
            lemma_take_one_more(items@, i as int);
            assert(items@.take(i + 1).drop_last() =~= items@.take(i as int));
        }
        if items[i].size_in_bytes >= MIN_LISTED_ITEM_BYTES {
            out.push(items[i].clone());
        }
        i = i + 1;
    }
    proof {
        assert(items@.take(items@.len() as int) =~= items@);
    }
    out
}

/// Sorts items by size, largest first. The result holds exactly the
/// given items.
pub fn sort_items_desc(items: Vec<StorageItem>) -> (r: Vec<StorageItem>)
    ensures
        r@.to_multiset() == items@.to_multiset(),
        spec_sorted_size_desc(r@),
        r@.len() == items@.len(),
{
    broadcast use vstd::seq_lib::group_to_multiset_ensures;
    broadcast use vstd::multiset::group_multiset_axioms;

    let mut rem = items;
    let mut out: Vec<StorageItem> = Vec::new();
    proof {
        assert(out@.to_multiset().add(rem@.to_multiset()) =~= items@.to_multiset());
    }
    while rem.len() > 0
        invariant
            out@.to_multiset().add(rem@.to_multiset()) == items@.to_multiset(),
            spec_sorted_size_desc(out@),
            forall|i: int, j: int|
                0 <= i < out@.len() && 0 <= j < rem@.len() ==> out@[i].size_in_bytes
                    >= rem@[j].size_in_bytes,
            out@.len() + rem@.len() == items@.len(),
        decreases rem@.len(),
    {
        let mut imax: usize = 0;
        let mut k: usize = 1;
        while k < rem.len()
            invariant
                0 < rem@.len(),
                0 <= imax < k <= rem@.len(),
                forall|t: int|
                    0 <= t < k ==> rem@[t].size_in_bytes <= rem@[imax as int].size_in_bytes,
            decreases rem@.len() - k,
        {
            if rem[k].size_in_bytes > rem[imax].size_in_bytes {
                imax = k;
            }
            k = k + 1;
        }
        let ghost old_rem = rem@;
        let ghost old_out = out@;
        let x = rem.remove(imax);
        proof {
            vstd::seq_lib::to_multiset_remove(old_rem, imax as int);
            vstd::seq_lib::to_multiset_build(old_out, x);
            assert(old_rem.contains(x)) by {
                assert(old_rem[imax as int] == x);
            }
            vstd::seq_lib::to_multiset_contains(old_rem, x);
            assert(old_rem.to_multiset().count(x) > 0);
            assert(old_out.to_multiset().insert(x).add(old_rem.to_multiset().remove(x))
                =~= old_out.to_multiset().add(old_rem.to_multiset()));
        }
        out.push(x);
    }
    proof {
        assert(out@.to_multiset().add(rem@.to_multiset()) =~= out@.to_multiset());
    }
    out
}

/// The storage manager's working list: the report's items of listable
/// size, sorted largest first.
pub fn manageable_items(items: &Vec<StorageItem>) -> (r: Vec<StorageItem>)
    ensures
        r@.to_multiset() == spec_visible_items(items@).to_multiset(),
        spec_sorted_size_desc(r@),
        r@.len() == spec_visible_items(items@).len(),
{
    let kept = visible_items(items);
    sort_items_desc(kept)
}

/// The final used figure: the billing-derived total reconciled against
/// the scanned total by taking the larger of the two, since billing may
/// lag behind or include categories the scan does not enumerate.
pub open spec fn spec_total_used(billing_total: u64, scanned_total: u64) -> u64 {
    if billing_total >= scanned_total {
        billing_total
    } else {
        scanned_total
    }
}

/// Builds the storage-usage report from the decoded billing figures, the
/// account's plan-tier name when known, the organizations' reported
/// usages, and the per-repository scan.
pub fn build_storage_report(
    billing: Option<PersonalBilling>,
    plan_name: Option<String>,
    org_usages: Vec<Option<u64>>,
    scans: Vec<RepoScan>,
) -> (r: StorageUsageReport)
    ensures
        models_of(r.items@) == spec_scan_items(scans@),
        r.max_allowed == spec_max_allowed(plan_name),
        r.total_used == spec_total_used(
            spec_billing_total(billing, org_usages@) as u64,
            spec_saturated(spec_sum_sizes(r.items@)) as u64,
        ),
{
    let from_billing: u64 = billing_total(billing, &org_usages);
    let max_allowed: u64 = max_allowed_bytes(&plan_name);
    let items: Vec<StorageItem> = scan_items(&scans);
    let scanned: u64 = sum_sizes(&items);
    let total_used: u64 = if from_billing >= scanned {
        from_billing
    } else {
        scanned
    };
    StorageUsageReport { total_used, max_allowed, items }
}

} // verus!
