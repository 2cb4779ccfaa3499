//! Artifact use cases: age-based selection for bulk deletion, the
//! partial-failure-tolerant aggregation of per-repository artifact
//! lists, and the dispatch of batch deletions by item type.

use vstd::prelude::*;
use crate::domain::{Artifact, ItemModel, StorageItem, StorageItemType};
use crate::domain::spec_is_older_than;
use crate::sequences::lemma_take_one_more;
use crate::time::now_unix_seconds;

verus! {

/// The artifacts at least `days` days old at time `now`, order kept.
pub open spec fn spec_older_than(arts: Seq<Artifact>, now: i64, days: i64) -> Seq<Artifact>
    decreases arts.len(),
{
    if arts.len() == 0 {
        Seq::<Artifact>::empty()
    } else {
        let rest = spec_older_than(arts.drop_last(), now, days);
        if spec_is_older_than(arts.last().created_at, now, days) {
            rest.push(arts.last())
        } else {
            rest
        }
    }
}

/// Selects exactly the artifacts at least `days` days old at time
/// `now_s`, in their given order: the set a bulk age-based deletion
/// deletes and returns.
pub fn select_older_than(arts: &Vec<Artifact>, now_s: i64, days: i64) -> (r: Vec<Artifact>)
    ensures
        r@ == spec_older_than(arts@, now_s, days),
{
    let mut out: Vec<Artifact> = Vec::new();
    let mut i: usize = 0;
    while i < arts.len()
        invariant
            0 <= i <= arts@.len(),
            out@ == spec_older_than(arts@.take(i as int), now_s, days),
        decreases arts@.len() - i,
    {
        proof {
            lemma_take_one_more(arts@, i as int);
            assert(arts@.take(i + 1).drop_last() =~= arts@.take(i as int));
        }
        if arts[i].is_older_than_at(now_s, days) {
            out.push(arts[i].clone());
        }
        i = i + 1;
    }
    proof {
        assert(arts@.take(arts@.len() as int) =~= arts@);
    }
    out
}

/// Like [`select_older_than`], against the clock: ages are measured
/// from the moment of the call.
pub fn select_older_than_now(arts: &Vec<Artifact>, days: i64) -> (r: Vec<Artifact>)
    ensures
        exists|now: i64| r@ == spec_older_than(arts@, now, days),
{
    let now_s: i64 = now_unix_seconds();
    select_older_than(arts, now_s, days)
}

/// The concatenation of the successfully fetched artifact lists, in
/// order; a `None` is a repository whose fetch failed and contributes
/// nothing.
pub open spec fn spec_collected(results: Seq<Option<Vec<Artifact>>>) -> Seq<Artifact>
    decreases results.len(),
{
    if results.len() == 0 {
        Seq::<Artifact>::empty()
    } else {
        spec_collected(results.drop_last()) + (match results.last() {
            Some(v) => v@,
            None => Seq::<Artifact>::empty(),
        })
    }
}

/// Gathers the artifacts of every repository whose fetch succeeded,
/// silently skipping repositories whose fetch failed: partial results
/// are preferred over total failure for a cross-repository scan.
pub fn collect_artifact_lists(results: &Vec<Option<Vec<Artifact>>>) -> (r: Vec<Artifact>)
    ensures
        r@ == spec_collected(results@),
{
    let mut out: Vec<Artifact> = Vec::new();
    let mut i: usize = 0;
    while i < results.len()
        invariant
            0 <= i <= results@.len(),
            out@ == spec_collected(results@.take(i as int)),
        decreases results@.len() - i,
    {
        proof {
            lemma_take_one_more(results@, i as int);
            assert(results@.take(i + 1).drop_last() =~= results@.take(i as int));
        }
        match &results[i] {
            Some(v) => {
                let mut j: usize = 0;
                while j < v.len()
                    invariant
                        0 <= j <= v@.len(),
                        out@ == spec_collected(results@.take(i as int)) + v@.take(j as int),
                    decreases v@.len() - j,
                {
                    proof {
                        lemma_take_one_more(v@, j as int);
                    }
                    out.push(v[j].clone());
                    j = j + 1;
                }
                proof {
                    assert(v@.take(v@.len() as int) =~= v@);
                }
            },
            None => {
                proof {
                    assert(out@ =~= spec_collected(results@.take(i as int))
                        + Seq::<Artifact>::empty());
                }
            },
        }
        i = i + 1;
    }
    proof {
        assert(results@.take(results@.len() as int) =~= results@);
    }
    out
}

/// One deletion the storage manager's batch delete dispatches: an
/// artifact deletion or a cache deletion, each carrying the owning
/// repository and the item's id.
#[derive(Debug, PartialEq, Eq)]
pub enum DeleteRequest {
    Artifact { owner: String, repo: String, id: u64 },
    Cache { owner: String, repo: String, id: u64 },
}

/// Whether `r` is the deletion dispatched for item `it`: the request
/// kind follows the item's type tag, and it names the item's
/// repository and id.
pub open spec fn spec_is_request_for(r: DeleteRequest, it: ItemModel) -> bool {
    match r {
        DeleteRequest::Artifact { owner, repo, id } => {
            &&& it.item_type == StorageItemType::Artifact
            &&& owner@ == it.owner
            &&& repo@ == it.repo
            &&& id == it.id
        },
        DeleteRequest::Cache { owner, repo, id } => {
            &&& it.item_type == StorageItemType::Cache
            &&& owner@ == it.owner
            &&& repo@ == it.repo
            &&& id == it.id
        },
    }
}

/// The items a selection of indices picks out of a list, in selection
/// order; indices out of range pick nothing.
pub open spec fn spec_selected_items(items: Seq<StorageItem>, sel: Seq<usize>) -> Seq<StorageItem>
    decreases sel.len(),
{
    if sel.len() == 0 {
        Seq::<StorageItem>::empty()
    } else {
        let rest = spec_selected_items(items, sel.drop_last());
        if sel.last() < items.len() {
            rest.push(items[sel.last() as int])
        } else {
            rest
        }
    }
}

/// The deletions a batch delete dispatches for the given selection: one
/// per selected item, in selection order, each routed to the artifact
/// or the cache deletion by the item's type tag.
pub fn delete_requests(items: &Vec<StorageItem>, selected: &Vec<usize>) -> (r: Vec<DeleteRequest>)
    ensures
        r@.len() == spec_selected_items(items@, selected@).len(),
        forall|j: int|
            0 <= j < r@.len() ==> spec_is_request_for(
                r@[j],
                #[trigger] spec_selected_items(items@, selected@)[j]@,
            ),
{
    let mut out: Vec<DeleteRequest> = Vec::new();
    let mut i: usize = 0;
    while i < selected.len()
        invariant
            0 <= i <= selected@.len(),
            out@.len() == spec_selected_items(items@, selected@.take(i as int)).len(),
            forall|j: int|
                0 <= j < out@.len() ==> spec_is_request_for(
                    out@[j],
                    #[trigger] spec_selected_items(items@, selected@.take(i as int))[j]@,
                ),
        decreases selected@.len() - i,
    {
        proof {
            lemma_take_one_more(selected@, i as int);
            assert(selected@.take(i + 1).drop_last() =~= selected@.take(i as int));
        }
        let idx = selected[i];
        if idx < items.len() {
            let it = &items[idx];
            let req = match it.item_type {
                StorageItemType::Artifact => DeleteRequest::Artifact {
                    owner: it.owner.clone(),
                    repo: it.repo.clone(),
                    id: it.id,
                },
                StorageItemType::Cache => DeleteRequest::Cache {
                    owner: it.owner.clone(),
                    repo: it.repo.clone(),
                    id: it.id,
                },
            };
            out.push(req);
        }
        i = i + 1;
    }
    proof {
        assert(selected@.take(selected@.len() as int) =~= selected@);
    }
    out
}

} // verus!
