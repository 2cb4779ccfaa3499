//! The domain data model: repositories, CI artifacts, and the unified
//! storage items that the storage manager lists and deletes.
//!
//! Timestamps are unix seconds. The transport layer converts its own
//! date-time values to and from these plain integers.

use vstd::prelude::*;

verus! {

/// Seconds in one day, for artifact-age arithmetic.
pub const SECONDS_PER_DAY: u64 = 86400;

/// A repository of the hosting account, immutable once fetched and
/// replaced wholesale on refresh.
#[derive(Debug, PartialEq, Eq)]
pub struct Repository {
    pub id: u64,
    pub name: String,
    pub full_name: String,
    pub owner: String,
    pub description: Option<String>,
    pub private: bool,
    pub fork: bool,
    pub url: String,
    pub html_url: String,
    pub language: Option<String>,
    pub stargazers_count: u32,
    pub watchers_count: u32,
    pub forks_count: u32,
    pub open_issues_count: u32,
    pub default_branch: String,
    pub archived: bool,
    pub created_at: i64,
    pub updated_at: i64,
    pub pushed_at: Option<i64>,
}

impl Clone for Repository {
    fn clone(&self) -> (r: Self)
        ensures
            r == *self,
    {
        Repository {
            id: self.id,
            name: self.name.clone(),
            full_name: self.full_name.clone(),
            owner: self.owner.clone(),
            description: clone_opt_string(&self.description),
            private: self.private,
            fork: self.fork,
            url: self.url.clone(),
            html_url: self.html_url.clone(),
            language: clone_opt_string(&self.language),
            stargazers_count: self.stargazers_count,
            watchers_count: self.watchers_count,
            forks_count: self.forks_count,
            open_issues_count: self.open_issues_count,
            default_branch: self.default_branch.clone(),
            archived: self.archived,
            created_at: self.created_at,
            updated_at: self.updated_at,
            pushed_at: self.pushed_at,
        }
    }
}

impl Default for Repository {
    /// An all-empty repository record: every count zero, every string
    /// empty, every optional field absent, every flag off.
    fn default() -> (r: Repository)
        ensures
            r.id == 0,
            r.name@ == Seq::<char>::empty(),
            r.full_name@ == Seq::<char>::empty(),
            r.owner@ == Seq::<char>::empty(),
            r.description is None,
            r.private == false,
            r.fork == false,
            r.url@ == Seq::<char>::empty(),
            r.html_url@ == Seq::<char>::empty(),
            r.language is None,
            r.stargazers_count == 0,
            r.watchers_count == 0,
            r.forks_count == 0,
            r.open_issues_count == 0,
            r.default_branch@ == Seq::<char>::empty(),
            r.archived == false,
            r.created_at == 0,
            r.updated_at == 0,
            r.pushed_at is None,
    {
        Repository {
            id: 0,
            name: String::new(),
            full_name: String::new(),
            owner: String::new(),
            description: None,
            private: false,
            fork: false,
            url: String::new(),
            html_url: String::new(),
            language: None,
            stargazers_count: 0,
            watchers_count: 0,
            forks_count: 0,
            open_issues_count: 0,
            default_branch: String::new(),
            archived: false,
            created_at: 0,
            updated_at: 0,
            pushed_at: None,
        }
    }
}

fn clone_opt_string(s: &Option<String>) -> (r: Option<String>)
    ensures
        r == *s,
{
    match s {
        Some(x) => Some(x.clone()),
        None => None,
    }
}

/// A CI build output retained temporarily by the hosting platform.
/// The owning repository is denormalized onto the record because
/// artifacts are aggregated across repositories.
#[derive(Debug, PartialEq, Eq)]
pub struct Artifact {
    pub id: u64,
    pub node_id: String,
    pub name: String,
    pub size_in_bytes: u64,
    pub url: String,
    pub archive_download_url: String,
    pub expired: bool,
    pub created_at: i64,
    pub expires_at: i64,
    pub workflow_run_id: Option<u64>,
    pub repository_name: String,
    pub repository_owner: String,
}

impl Clone for Artifact {
    fn clone(&self) -> (r: Self)
        ensures
            r == *self,
    {
        Artifact {
            id: self.id,
            node_id: self.node_id.clone(),
            name: self.name.clone(),
            size_in_bytes: self.size_in_bytes,
            url: self.url.clone(),
            archive_download_url: self.archive_download_url.clone(),
            expired: self.expired,
            created_at: self.created_at,
            expires_at: self.expires_at,
            workflow_run_id: self.workflow_run_id,
            repository_name: self.repository_name.clone(),
            repository_owner: self.repository_owner.clone(),
        }
    }
}

/// The number of whole days elapsed from `created` to `now`, truncated
/// toward zero; negative when `created` lies in the future.
pub open spec fn spec_days_elapsed(created: i64, now: i64) -> int {
    let diff = now - created;
    if diff >= 0 {
        diff / (SECONDS_PER_DAY as int)
    } else {
        -((-diff) / (SECONDS_PER_DAY as int))
    }
}

/// Whether an artifact created at `created` counts as at least `days`
/// days old at time `now`.
pub open spec fn spec_is_older_than(created: i64, now: i64, days: i64) -> bool {
    spec_days_elapsed(created, now) >= days
}

impl Artifact {
    /// Whether this artifact is at least `days` days old at time `now_s`
    /// (unix seconds).
    pub fn is_older_than_at(&self, now_s: i64, days: i64) -> (r: bool)
        ensures
            r == spec_is_older_than(self.created_at, now_s, days),
    {
        if now_s >= self.created_at {
            let diff: u64 = ((now_s as i128) - (self.created_at as i128)) as u64;
            let elapsed: u64 = diff / 86400;
            if days < 0 {
                true
            } else {
                elapsed >= (days as u64)
            }
        } else {
            let diff: u64 = ((self.created_at as i128) - (now_s as i128)) as u64;
            let behind: u64 = diff / 86400;
            if days > 0 {
                false
            } else {
                let bound: u64 = (-(days as i128)) as u64;
                behind <= bound
            }
        }
    }

    /// Whether this artifact is at least `days` days old right now;
    /// ages are measured from the moment of the call.
    pub fn is_older_than(&self, days: i64) -> (r: bool)
        ensures
            exists|now: i64| r == spec_is_older_than(self.created_at, now, days),
    {
        let now_s: i64 = crate::time::now_unix_seconds();
        let r = self.is_older_than_at(now_s, days);
        proof {
            assert(r == spec_is_older_than(self.created_at, now_s, days));
        }
        r
    }
}

/// Whether a listed storage item is a CI artifact or a CI cache entry.
#[derive(Debug, Clone, Copy, PartialEq, Eq, Structural)]
pub enum StorageItemType {
    Artifact,
    Cache,
}

/// The mathematical model of a [`StorageItem`]: the same record with its
/// strings abstracted to character sequences.
pub ghost struct ItemModel {
    pub id: u64,
    pub name: Seq<char>,
    pub owner: Seq<char>,
    pub repo: Seq<char>,
    pub size_in_bytes: u64,
    pub item_type: StorageItemType,
}

/// The unified, display-facing representation of either an artifact or a
/// cache entry, for aggregate listing and deletion.
#[derive(Debug, PartialEq, Eq)]
pub struct StorageItem {
    pub id: u64,
    pub name: String,
    pub owner: String,
    pub repo: String,
    pub size_in_bytes: u64,
    pub item_type: StorageItemType,
}

impl View for StorageItem {
    type V = ItemModel;

    open spec fn view(&self) -> ItemModel {
        ItemModel {
            id: self.id,
            name: self.name@,
            owner: self.owner@,
            repo: self.repo@,
            size_in_bytes: self.size_in_bytes,
            item_type: self.item_type,
        }
    }
}

/// The models of a sequence of storage items, element by element.
pub open spec fn models_of(s: Seq<StorageItem>) -> Seq<ItemModel> {
    s.map_values(|it: StorageItem| it@)
}

/// Taking models distributes over pushing one element.
pub proof fn lemma_models_push(s: Seq<StorageItem>, x: StorageItem)
    ensures
        models_of(s.push(x)) == models_of(s).push(x@),
{
    assert(models_of(s.push(x)) =~= models_of(s).push(x@));
}

/// Taking models distributes over concatenation.
pub proof fn lemma_models_add(a: Seq<StorageItem>, b: Seq<StorageItem>)
    ensures
        models_of(a + b) == models_of(a) + models_of(b),
{
    assert(models_of(a + b) =~= models_of(a) + models_of(b));
}

impl Clone for StorageItem {
    fn clone(&self) -> (r: Self)
        ensures
            r == *self,
    {
        StorageItem {
            id: self.id,
            name: self.name.clone(),
            owner: self.owner.clone(),
            repo: self.repo.clone(),
            size_in_bytes: self.size_in_bytes,
            item_type: self.item_type,
        }
    }
}

/// The account's storage usage: total bytes used, the plan-dependent
/// maximum, and the scanned items the total was derived from.
#[derive(Debug, PartialEq, Eq)]
pub struct StorageUsageReport {
    pub total_used: u64,
    pub max_allowed: u64,
    pub items: Vec<StorageItem>,
}

/// The authenticated account's profile.
#[derive(Debug, PartialEq, Eq)]
pub struct User {
    pub id: u64,
    pub login: String,
    pub name: Option<String>,
    pub email: Option<String>,
    pub avatar_url: String,
    pub bio: Option<String>,
    pub company: Option<String>,
    pub location: Option<String>,
    pub public_repos: u32,
    pub followers: u32,
    pub following: u32,
}

} // verus!
