//! The application state machine: all UI-relevant mutable state, with
//! the invariants the views rely on — the selection index stays inside
//! the active list, and the multi-select set only ever holds valid,
//! distinct indices into the current storage-item list.
//!
//! Methods here mutate state only; no I/O happens in this module. The
//! asynchronous fetches a transition needs are returned to the caller
//! as [`Command`](crate::dispatch::Command) values by the dispatcher.

use vstd::prelude::*;
use vstd::view::View as _;
use crate::domain::{Artifact, Repository, StorageItem, StorageUsageReport};
use crate::menu::MenuItem;
use crate::sequences::lemma_take_one_more;
use crate::text::{lower_of, lowercase, seq_contains_sub, str_contains};

verus! {

/// The views of the interface; exactly one is current at any time.
#[derive(Debug, Clone, Copy, PartialEq, Eq, Structural)]
pub enum View {
    MainMenu,
    RepoList,
    RepoDetail,
    ArtifactList,
    StorageManager,
    AuthPrompt,
}

/// Whether keystrokes are commands or filter-text input; only the
/// repository list supports editing.
#[derive(Debug, Clone, Copy, PartialEq, Eq, Structural)]
pub enum InputMode {
    Normal,
    Editing,
}

/// The number of main-menu entries.
pub const MENU_LEN: usize = 3;

/// The live mutable aggregate of the interactive core.
pub struct App {
    pub should_quit: bool,
    pub current_view: View,
    pub input_mode: InputMode,
    pub repos: Vec<Repository>,
    pub artifacts: Vec<Artifact>,
    pub storage_items: Vec<StorageItem>,
    pub storage_report: Option<StorageUsageReport>,
    pub selected_index: usize,
    pub menu_index: usize,
    pub selected_storage_items: Vec<usize>,
    pub loading: bool,
    pub loading_message: String,
    pub error_message: Option<String>,
    pub success_message: Option<String>,
    pub filter_text: String,
    pub authenticated: bool,
    pub tick: u64,
    pub pending_load: Option<MenuItem>,
}

/// Whether a repository matches a lowercased filter: its name or its
/// description contains the filter, case-insensitively.
pub open spec fn spec_repo_matches(r: Repository, filter_lower: Seq<char>) -> bool {
    ||| seq_contains_sub(lower_of(r.name@), filter_lower)
    ||| (r.description matches Some(d) && seq_contains_sub(lower_of(d@), filter_lower))
}

/// The repositories matching a lowercased filter, order preserved.
pub open spec fn spec_matching_repos(rs: Seq<Repository>, filter_lower: Seq<char>) -> Seq<
    Repository,
>
    decreases rs.len(),
{
    if rs.len() == 0 {
        Seq::<Repository>::empty()
    } else {
        let rest = spec_matching_repos(rs.drop_last(), filter_lower);
        if spec_repo_matches(rs.last(), filter_lower) {
            rest.push(rs.last())
        } else {
            rest
        }
    }
}

/// The filtered list is never longer than the full list.
pub proof fn lemma_matching_len(rs: Seq<Repository>, filter_lower: Seq<char>)
    ensures
        spec_matching_repos(rs, filter_lower).len() <= rs.len(),
    decreases rs.len(),
{
    if rs.len() > 0 {
        lemma_matching_len(rs.drop_last(), filter_lower);
    }
}

/// Whether an index is valid for a list of the given length: inside the
/// list, or zero when the list is empty.
pub open spec fn sel_ok(idx: int, len: int) -> bool {
    if len == 0 {
        idx == 0
    } else {
        idx < len
    }
}

/// No index occurs twice.
pub open spec fn spec_no_dups(s: Seq<usize>) -> bool {
    forall|i: int, j: int| 0 <= i < j < s.len() ==> s[i] != s[j]
}

/// `s` with every occurrence of `x` removed, order preserved.
pub open spec fn spec_remove_all(s: Seq<usize>, x: usize) -> Seq<usize>
    decreases s.len(),
{
    if s.len() == 0 {
        Seq::<usize>::empty()
    } else {
        let rest = spec_remove_all(s.drop_last(), x);
        if s.last() == x {
            rest
        } else {
            rest.push(s.last())
        }
    }
}

/// An element survives the removal exactly when it differs from the
/// removed index.
pub proof fn lemma_remove_all_membership(s: Seq<usize>, x: usize, y: usize)
    ensures
        spec_remove_all(s, x).contains(y) <==> (s.contains(y) && y != x),
    decreases s.len(),
{
    if s.len() > 0 {
        lemma_remove_all_membership(s.drop_last(), x, y);
        assert(s.contains(y) <==> (s.drop_last().contains(y) || s.last() == y)) by {
            if s.drop_last().contains(y) {
                let i = choose|i: int| 0 <= i < s.drop_last().len() && s.drop_last()[i] == y;
                assert(s[i] == y);
            }
            if s.contains(y) {
                let i = choose|i: int| 0 <= i < s.len() && s[i] == y;
                if i < s.len() - 1 {
                    assert(s.drop_last()[i] == y);
                }
            }
        }
        let rest = spec_remove_all(s.drop_last(), x);
        if s.last() != x {
            assert(rest.push(s.last()).contains(y) <==> (rest.contains(y) || s.last() == y)) by {
                assert(rest.push(s.last())[rest.len() as int] == s.last());
                if rest.contains(y) {
                    let i = choose|i: int| 0 <= i < rest.len() && rest[i] == y;
                    assert(rest.push(s.last())[i] == y);
                }
                if rest.push(s.last()).contains(y) {
                    let i = choose|i: int|
                        0 <= i < rest.push(s.last()).len() && rest.push(s.last())[i] == y;
                    if i < rest.len() {
                        assert(rest[i] == y);
                    }
                }
            }
        }
    }
}

/// Removing an index keeps the remaining indices distinct.
pub proof fn lemma_remove_all_no_dups(s: Seq<usize>, x: usize)
    requires
        spec_no_dups(s),
    ensures
        spec_no_dups(spec_remove_all(s, x)),
    decreases s.len(),
{
    if s.len() > 0 {
        assert(spec_no_dups(s.drop_last())) by {
            assert(forall|i: int, j: int|
                0 <= i < j < s.drop_last().len() ==> s.drop_last()[i] == s[i] && s.drop_last()[j]
                    == s[j]);
        }
        lemma_remove_all_no_dups(s.drop_last(), x);
        let rest = spec_remove_all(s.drop_last(), x);
        if s.last() != x {
            assert(!rest.contains(s.last())) by {
                lemma_remove_all_membership(s.drop_last(), x, s.last());
                if s.drop_last().contains(s.last()) {
                    let i = choose|i: int|
                        0 <= i < s.drop_last().len() && s.drop_last()[i] == s.last();
                    assert(s[i] == s[s.len() - 1]);
                }
            }
            assert(spec_no_dups(rest.push(s.last()))) by {
                assert(forall|i: int|
                    0 <= i < rest.len() ==> rest.push(s.last())[i] == rest[i]);
                assert(forall|i: int|
                    0 <= i < rest.len() && rest[i] == s.last() ==> rest.contains(rest[i]));
            }
        }
    }
}

/// Every index surviving the removal was already in `s`.
pub proof fn lemma_remove_all_bounds(s: Seq<usize>, x: usize, bound: int)
    requires
        forall|i: int| 0 <= i < s.len() ==> (s[i] as int) < bound,
    ensures
        forall|i: int|
            0 <= i < spec_remove_all(s, x).len() ==> (#[trigger] spec_remove_all(s, x)[i] as int)
                < bound,
    decreases s.len(),
{
    if s.len() > 0 {
        assert(forall|i: int| 0 <= i < s.drop_last().len() ==> (s.drop_last()[i] as int) < bound)
            by {
            assert(forall|i: int| 0 <= i < s.drop_last().len() ==> s.drop_last()[i] == s[i]);
        }
        lemma_remove_all_bounds(s.drop_last(), x, bound);
        let rest = spec_remove_all(s.drop_last(), x);
        if s.last() != x {
            assert(forall|i: int| 0 <= i < rest.len() ==> rest.push(s.last())[i] == rest[i]);
            assert(rest.push(s.last())[rest.len() as int] == s.last());
            assert((s.last() as int) < bound);
        }
    }
}

impl App {
    /// The repositories the current filter shows: all of them when the
    /// filter is empty, else the matching ones.
    pub open spec fn spec_filtered_repos(self) -> Seq<Repository> {
        if self.filter_text@.len() == 0 {
            self.repos@
        } else {
            spec_matching_repos(self.repos@, lower_of(self.filter_text@))
        }
    }

    /// The repository under the cursor in the filtered list, if any.
    pub open spec fn spec_selected_repo(self) -> Option<Repository> {
        if (self.selected_index as int) < self.spec_filtered_repos().len() {
            Some(self.spec_filtered_repos()[self.selected_index as int])
        } else {
            None
        }
    }

    /// The artifact under the cursor, if any.
    pub open spec fn spec_selected_artifact(self) -> Option<Artifact> {
        if (self.selected_index as int) < self.artifacts@.len() {
            Some(self.artifacts@[self.selected_index as int])
        } else {
            None
        }
    }

    /// The length of the list the selection index addresses in the
    /// current view.
    pub open spec fn spec_current_len(self) -> int {
        match self.current_view {
            View::MainMenu => MENU_LEN as int,
            View::RepoList => self.spec_filtered_repos().len() as int,
            View::ArtifactList => self.artifacts@.len() as int,
            View::StorageManager => self.storage_items@.len() as int,
            View::RepoDetail => 0,
            View::AuthPrompt => 0,
        }
    }

    /// The state invariant: the menu index addresses a menu entry, the
    /// selection index stays inside the view's list (or at zero when
    /// that list is empty), and the multi-select set holds only valid,
    /// distinct indices into the storage-item list.
    pub open spec fn wf(self) -> bool {
        &&& (self.menu_index as int) < MENU_LEN as int
        &&& (self.selected_index as int) < usize::MAX as int
        &&& match self.current_view {
            View::RepoList | View::RepoDetail => sel_ok(
                self.selected_index as int,
                self.spec_filtered_repos().len() as int,
            ),
            View::ArtifactList => sel_ok(self.selected_index as int, self.artifacts@.len() as int),
            View::StorageManager => sel_ok(
                self.selected_index as int,
                self.storage_items@.len() as int,
            ),
            View::MainMenu | View::AuthPrompt => true,
        }
        &&& forall|i: int|
            0 <= i < self.selected_storage_items@.len()
                ==> (#[trigger] self.selected_storage_items@[i] as int)
                < self.storage_items@.len()
        &&& spec_no_dups(self.selected_storage_items@)
    }

    /// A fresh application state: authenticated sessions start at the
    /// main menu, unauthenticated ones at the credential prompt; every
    /// list is empty, every index zero, no banner is shown.
    pub fn new(authenticated: bool) -> (r: App)
        ensures
            r.wf(),
            r.should_quit == false,
            r.current_view == (if authenticated {
                View::MainMenu
            } else {
                View::AuthPrompt
            }),
            r.input_mode == InputMode::Normal,
            r.repos@ == Seq::<Repository>::empty(),
            r.artifacts@ == Seq::<Artifact>::empty(),
            r.storage_items@ == Seq::<StorageItem>::empty(),
            r.storage_report is None,
            r.selected_index == 0,
            r.menu_index == 0,
            r.selected_storage_items@ == Seq::<usize>::empty(),
            r.loading == false,
            r.loading_message@ == Seq::<char>::empty(),
            r.error_message is None,
            r.success_message is None,
            r.filter_text@ == Seq::<char>::empty(),
            r.authenticated == authenticated,
            r.tick == 0,
            r.pending_load is None,
    {
        App {
            should_quit: false,
            current_view: if authenticated {
                View::MainMenu
            } else {
                View::AuthPrompt
            },
            input_mode: InputMode::Normal,
            repos: Vec::new(),
            artifacts: Vec::new(),
            storage_items: Vec::new(),
            storage_report: None,
            selected_index: 0,
            menu_index: 0,
            selected_storage_items: Vec::new(),
            loading: false,
            loading_message: String::new(),
            error_message: None,
            success_message: None,
            filter_text: String::new(),
            authenticated,
            tick: 0,
            pending_load: None,
        }
    }

    /// The menu entry the menu cursor rests on.
    pub fn current_menu_item(&self) -> (r: MenuItem)
        requires
            self.wf(),
        ensures
            r == MenuItem::spec_all()[self.menu_index as int],
    {
        let all = MenuItem::all();
        all[self.menu_index]
    }

    /// The repositories the current filter shows, in order.
    pub fn filtered_repos(&self) -> (r: Vec<Repository>)
        ensures
            r@ == self.spec_filtered_repos(),
    {
        if self.filter_text.as_str().is_empty() {
            let mut out: Vec<Repository> = Vec::new();
            let mut i: usize = 0;
            while i < self.repos.len()
                invariant
                    0 <= i <= self.repos@.len(),
                    out@ == self.repos@.take(i as int),
                decreases self.repos@.len() - i,
            {
                proof {
                    lemma_take_one_more(self.repos@, i as int);
                }
                out.push(self.repos[i].clone());
                i = i + 1;
            }
            proof {
                assert(self.repos@.take(self.repos@.len() as int) =~= self.repos@);
            }
            out
        } else {
            let filter: String = lowercase(self.filter_text.as_str());
            let mut out: Vec<Repository> = Vec::new();
            let mut i: usize = 0;
            while i < self.repos.len()
                invariant
                    0 <= i <= self.repos@.len(),
                    filter@ == lower_of(self.filter_text@),
                    out@ == spec_matching_repos(self.repos@.take(i as int), filter@),
                decreases self.repos@.len() - i,
            {
                proof {
                    lemma_take_one_more(self.repos@, i as int);
                    assert(self.repos@.take(i + 1).drop_last() =~= self.repos@.take(i as int));
                }
                let r = &self.repos[i];
                let name_lower: String = lowercase(r.name.as_str());
                let name_hit: bool = str_contains(name_lower.as_str(), filter.as_str());
                let desc_hit: bool = match &r.description {
                    Some(d) => {
                        let d_lower: String = lowercase(d.as_str());
                        str_contains(d_lower.as_str(), filter.as_str())
                    },
                    None => false,
                };
                if name_hit || desc_hit {
                    out.push(r.clone());
                }
                i = i + 1;
            }
            proof {
                assert(self.repos@.take(self.repos@.len() as int) =~= self.repos@);
            }
            out
        }
    }

    /// The repository under the cursor in the filtered list, if any.
    pub fn selected_repo(&self) -> (r: Option<Repository>)
        ensures
            r == self.spec_selected_repo(),
    {
        let filtered = self.filtered_repos();
        if self.selected_index < filtered.len() {
            Some(filtered[self.selected_index].clone())
        } else {
            None
        }
    }

    /// The artifact under the cursor, if any.
    pub fn selected_artifact(&self) -> (r: Option<Artifact>)
        ensures
            r == self.spec_selected_artifact(),
    {
        if self.selected_index < self.artifacts.len() {
            Some(self.artifacts[self.selected_index].clone())
        } else {
            None
        }
    }

    /// The length of the list the cursor navigates in the current view.
    pub fn current_list_len(&self) -> (n: usize)
        ensures
            n == self.spec_current_len(),
    {
        match self.current_view {
            View::MainMenu => MENU_LEN,
            View::RepoList => self.filtered_repos().len(),
            View::ArtifactList => self.artifacts.len(),
            View::StorageManager => self.storage_items.len(),
            View::RepoDetail => 0,
            View::AuthPrompt => 0,
        }
    }

    /// Moves the cursor down, wrapping modulo the list length; a no-op
    /// on an empty list.
    pub fn next(&mut self)
        requires
            old(self).wf(),
        ensures
            final(self).wf(),
            *final(self) == (App { selected_index: final(self).selected_index, ..*old(self) }),
            old(self).spec_current_len() == 0 ==> final(self).selected_index == old(
                self,
            ).selected_index,
            old(self).spec_current_len() > 0 ==> final(self).selected_index as int == (old(
                self,
            ).selected_index + 1) as int % old(self).spec_current_len(),
    {
        let len = self.current_list_len();
        if len > 0 {
            self.selected_index = (self.selected_index + 1) % len;
        }
    }

    /// Moves the cursor up, wrapping to the end from the top; a no-op
    /// on an empty list.
    pub fn previous(&mut self)
        requires
            old(self).wf(),
        ensures
            final(self).wf(),
            *final(self) == (App { selected_index: final(self).selected_index, ..*old(self) }),
            old(self).spec_current_len() == 0 ==> final(self).selected_index == old(
                self,
            ).selected_index,
            old(self).spec_current_len() > 0 ==> final(self).selected_index as int == (if old(
                self,
            ).selected_index > 0 {
                old(self).selected_index - 1
            } else {
                old(self).spec_current_len() - 1
            }),
    {
        let len = self.current_list_len();
        if len > 0 {
            if self.selected_index > 0 {
                self.selected_index = self.selected_index - 1;
            } else {
                self.selected_index = len - 1;
            }
        }
    }

    /// Moves the menu cursor down, wrapping modulo the menu length.
    pub fn next_menu(&mut self)
        requires
            old(self).wf(),
        ensures
            final(self).wf(),
            *final(self) == (App { menu_index: final(self).menu_index, ..*old(self) }),
            final(self).menu_index as int == (old(self).menu_index + 1) as int % (MENU_LEN as int),
    {
        self.menu_index = (self.menu_index + 1) % MENU_LEN;
    }

    /// Moves the menu cursor up, wrapping to the last entry from the top.
    pub fn previous_menu(&mut self)
        requires
            old(self).wf(),
        ensures
            final(self).wf(),
            *final(self) == (App { menu_index: final(self).menu_index, ..*old(self) }),
            final(self).menu_index as int == (if old(self).menu_index > 0 {
                old(self).menu_index - 1
            } else {
                MENU_LEN - 1
            }),
    {
        if self.menu_index > 0 {
            self.menu_index = self.menu_index - 1;
        } else {
            self.menu_index = MENU_LEN - 1;
        }
    }

    /// The selection the toggle leaves: membership of `idx` flipped,
    /// everything else kept; unchanged when the item list is empty.
    pub open spec fn spec_toggled_selection(
        items_len: int,
        idx: usize,
        sel: Seq<usize>,
    ) -> Seq<usize> {
        if items_len == 0 {
            sel
        } else if sel.contains(idx) {
            spec_remove_all(sel, idx)
        } else {
            sel.push(idx)
        }
    }

    /// Flips membership of the cursor's index in the multi-select set;
    /// a no-op when the storage list is empty.
    pub fn toggle_storage_selection(&mut self)
        requires
            old(self).wf(),
            old(self).current_view == View::StorageManager,
        ensures
            final(self).wf(),
            *final(self) == (App {
                selected_storage_items: final(self).selected_storage_items,
                ..*old(self)
            }),
            final(self).selected_storage_items@ == App::spec_toggled_selection(
                old(self).storage_items@.len() as int,
                old(self).selected_index,
                old(self).selected_storage_items@,
            ),
    {
        if self.storage_items.len() == 0 {
            return ;
        }
        let idx = self.selected_index;
        let present = contains_index(&self.selected_storage_items, idx);
        if present {
            let mut out: Vec<usize> = Vec::new();
            let mut i: usize = 0;
            while i < self.selected_storage_items.len()
                invariant
                    0 <= i <= self.selected_storage_items@.len(),
                    out@ == spec_remove_all(self.selected_storage_items@.take(i as int), idx),
                decreases self.selected_storage_items@.len() - i,
            {
                proof {
                    lemma_take_one_more(self.selected_storage_items@, i as int);
                    assert(self.selected_storage_items@.take(i + 1).drop_last()
                        =~= self.selected_storage_items@.take(i as int));
                }
                let v = self.selected_storage_items[i];
                if v != idx {
                    out.push(v);
                }
                i = i + 1;
            }
            proof {
                assert(self.selected_storage_items@.take(self.selected_storage_items@.len() as int)
                    =~= self.selected_storage_items@);
                lemma_remove_all_no_dups(self.selected_storage_items@, idx);
                lemma_remove_all_bounds(
                    self.selected_storage_items@,
                    idx,
                    self.storage_items@.len() as int,
                );
            }
            self.selected_storage_items = out;
        } else {
            self.selected_storage_items.push(idx);
            proof {
                let s = self.selected_storage_items@;
                let o = old(self).selected_storage_items@;
                assert(forall|i: int| 0 <= i < o.len() ==> s[i] == o[i]);
                assert(s[o.len() as int] == idx);
                assert(spec_no_dups(s)) by {
                    assert(forall|i: int| 0 <= i < o.len() && o[i] == idx ==> o.contains(o[i]));
                }
            }
        }
    }
}

/// Whether the index list holds the given index.
fn contains_index(v: &Vec<usize>, x: usize) -> (r: bool)
    ensures
        r == v@.contains(x),
{
    let mut i: usize = 0;
    while i < v.len()
        invariant
            0 <= i <= v@.len(),
            forall|t: int| 0 <= t < i ==> v@[t] != x,
        decreases v@.len() - i,
    {
        if v[i] == x {
            proof {
                assert(v@[i as int] == x);
            }
            return true;
        }
        i = i + 1;
    }
    false
}

} // verus!
