//! The input dispatcher: key events and the deferred-load pipeline.
//!
//! Every transition is a pure function of the state and the key; the
//! asynchronous work a transition needs comes back to the caller as a
//! [`Command`]. The caller performs the command (a network fetch, a
//! deletion) and reports the outcome through the `on_*` methods, which
//! complete the transition. Priority per iteration: a pending load is
//! serviced first; an unacknowledged success banner swallows the next
//! key; only then is a key routed by input mode and view.

use vstd::prelude::*;
use vstd::view::View as _;
use vstd::string::StringExecFns;
use crate::artifacts::{delete_requests, spec_is_request_for, spec_selected_items, DeleteRequest};
use crate::domain::{Repository, StorageUsageReport};
use crate::menu::MenuItem;
use crate::state::{lemma_matching_len, App, InputMode, View, MENU_LEN};
use crate::storage::{manageable_items, spec_sorted_size_desc, spec_visible_items};
use crate::text::{pop_char, push_char};

verus! {

/// A key event, as the terminal reports it to the dispatcher.
#[derive(Debug, Clone, Copy, PartialEq, Eq, Structural)]
pub enum Key {
    Char(char),
    Enter,
    Esc,
    Backspace,
    Up,
    Down,
    CtrlC,
    Other,
}

/// The asynchronous work a transition asks its caller to perform.
#[derive(Debug, PartialEq, Eq)]
pub enum Command {
    LoadRepos,
    LoadStorage,
    LoadAllArtifacts,
    LoadArtifacts { owner: String, repo: String },
    DeleteArtifact { owner: String, repo: String, id: u64, name: String },
    BatchDelete(Vec<DeleteRequest>),
}

/// The step only raises the quit flag.
pub open spec fn quit_step(pre: App, post: App) -> bool {
    post == (App { should_quit: true, ..pre })
}

/// The key is the given letter, in either case.
pub open spec fn is_letter(key: Key, lower: char, upper: char) -> bool {
    key == Key::Char(lower) || key == Key::Char(upper)
}

/// The cursor moved down with wrap-around; nothing else changed.
pub open spec fn next_step(pre: App, post: App) -> bool {
    &&& post == (App { selected_index: post.selected_index, ..pre })
    &&& if pre.spec_current_len() == 0 {
        post.selected_index == pre.selected_index
    } else {
        post.selected_index as int == (pre.selected_index + 1) as int % pre.spec_current_len()
    }
}

/// The cursor moved up with wrap-around; nothing else changed.
pub open spec fn previous_step(pre: App, post: App) -> bool {
    &&& post == (App { selected_index: post.selected_index, ..pre })
    &&& if pre.spec_current_len() == 0 {
        post.selected_index == pre.selected_index
    } else {
        post.selected_index as int == (if pre.selected_index > 0 {
            pre.selected_index - 1
        } else {
            pre.spec_current_len() - 1
        })
    }
}

/// Repository loading began: the loading screen is up and the caller
/// was asked to fetch; without a credential, only an error banner.
pub open spec fn load_repos_rel(pre: App, post: App, cmd: Option<Command>) -> bool {
    if pre.authenticated {
        &&& post == (App {
            loading: true,
            loading_message: post.loading_message,
            error_message: None,
            ..pre
        })
        &&& post.loading_message@ == "Loading repositories..."@
        &&& cmd == Some(Command::LoadRepos)
    } else {
        &&& post == (App { error_message: post.error_message, ..pre })
        &&& (post.error_message matches Some(m) && m@ == "Not authenticated"@)
        &&& cmd is None
    }
}

/// Storage loading began; a no-op without a credential.
pub open spec fn load_storage_rel(pre: App, post: App, cmd: Option<Command>) -> bool {
    if pre.authenticated {
        &&& post == (App {
            loading: true,
            loading_message: post.loading_message,
            error_message: None,
            ..pre
        })
        &&& post.loading_message@ == "Scanning storage usage..."@
        &&& cmd == Some(Command::LoadStorage)
    } else {
        post == pre && cmd is None
    }
}

/// Loading of all artifacts began; a no-op without a credential.
pub open spec fn load_all_artifacts_rel(pre: App, post: App, cmd: Option<Command>) -> bool {
    if pre.authenticated {
        &&& post == (App {
            loading: true,
            loading_message: post.loading_message,
            error_message: None,
            ..pre
        })
        &&& post.loading_message@ == "Loading all artifacts..."@
        &&& cmd == Some(Command::LoadAllArtifacts)
    } else {
        post == pre && cmd is None
    }
}

/// Loading of one repository's artifacts began; a no-op without a
/// credential.
pub open spec fn load_artifacts_rel(
    pre: App,
    post: App,
    cmd: Option<Command>,
    owner: Seq<char>,
    name: Seq<char>,
) -> bool {
    if pre.authenticated {
        &&& post == (App {
            loading: true,
            loading_message: post.loading_message,
            error_message: None,
            ..pre
        })
        &&& post.loading_message@ == "Loading artifacts for "@ + owner + "/"@ + name + "..."@
        &&& (cmd matches Some(Command::LoadArtifacts { owner: o, repo: r }) && o@ == owner && r@
            == name)
    } else {
        post == pre && cmd is None
    }
}

/// The main-menu transition table.
pub open spec fn main_menu_step(pre: App, key: Key, post: App, cmd: Option<Command>) -> bool {
    if is_letter(key, 'q', 'Q') {
        quit_step(pre, post) && cmd is None
    } else if key == Key::Down || key == Key::Char('j') {
        &&& post == (App { menu_index: post.menu_index, ..pre })
        &&& post.menu_index as int == (pre.menu_index + 1) as int % (MENU_LEN as int)
        &&& cmd is None
    } else if key == Key::Up || key == Key::Char('k') {
        &&& post == (App { menu_index: post.menu_index, ..pre })
        &&& post.menu_index as int == (if pre.menu_index > 0 {
            pre.menu_index - 1
        } else {
            MENU_LEN - 1
        })
        &&& cmd is None
    } else if key == Key::Enter {
        match MenuItem::spec_all()[pre.menu_index as int] {
            MenuItem::Repositories => {
                &&& post == (App {
                    current_view: View::RepoList,
                    loading: true,
                    loading_message: post.loading_message,
                    selected_index: 0,
                    pending_load: Some(MenuItem::Repositories),
                    ..pre
                })
                &&& post.loading_message@ == "Loading repositories..."@
                &&& cmd is None
            },
            MenuItem::StorageManager => {
                &&& post == (App {
                    current_view: View::StorageManager,
                    loading: true,
                    loading_message: post.loading_message,
                    selected_index: 0,
                    pending_load: Some(MenuItem::StorageManager),
                    ..pre
                })
                &&& post.loading_message@ == "Scanning storage usage..."@
                &&& cmd is None
            },
            MenuItem::Quit => quit_step(pre, post) && cmd is None,
        }
    } else {
        post == pre && cmd is None
    }
}

/// The repository-list transition table (normal mode).
pub open spec fn repo_list_step(pre: App, key: Key, post: App, cmd: Option<Command>) -> bool {
    if is_letter(key, 'q', 'Q') {
        quit_step(pre, post) && cmd is None
    } else if key == Key::Esc {
        &&& post == (App {
            current_view: View::MainMenu,
            filter_text: post.filter_text,
            ..pre
        })
        &&& post.filter_text@ == Seq::<char>::empty()
        &&& cmd is None
    } else if key == Key::Down || key == Key::Char('j') {
        next_step(pre, post) && cmd is None
    } else if key == Key::Up || key == Key::Char('k') {
        previous_step(pre, post) && cmd is None
    } else if key == Key::Enter {
        &&& (pre.spec_selected_repo() is Some ==> post == (App {
            current_view: View::RepoDetail,
            ..pre
        }))
        &&& (pre.spec_selected_repo() is None ==> post == pre)
        &&& cmd is None
    } else if is_letter(key, 'r', 'R') {
        load_repos_rel(pre, post, cmd)
    } else if key == Key::Char('/') {
        post == (App { input_mode: InputMode::Editing, ..pre }) && cmd is None
    } else if is_letter(key, 'a', 'A') {
        open_artifacts_step(pre, post, cmd)
    } else {
        post == pre && cmd is None
    }
}

/// The transition both the repository list and the repository detail
/// share on the artifacts key: switch to the artifact list for the
/// selected repository and start its load.
pub open spec fn open_artifacts_step(pre: App, post: App, cmd: Option<Command>) -> bool {
    match pre.spec_selected_repo() {
        Some(repo) => {
            if pre.authenticated {
                &&& post == (App {
                    current_view: View::ArtifactList,
                    selected_index: 0,
                    loading: true,
                    loading_message: post.loading_message,
                    error_message: None,
                    ..pre
                })
                &&& post.loading_message@ == "Loading artifacts for "@ + repo.owner@ + "/"@
                    + repo.name@ + "..."@
                &&& (cmd matches Some(Command::LoadArtifacts { owner: o, repo: r }) && o@
                    == repo.owner@ && r@ == repo.name@)
            } else {
                &&& post == (App {
                    current_view: View::ArtifactList,
                    selected_index: 0,
                    ..pre
                })
                &&& cmd is None
            }
        },
        None => post == pre && cmd is None,
    }
}

/// The repository-detail transition table.
pub open spec fn repo_detail_step(pre: App, key: Key, post: App, cmd: Option<Command>) -> bool {
    if is_letter(key, 'q', 'Q') {
        quit_step(pre, post) && cmd is None
    } else if key == Key::Esc {
        post == (App { current_view: View::RepoList, ..pre }) && cmd is None
    } else if is_letter(key, 'a', 'A') {
        open_artifacts_step(pre, post, cmd)
    } else {
        post == pre && cmd is None
    }
}

/// The artifact-list transition table.
pub open spec fn artifact_list_step(pre: App, key: Key, post: App, cmd: Option<Command>) -> bool {
    if is_letter(key, 'q', 'Q') {
        quit_step(pre, post) && cmd is None
    } else if key == Key::Esc {
        post == (App { current_view: View::MainMenu, ..pre }) && cmd is None
    } else if key == Key::Down || key == Key::Char('j') {
        next_step(pre, post) && cmd is None
    } else if key == Key::Up || key == Key::Char('k') {
        previous_step(pre, post) && cmd is None
    } else if is_letter(key, 'r', 'R') {
        load_all_artifacts_rel(pre, post, cmd)
    } else if is_letter(key, 'd', 'D') {
        match pre.spec_selected_artifact() {
            Some(a) => {
                if pre.authenticated {
                    &&& post == pre
                    &&& (cmd matches Some(
                        Command::DeleteArtifact { owner, repo, id, name },
                    ) && owner@ == a.repository_owner@ && repo@ == a.repository_name@ && id == a.id
                        && name@ == a.name@)
                } else {
                    post == pre && cmd is None
                }
            },
            None => post == pre && cmd is None,
        }
    } else {
        post == pre && cmd is None
    }
}

/// Whether `reqs` is exactly the batch of deletions the selection asks
/// for: one request per selected item, in selection order, each routed
/// by the item's type tag.
pub open spec fn spec_requests_match(reqs: Seq<DeleteRequest>, pre: App) -> bool {
    &&& reqs.len() == spec_selected_items(pre.storage_items@, pre.selected_storage_items@).len()
    &&& forall|j: int|
        0 <= j < reqs.len() ==> spec_is_request_for(
            reqs[j],
            #[trigger] spec_selected_items(pre.storage_items@, pre.selected_storage_items@)[j]@,
        )
}

/// The storage-manager transition table.
pub open spec fn storage_manager_step(pre: App, key: Key, post: App, cmd: Option<Command>) -> bool {
    if is_letter(key, 'q', 'Q') {
        quit_step(pre, post) && cmd is None
    } else if key == Key::Esc {
        &&& post == (App {
            current_view: View::MainMenu,
            selected_storage_items: post.selected_storage_items,
            ..pre
        })
        &&& post.selected_storage_items@ == Seq::<usize>::empty()
        &&& cmd is None
    } else if key == Key::Down || key == Key::Char('j') {
        next_step(pre, post) && cmd is None
    } else if key == Key::Up || key == Key::Char('k') {
        previous_step(pre, post) && cmd is None
    } else if key == Key::Char(' ') {
        &&& post == (App { selected_storage_items: post.selected_storage_items, ..pre })
        &&& post.selected_storage_items@ == App::spec_toggled_selection(
            pre.storage_items@.len() as int,
            pre.selected_index,
            pre.selected_storage_items@,
        )
        &&& cmd is None
    } else if is_letter(key, 'r', 'R') {
        load_storage_rel(pre, post, cmd)
    } else if is_letter(key, 'd', 'D') {
        if pre.selected_storage_items@.len() > 0 {
            &&& post == pre
            &&& (cmd matches Some(Command::BatchDelete(reqs)) && spec_requests_match(reqs@, pre))
        } else {
            post == pre && cmd is None
        }
    } else {
        post == pre && cmd is None
    }
}

/// The credential-prompt transition table: only quitting is accepted.
pub open spec fn auth_prompt_step(pre: App, key: Key, post: App, cmd: Option<Command>) -> bool {
    if is_letter(key, 'q', 'Q') {
        quit_step(pre, post) && cmd is None
    } else {
        post == pre && cmd is None
    }
}

/// The editing-mode transition table: keys edit the filter line; enter
/// commits it and escape discards it, both returning to normal mode.
pub open spec fn editing_step(pre: App, key: Key, post: App, cmd: Option<Command>) -> bool {
    &&& cmd is None
    &&& match key {
        Key::Enter => post == (App { input_mode: InputMode::Normal, ..pre }),
        Key::Esc => {
            &&& post == (App {
                input_mode: InputMode::Normal,
                filter_text: post.filter_text,
                ..pre
            })
            &&& post.filter_text@ == Seq::<char>::empty()
        },
        Key::Char(c) => {
            &&& post == (App {
                filter_text: post.filter_text,
                selected_index: 0,
                ..pre
            })
            &&& post.filter_text@ == pre.filter_text@.push(c)
        },
        Key::Backspace => {
            &&& post == (App {
                filter_text: post.filter_text,
                selected_index: 0,
                ..pre
            })
            &&& post.filter_text@ == (if pre.filter_text@.len() == 0 {
                pre.filter_text@
            } else {
                pre.filter_text@.drop_last()
            })
        },
        _ => post == pre,
    }
}

/// One key, routed: the global quit chord first, then the handler of
/// the current input mode and view.
pub open spec fn key_step(pre: App, key: Key, post: App, cmd: Option<Command>) -> bool {
    if key == Key::CtrlC {
        quit_step(pre, post) && cmd is None
    } else {
        match pre.input_mode {
            InputMode::Normal => match pre.current_view {
                View::MainMenu => main_menu_step(pre, key, post, cmd),
                View::RepoList => repo_list_step(pre, key, post, cmd),
                View::RepoDetail => repo_detail_step(pre, key, post, cmd),
                View::ArtifactList => artifact_list_step(pre, key, post, cmd),
                View::StorageManager => storage_manager_step(pre, key, post, cmd),
                View::AuthPrompt => auth_prompt_step(pre, key, post, cmd),
            },
            InputMode::Editing => editing_step(pre, key, post, cmd),
        }
    }
}

/// One dispatched key: an unacknowledged success banner swallows the
/// key and is cleared; otherwise the key is routed.
pub open spec fn dispatch_step(pre: App, key: Key, post: App, cmd: Option<Command>) -> bool {
    if pre.success_message is Some {
        post == (App { success_message: None, ..pre }) && cmd is None
    } else {
        key_step(pre, key, post, cmd)
    }
}

impl App {
    /// Starts the repository load: puts the loading screen up and asks
    /// the caller to fetch; without a credential, shows an error banner
    /// instead.
    pub fn load_repos(&mut self) -> (cmd: Option<Command>)
        requires
            old(self).wf(),
        ensures
            final(self).wf(),
            load_repos_rel(*old(self), *final(self), cmd),
    {
        if self.authenticated {
            self.loading = true;
            self.loading_message = "Loading repositories...".to_owned();
            self.error_message = None;
            Some(Command::LoadRepos)
        } else {
            self.error_message = Some("Not authenticated".to_owned());
            None
        }
    }

    /// Starts the storage scan; a no-op without a credential.
    pub fn load_storage(&mut self) -> (cmd: Option<Command>)
        requires
            old(self).wf(),
        ensures
            final(self).wf(),
            load_storage_rel(*old(self), *final(self), cmd),
    {
        if self.authenticated {
            self.loading = true;
            self.loading_message = "Scanning storage usage...".to_owned();
            self.error_message = None;
            Some(Command::LoadStorage)
        } else {
            None
        }
    }

    /// Starts the cross-repository artifact load; a no-op without a
    /// credential.
    pub fn load_all_artifacts(&mut self) -> (cmd: Option<Command>)
        requires
            old(self).wf(),
        ensures
            final(self).wf(),
            load_all_artifacts_rel(*old(self), *final(self), cmd),
    {
        if self.authenticated {
            self.loading = true;
            self.loading_message = "Loading all artifacts...".to_owned();
            self.error_message = None;
            Some(Command::LoadAllArtifacts)
        } else {
            None
        }
    }

    /// Starts the artifact load for one repository; a no-op without a
    /// credential.
    pub fn load_artifacts(&mut self, owner: &str, repo: &str) -> (cmd: Option<Command>)
        requires
            old(self).wf(),
        ensures
            final(self).wf(),
            load_artifacts_rel(*old(self), *final(self), cmd, owner@, repo@),
    {
        if self.authenticated {
            self.loading = true;
            self.loading_message = "Loading artifacts for ".to_owned().concat(owner).concat(
                "/",
            ).concat(repo).concat("...");
            self.error_message = None;
            Some(
                Command::LoadArtifacts {
                    owner: owner.to_owned(),
                    repo: repo.to_owned(),
                },
            )
        } else {
            None
        }
    }

    /// Completes a repository load: on success the list is replaced
    /// wholesale and the cursor reset; on failure an error banner is
    /// shown and the list left unchanged.
    pub fn on_repos_loaded(&mut self, result: Result<Vec<Repository>, String>)
        requires
            old(self).wf(),
        ensures
            final(self).wf(),
            (result matches Ok(v) ==> *final(self) == (App {
                repos: v,
                selected_index: 0,
                loading: false,
                error_message: None,
                ..*old(self)
            })),
            (result matches Err(m) ==> *final(self) == (App {
                loading: false,
                error_message: Some(m),
                ..*old(self)
            })),
    {
        match result {
            Ok(v) => {
                self.repos = v;
                self.selected_index = 0;
                self.error_message = None;
            },
            Err(m) => {
                self.error_message = Some(m);
            },
        }
        self.loading = false;
    }

    /// Completes an artifact load (for one repository or for all): on
    /// success the list is replaced wholesale and the cursor reset; on
    /// failure an error banner is shown and the list left unchanged.
    pub fn on_artifacts_loaded(&mut self, result: Result<Vec<crate::domain::Artifact>, String>)
        requires
            old(self).wf(),
        ensures
            final(self).wf(),
            (result matches Ok(v) ==> *final(self) == (App {
                artifacts: v,
                selected_index: 0,
                loading: false,
                error_message: None,
                ..*old(self)
            })),
            (result matches Err(m) ==> *final(self) == (App {
                loading: false,
                error_message: Some(m),
                ..*old(self)
            })),
    {
        match result {
            Ok(v) => {
                self.artifacts = v;
                self.selected_index = 0;
                self.error_message = None;
            },
            Err(m) => {
                self.error_message = Some(m);
            },
        }
        self.loading = false;
    }

    /// Completes the storage scan: on success the working list becomes
    /// the report's items of listable size, sorted largest first, the
    /// cursor is reset and the multi-select set cleared; on failure an
    /// error banner is shown.
    pub fn on_storage_loaded(&mut self, result: Result<StorageUsageReport, String>)
        requires
            old(self).wf(),
        ensures
            final(self).wf(),
            (result matches Ok(report) ==> {
                &&& *final(self) == (App {
                    storage_items: final(self).storage_items,
                    storage_report: Some(report),
                    selected_index: 0,
                    selected_storage_items: final(self).selected_storage_items,
                    loading: false,
                    error_message: None,
                    ..*old(self)
                })
                &&& final(self).storage_items@.to_multiset() == spec_visible_items(
                    report.items@,
                ).to_multiset()
                &&& spec_sorted_size_desc(final(self).storage_items@)
                &&& final(self).selected_storage_items@ == Seq::<usize>::empty()
            }),
            (result matches Err(m) ==> *final(self) == (App {
                loading: false,
                error_message: Some(m),
                ..*old(self)
            })),
    {
        match result {
            Ok(report) => {
                let items = manageable_items(&report.items);
                self.storage_items = items;
                self.storage_report = Some(report);
                self.selected_index = 0;
                self.selected_storage_items = Vec::new();
                self.error_message = None;
            },
            Err(m) => {
                self.error_message = Some(m);
            },
        }
        self.loading = false;
    }

    /// Completes a single-artifact deletion: shows the must-acknowledge
    /// success banner and starts the reload of the artifact list.
    pub fn on_artifact_deleted(&mut self, message: String) -> (cmd: Option<Command>)
        requires
            old(self).wf(),
        ensures
            final(self).wf(),
            *final(self) == (App {
                success_message: Some(message),
                loading: final(self).loading,
                loading_message: final(self).loading_message,
                error_message: final(self).error_message,
                ..*old(self)
            }),
            load_all_artifacts_rel(
                (App { success_message: Some(message), ..*old(self) }),
                *final(self),
                cmd,
            ),
    {
        self.success_message = Some(message);
        self.load_all_artifacts()
    }

    /// Completes a batch deletion: shows the must-acknowledge success
    /// banner, clears the multi-select set, and starts the reload of
    /// the storage report.
    pub fn on_batch_deleted(&mut self, message: String) -> (cmd: Option<Command>)
        requires
            old(self).wf(),
        ensures
            final(self).wf(),
            final(self).selected_storage_items@ == Seq::<usize>::empty(),
            *final(self) == (App {
                success_message: Some(message),
                selected_storage_items: final(self).selected_storage_items,
                loading: final(self).loading,
                loading_message: final(self).loading_message,
                error_message: final(self).error_message,
                ..*old(self)
            }),
            load_storage_rel(
                (App {
                    success_message: Some(message),
                    selected_storage_items: final(self).selected_storage_items,
                    ..*old(self)
                }),
                *final(self),
                cmd,
            ),
    {
        self.success_message = Some(message);
        self.selected_storage_items = Vec::new();
        self.load_storage()
    }

    /// Services a deferred load: clears the pending marker and hands
    /// back the fetch it stood for, so one frame can render before the
    /// network call runs.
    pub fn service_pending(&mut self) -> (cmd: Option<Command>)
        requires
            old(self).wf(),
        ensures
            final(self).wf(),
            final(self).pending_load is None,
            match old(self).pending_load {
                Some(MenuItem::Repositories) => load_repos_rel(
                    (App { pending_load: None, ..*old(self) }),
                    *final(self),
                    cmd,
                ),
                Some(MenuItem::StorageManager) => load_storage_rel(
                    (App { pending_load: None, ..*old(self) }),
                    *final(self),
                    cmd,
                ),
                _ => *final(self) == (App { pending_load: None, ..*old(self) }) && cmd is None,
            },
    {
        let p = self.pending_load;
        self.pending_load = None;
        match p {
            Some(MenuItem::Repositories) => self.load_repos(),
            Some(MenuItem::StorageManager) => self.load_storage(),
            Some(MenuItem::Quit) => None,
            None => None,
        }
    }

    /// Advances the animation tick, wrapping at the numeric bound.
    pub fn advance_tick(&mut self)
        requires
            old(self).wf(),
        ensures
            final(self).wf(),
            *final(self) == (App { tick: final(self).tick, ..*old(self) }),
            final(self).tick == (if old(self).tick == u64::MAX {
                0u64
            } else {
                (old(self).tick + 1) as u64
            }),
    {
        if self.tick == u64::MAX {
            self.tick = 0;
        } else {
            self.tick = self.tick + 1;
        }
    }

    /// Routes one key event: the global quit chord is honored from
    /// every normal-mode handler; otherwise the handler of the current
    /// input mode and view runs.
    fn handle_key_event(&mut self, key: Key) -> (cmd: Option<Command>)
        requires
            old(self).wf(),
        ensures
            final(self).wf(),
            key_step(*old(self), key, *final(self), cmd),
    {
        if key == Key::CtrlC {
            self.should_quit = true;
            return None;
        }
        match self.input_mode {
            InputMode::Normal => match self.current_view {
                View::MainMenu => self.handle_main_menu_key(key),
                View::RepoList => self.handle_repo_list_key(key),
                View::RepoDetail => self.handle_repo_detail_key(key),
                View::ArtifactList => self.handle_artifact_list_key(key),
                View::StorageManager => self.handle_storage_manager_key(key),
                View::AuthPrompt => self.handle_auth_prompt_key(key),
            },
            InputMode::Editing => self.handle_editing_key(key),
        }
    }

    /// One dispatched key: a pending success banner swallows it;
    /// otherwise it is routed to the view handlers.
    pub fn dispatch_key(&mut self, key: Key) -> (cmd: Option<Command>)
        requires
            old(self).wf(),
        ensures
            final(self).wf(),
            dispatch_step(*old(self), key, *final(self), cmd),
    {
        match &self.success_message {
            Some(_) => {
                self.success_message = None;
                None
            },
            None => self.handle_key_event(key),
        }
    }

    fn handle_main_menu_key(&mut self, key: Key) -> (cmd: Option<Command>)
        requires
            old(self).wf(),
            old(self).input_mode == InputMode::Normal,
            old(self).current_view == View::MainMenu,
            key != Key::CtrlC,
        ensures
            final(self).wf(),
            main_menu_step(*old(self), key, *final(self), cmd),
    {
        match key {
            Key::Char('q') | Key::Char('Q') => {
                self.should_quit = true;
                None
            },
            Key::Down | Key::Char('j') => {
                self.next_menu();
                None
            },
            Key::Up | Key::Char('k') => {
                self.previous_menu();
                None
            },
            Key::Enter => {
                match self.current_menu_item() {
                    MenuItem::Repositories => {
                        self.current_view = View::RepoList;
                        self.loading = true;
                        self.loading_message = "Loading repositories...".to_owned();
                        self.selected_index = 0;
                        self.pending_load = Some(MenuItem::Repositories);
                    },
                    MenuItem::StorageManager => {
                        self.current_view = View::StorageManager;
                        self.loading = true;
                        self.loading_message = "Scanning storage usage...".to_owned();
                        self.selected_index = 0;
                        self.pending_load = Some(MenuItem::StorageManager);
                    },
                    MenuItem::Quit => {
                        self.should_quit = true;
                    },
                }
                None
            },
            _ => None,
        }
    }

    fn handle_repo_list_key(&mut self, key: Key) -> (cmd: Option<Command>)
        requires
            old(self).wf(),
            old(self).input_mode == InputMode::Normal,
            old(self).current_view == View::RepoList,
            key != Key::CtrlC,
        ensures
            final(self).wf(),
            repo_list_step(*old(self), key, *final(self), cmd),
    {
        match key {
            Key::Char('q') | Key::Char('Q') => {
                self.should_quit = true;
                None
            },
            Key::Esc => {
                self.current_view = View::MainMenu;
                self.filter_text = String::new();
                None
            },
            Key::Down | Key::Char('j') => {
                self.next();
                None
            },
            Key::Up | Key::Char('k') => {
                self.previous();
                None
            },
            Key::Enter => {
                match self.selected_repo() {
                    Some(_) => {
                        self.current_view = View::RepoDetail;
                    },
                    None => {},
                }
                None
            },
            Key::Char('r') | Key::Char('R') => self.load_repos(),
            Key::Char('/') => {
                self.input_mode = InputMode::Editing;
                None
            },
            Key::Char('a') | Key::Char('A') => self.open_artifacts(),
            _ => None,
        }
    }

    /// The shared artifacts transition of the repository list and the
    /// repository detail.
    fn open_artifacts(&mut self) -> (cmd: Option<Command>)
        requires
            old(self).wf(),
            old(self).current_view == View::RepoList || old(self).current_view
                == View::RepoDetail,
        ensures
            final(self).wf(),
            open_artifacts_step(*old(self), *final(self), cmd),
    {
        match self.selected_repo() {
            Some(repo) => {
                let cmd = self.load_artifacts(repo.owner.as_str(), repo.name.as_str());
                self.current_view = View::ArtifactList;
                self.selected_index = 0;
                cmd
            },
            None => None,
        }
    }

    fn handle_repo_detail_key(&mut self, key: Key) -> (cmd: Option<Command>)
        requires
            old(self).wf(),
            old(self).input_mode == InputMode::Normal,
            old(self).current_view == View::RepoDetail,
            key != Key::CtrlC,
        ensures
            final(self).wf(),
            repo_detail_step(*old(self), key, *final(self), cmd),
    {
        match key {
            Key::Char('q') | Key::Char('Q') => {
                self.should_quit = true;
                None
            },
            Key::Esc => {
                self.current_view = View::RepoList;
                None
            },
            Key::Char('a') | Key::Char('A') => self.open_artifacts(),
            _ => None,
        }
    }

    fn handle_artifact_list_key(&mut self, key: Key) -> (cmd: Option<Command>)
        requires
            old(self).wf(),
            old(self).input_mode == InputMode::Normal,
            old(self).current_view == View::ArtifactList,
            key != Key::CtrlC,
        ensures
            final(self).wf(),
            artifact_list_step(*old(self), key, *final(self), cmd),
    {
        match key {
            Key::Char('q') | Key::Char('Q') => {
                self.should_quit = true;
                None
            },
            Key::Esc => {
                self.current_view = View::MainMenu;
                None
            },
            Key::Down | Key::Char('j') => {
                self.next();
                None
            },
            Key::Up | Key::Char('k') => {
                self.previous();
                None
            },
            Key::Char('r') | Key::Char('R') => self.load_all_artifacts(),
            Key::Char('d') | Key::Char('D') => {
                match self.selected_artifact() {
                    Some(a) => {
                        if self.authenticated {
                            Some(
                                Command::DeleteArtifact {
                                    owner: a.repository_owner,
                                    repo: a.repository_name,
                                    id: a.id,
                                    name: a.name,
                                },
                            )
                        } else {
                            None
                        }
                    },
                    None => None,
                }
            },
            _ => None,
        }
    }

    fn handle_storage_manager_key(&mut self, key: Key) -> (cmd: Option<Command>)
        requires
            old(self).wf(),
            old(self).input_mode == InputMode::Normal,
            old(self).current_view == View::StorageManager,
            key != Key::CtrlC,
        ensures
            final(self).wf(),
            storage_manager_step(*old(self), key, *final(self), cmd),
    {
        match key {
            Key::Char('q') | Key::Char('Q') => {
                self.should_quit = true;
                None
            },
            Key::Esc => {
                self.current_view = View::MainMenu;
                self.selected_storage_items = Vec::new();
                None
            },
            Key::Down | Key::Char('j') => {
                self.next();
                None
            },
            Key::Up | Key::Char('k') => {
                self.previous();
                None
            },
            Key::Char(' ') => {
                self.toggle_storage_selection();
                None
            },
            Key::Char('r') | Key::Char('R') => self.load_storage(),
            Key::Char('d') | Key::Char('D') => {
                if self.selected_storage_items.len() > 0 {
                    let reqs = delete_requests(&self.storage_items, &self.selected_storage_items);
                    Some(Command::BatchDelete(reqs))
                } else {
                    None
                }
            },
            _ => None,
        }
    }

    fn handle_auth_prompt_key(&mut self, key: Key) -> (cmd: Option<Command>)
        requires
            old(self).wf(),
            old(self).current_view == View::AuthPrompt,
            key != Key::CtrlC,
        ensures
            final(self).wf(),
            auth_prompt_step(*old(self), key, *final(self), cmd),
    {
        match key {
            Key::Char('q') | Key::Char('Q') => {
                self.should_quit = true;
                None
            },
            _ => None,
        }
    }

    fn handle_editing_key(&mut self, key: Key) -> (cmd: Option<Command>)
        requires
            old(self).wf(),
            old(self).input_mode == InputMode::Editing,
            key != Key::CtrlC,
        ensures
            final(self).wf(),
            editing_step(*old(self), key, *final(self), cmd),
    {
        match key {
            Key::Enter => {
                self.input_mode = InputMode::Normal;
            },
            Key::Esc => {
                self.input_mode = InputMode::Normal;
                self.filter_text = String::new();
                proof {
                    lemma_matching_len(self.repos@, crate::text::lower_of(old(self).filter_text@));
                }
            },
            Key::Char(c) => {
                push_char(&mut self.filter_text, c);
                self.selected_index = 0;
            },
            Key::Backspace => {
                let _ = pop_char(&mut self.filter_text);
                self.selected_index = 0;
            },
            _ => {},
        }
        None
    }
}

} // verus!
