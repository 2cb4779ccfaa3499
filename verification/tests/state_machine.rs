use gh_tui::dispatch::{Command, Key};
use gh_tui::domain::{Repository, StorageItem, StorageItemType};
use gh_tui::menu::MenuItem;
use gh_tui::state::{App, InputMode, View};

fn repo(name: &str, description: Option<&str>, private: bool) -> Repository {
    let mut r = Repository::default();
    r.name = name.to_string();
    r.description = description.map(|d| d.to_string());
    r.private = private;
    r
}

fn item(id: u64, name: &str, size: u64, kind: StorageItemType) -> StorageItem {
    StorageItem {
        id,
        name: name.to_string(),
        owner: "owner".to_string(),
        repo: "repo".to_string(),
        size_in_bytes: size,
        item_type: kind,
    }
}

#[test]
fn navigation_wraps_modulo_length() {
    let mut app = App::new(true);
    app.current_view = View::ArtifactList;
    app.artifacts = Vec::new();
    for i in 0..3 {
        let mut a = gh_tui::domain::Artifact {
            id: i,
            node_id: String::new(),
            name: String::new(),
            size_in_bytes: 0,
            url: String::new(),
            archive_download_url: String::new(),
            expired: false,
            created_at: 0,
            expires_at: 0,
            workflow_run_id: None,
            repository_name: String::new(),
            repository_owner: String::new(),
        };
        a.name = format!("a{}", i);
        app.artifacts.push(a);
    }
    app.next();
    assert_eq!(app.selected_index, 1);
    app.next();
    assert_eq!(app.selected_index, 2);
    app.next();
    assert_eq!(app.selected_index, 0);
    app.previous();
    assert_eq!(app.selected_index, 2);
    app.previous();
    assert_eq!(app.selected_index, 1);
}

#[test]
fn navigation_on_empty_list_is_a_no_op() {
    let mut app = App::new(true);
    app.current_view = View::ArtifactList;
    assert_eq!(app.selected_index, 0);
    app.next();
    assert_eq!(app.selected_index, 0);
    app.previous();
    assert_eq!(app.selected_index, 0);
}

#[test]
fn reload_resets_selection_index() {
    let mut app = App::new(true);
    app.current_view = View::RepoList;
    app.repos = vec![repo("a", None, false), repo("b", None, false), repo("c", None, false)];
    app.next();
    app.next();
    assert_eq!(app.selected_index, 2);
    app.on_repos_loaded(Ok(vec![repo("x", None, false)]));
    assert_eq!(app.selected_index, 0);
    assert_eq!(app.repos.len(), 1);
    assert!(app.error_message.is_none());
    assert!(!app.loading);
}

#[test]
fn storage_reload_clears_multi_select() {
    let mut app = App::new(true);
    app.current_view = View::StorageManager;
    app.storage_items = vec![
        item(1, "one", 4096, StorageItemType::Artifact),
        item(2, "two", 2048, StorageItemType::Cache),
    ];
    app.toggle_storage_selection();
    assert_eq!(app.selected_storage_items, vec![0]);
    let report = gh_tui::domain::StorageUsageReport {
        total_used: 0,
        max_allowed: 1,
        items: vec![item(3, "three", 8192, StorageItemType::Artifact)],
    };
    app.on_storage_loaded(Ok(report));
    assert!(app.selected_storage_items.is_empty());
    assert_eq!(app.selected_index, 0);
    assert_eq!(app.storage_items.len(), 1);
    assert_eq!(app.storage_items[0].id, 3);
}

#[test]
fn failed_load_keeps_list_and_shows_error() {
    let mut app = App::new(true);
    app.current_view = View::ArtifactList;
    app.on_artifacts_loaded(Err("boom".to_string()));
    assert_eq!(app.error_message.as_deref(), Some("boom"));
    assert!(app.artifacts.is_empty());
    assert!(!app.loading);
}

#[test]
fn filter_matches_name_or_description_case_insensitively() {
    let mut app = App::new(true);
    app.repos = vec![
        repo("RustProject", None, false),
        repo("other", Some("A rusty toolbox"), false),
        repo("unrelated", Some("nothing here"), false),
    ];
    app.filter_text = "rust".to_string();
    let filtered = app.filtered_repos();
    assert_eq!(filtered.len(), 2);
    assert_eq!(filtered[0].name, "RustProject");
    assert_eq!(filtered[1].name, "other");
}

#[test]
fn empty_filter_yields_full_list_in_order() {
    let mut app = App::new(true);
    app.repos = vec![repo("b", None, false), repo("a", None, false)];
    app.filter_text = String::new();
    let filtered = app.filtered_repos();
    assert_eq!(filtered.len(), 2);
    assert_eq!(filtered[0].name, "b");
    assert_eq!(filtered[1].name, "a");
}

#[test]
fn toggle_twice_restores_selection() {
    let mut app = App::new(true);
    app.current_view = View::StorageManager;
    app.storage_items = vec![
        item(1, "one", 4096, StorageItemType::Artifact),
        item(2, "two", 2048, StorageItemType::Cache),
    ];
    app.selected_storage_items = vec![1];
    app.selected_index = 0;
    app.toggle_storage_selection();
    assert_eq!(app.selected_storage_items, vec![1, 0]);
    app.toggle_storage_selection();
    let mut sel = app.selected_storage_items.clone();
    sel.sort();
    assert_eq!(sel, vec![1]);
}

#[test]
fn editing_foo_backspace_enter_leaves_fo_in_normal_mode() {
    let mut app = App::new(true);
    app.current_view = View::RepoList;
    app.input_mode = InputMode::Editing;
    assert!(app.dispatch_key(Key::Char('f')).is_none());
    assert!(app.dispatch_key(Key::Char('o')).is_none());
    assert!(app.dispatch_key(Key::Char('o')).is_none());
    assert!(app.dispatch_key(Key::Backspace).is_none());
    assert!(app.dispatch_key(Key::Enter).is_none());
    assert_eq!(app.filter_text, "fo");
    assert_eq!(app.input_mode, InputMode::Normal);
}

#[test]
fn editing_escape_clears_filter() {
    let mut app = App::new(true);
    app.current_view = View::RepoList;
    app.input_mode = InputMode::Editing;
    app.dispatch_key(Key::Char('x'));
    app.dispatch_key(Key::Esc);
    assert_eq!(app.filter_text, "");
    assert_eq!(app.input_mode, InputMode::Normal);
}

#[test]
fn batch_delete_dispatches_by_type_then_clears_and_reloads() {
    let mut app = App::new(true);
    app.current_view = View::StorageManager;
    app.storage_items = vec![
        item(10, "Artifact: big", 4096, StorageItemType::Artifact),
        item(20, "Cache: deps", 2048, StorageItemType::Cache),
    ];
    app.toggle_storage_selection();
    app.next();
    app.toggle_storage_selection();
    let cmd = app.dispatch_key(Key::Char('d'));
    match cmd {
        Some(Command::BatchDelete(reqs)) => {
            assert_eq!(reqs.len(), 2);
            assert!(matches!(
                &reqs[0],
                gh_tui::artifacts::DeleteRequest::Artifact { id: 10, .. }
            ));
            assert!(matches!(
                &reqs[1],
                gh_tui::artifacts::DeleteRequest::Cache { id: 20, .. }
            ));
        }
        other => panic!("expected a batch delete, got {:?}", other),
    }
    let follow_up = app.on_batch_deleted("Deleted 2 items".to_string());
    assert!(matches!(follow_up, Some(Command::LoadStorage)));
    assert!(app.selected_storage_items.is_empty());
    assert_eq!(app.success_message.as_deref(), Some("Deleted 2 items"));
    assert!(app.loading);
}

#[test]
fn success_banner_swallows_next_key() {
    let mut app = App::new(true);
    app.success_message = Some("done".to_string());
    let cmd = app.dispatch_key(Key::Char('q'));
    assert!(cmd.is_none());
    assert!(app.success_message.is_none());
    assert!(!app.should_quit);
}

#[test]
fn menu_enter_defers_the_load() {
    let mut app = App::new(true);
    assert_eq!(app.current_view, View::MainMenu);
    let cmd = app.dispatch_key(Key::Enter);
    assert!(cmd.is_none());
    assert_eq!(app.current_view, View::RepoList);
    assert!(app.loading);
    assert_eq!(app.pending_load, Some(MenuItem::Repositories));
    let fetch = app.service_pending();
    assert!(matches!(fetch, Some(Command::LoadRepos)));
    assert!(app.pending_load.is_none());
}

#[test]
fn ctrl_c_quits_from_any_view() {
    let mut app = App::new(true);
    app.current_view = View::StorageManager;
    let cmd = app.dispatch_key(Key::CtrlC);
    assert!(cmd.is_none());
    assert!(app.should_quit);
}

#[test]
fn unauthenticated_session_starts_at_auth_prompt() {
    let mut app = App::new(false);
    assert_eq!(app.current_view, View::AuthPrompt);
    app.dispatch_key(Key::Char('x'));
    assert!(!app.should_quit);
    app.dispatch_key(Key::Char('q'));
    assert!(app.should_quit);
}

#[test]
fn refresh_without_credential_shows_error() {
    let mut app = App::new(false);
    app.current_view = View::RepoList;
    let cmd = app.dispatch_key(Key::Char('r'));
    assert!(cmd.is_none());
    assert_eq!(app.error_message.as_deref(), Some("Not authenticated"));
}

#[test]
fn storage_escape_clears_selection_and_returns_to_menu() {
    let mut app = App::new(true);
    app.current_view = View::StorageManager;
    app.storage_items = vec![item(1, "one", 4096, StorageItemType::Artifact)];
    app.toggle_storage_selection();
    assert_eq!(app.selected_storage_items, vec![0]);
    app.dispatch_key(Key::Esc);
    assert_eq!(app.current_view, View::MainMenu);
    assert!(app.selected_storage_items.is_empty());
}

#[test]
fn render_reads_do_not_change_state() {
    let mut app = App::new(true);
    app.repos = vec![repo("a", None, false), repo("b", Some("desc"), true)];
    app.filter_text = "a".to_string();
    let before_filter = app.filter_text.clone();
    let before_len = app.repos.len();
    let before_index = app.selected_index;
    let _ = app.filtered_repos();
    let _ = app.selected_repo();
    let _ = app.current_list_len();
    let _ = app.show_filter_bar();
    let _ = app.storage_index_selected(0);
    assert_eq!(app.filter_text, before_filter);
    assert_eq!(app.repos.len(), before_len);
    assert_eq!(app.selected_index, before_index);
}

#[test]
fn opening_artifacts_targets_the_selected_repo() {
    let mut app = App::new(true);
    app.current_view = View::RepoList;
    let mut r = repo("alpha", None, false);
    r.owner = "me".to_string();
    let mut r2 = repo("beta", None, false);
    r2.owner = "me".to_string();
    app.repos = vec![r, r2];
    app.next();
    let cmd = app.dispatch_key(Key::Char('a'));
    match cmd {
        Some(Command::LoadArtifacts { owner, repo }) => {
            assert_eq!(owner, "me");
            assert_eq!(repo, "beta");
        }
        other => panic!("expected an artifact load, got {:?}", other),
    }
    assert_eq!(app.current_view, View::ArtifactList);
    assert_eq!(app.selected_index, 0);
    assert!(app.loading);
    assert_eq!(app.loading_message, "Loading artifacts for me/beta...");
}

#[test]
fn enter_opens_detail_only_with_a_selection() {
    let mut app = App::new(true);
    app.current_view = View::RepoList;
    let cmd = app.dispatch_key(Key::Enter);
    assert!(cmd.is_none());
    assert_eq!(app.current_view, View::RepoList);
    app.repos = vec![repo("one", None, false)];
    app.dispatch_key(Key::Enter);
    assert_eq!(app.current_view, View::RepoDetail);
    app.dispatch_key(Key::Esc);
    assert_eq!(app.current_view, View::RepoList);
}

#[test]
fn storage_menu_entry_defers_the_scan() {
    let mut app = App::new(true);
    app.dispatch_key(Key::Down);
    assert_eq!(app.menu_index, 1);
    app.dispatch_key(Key::Enter);
    assert_eq!(app.current_view, View::StorageManager);
    assert_eq!(app.pending_load, Some(MenuItem::StorageManager));
    let fetch = app.service_pending();
    assert!(matches!(fetch, Some(Command::LoadStorage)));
}

#[test]
fn delete_key_names_the_selected_artifact() {
    let mut app = App::new(true);
    app.current_view = View::ArtifactList;
    let mut a = gh_tui::domain::Artifact {
        id: 77,
        node_id: String::new(),
        name: "bundle".to_string(),
        size_in_bytes: 10,
        url: String::new(),
        archive_download_url: String::new(),
        expired: false,
        created_at: 0,
        expires_at: 0,
        workflow_run_id: None,
        repository_name: "proj".to_string(),
        repository_owner: "me".to_string(),
    };
    a.expired = false;
    app.artifacts = vec![a];
    let cmd = app.dispatch_key(Key::Char('d'));
    match cmd {
        Some(Command::DeleteArtifact { owner, repo, id, name }) => {
            assert_eq!(owner, "me");
            assert_eq!(repo, "proj");
            assert_eq!(id, 77);
            assert_eq!(name, "bundle");
        }
        other => panic!("expected an artifact deletion, got {:?}", other),
    }
    let follow_up = app.on_artifact_deleted("Deleted artifact: bundle".to_string());
    assert!(matches!(follow_up, Some(Command::LoadAllArtifacts)));
    assert_eq!(app.success_message.as_deref(), Some("Deleted artifact: bundle"));
}

#[test]
fn typing_in_filter_resets_the_cursor() {
    let mut app = App::new(true);
    app.current_view = View::RepoList;
    app.repos = vec![
        repo("aa", None, false),
        repo("ab", None, false),
        repo("zz", None, false),
    ];
    app.next();
    app.next();
    assert_eq!(app.selected_index, 2);
    app.dispatch_key(Key::Char('/'));
    assert_eq!(app.input_mode, InputMode::Editing);
    app.dispatch_key(Key::Char('a'));
    assert_eq!(app.selected_index, 0);
    app.dispatch_key(Key::Enter);
    let filtered = app.filtered_repos();
    assert_eq!(filtered.len(), 2);
}

#[test]
fn leaving_repo_list_clears_the_filter() {
    let mut app = App::new(true);
    app.current_view = View::RepoList;
    app.filter_text = "abc".to_string();
    app.dispatch_key(Key::Esc);
    assert_eq!(app.current_view, View::MainMenu);
    assert_eq!(app.filter_text, "");
}
