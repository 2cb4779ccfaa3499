use gh_tui::artifacts::{collect_artifact_lists, select_older_than, select_older_than_now};
use gh_tui::cli::{artifact_delete_plan, artifact_list_scope, DeletePlan, ListScope};
use gh_tui::config::{token_from_sources, Config};
use gh_tui::domain::{Artifact, Repository};
use gh_tui::menu::MenuItem;
use gh_tui::repos::filter_repos;

const DAY: i64 = 86400;

fn artifact_created(id: u64, name: &str, created_at: i64) -> Artifact {
    Artifact {
        id,
        node_id: "node1".to_string(),
        name: name.to_string(),
        size_in_bytes: 100,
        url: "url".to_string(),
        archive_download_url: "url".to_string(),
        expired: false,
        created_at,
        expires_at: created_at + 20 * DAY,
        workflow_run_id: None,
        repository_name: "repo".to_string(),
        repository_owner: "owner".to_string(),
    }
}

#[test]
fn test_default_config() {
    let config = Config::default();
    assert_eq!(config.preferences.theme, "dark");
}

#[test]
fn test_delete_older_than() {
    let now = chrono::Utc::now().timestamp();
    let old_artifact = artifact_created(1, "old", now - 10 * DAY);
    let deleted = select_older_than(&vec![old_artifact], now, 5);
    assert_eq!(deleted.len(), 1);
    assert_eq!(deleted[0].id, 1);
}

#[test]
fn test_list_all_artifacts() {
    let results: Vec<Option<Vec<Artifact>>> = Vec::new();
    let all = collect_artifact_lists(&results);
    assert!(all.is_empty());
}

#[test]
fn test_list_repos_filtering() {
    let mut r1 = Repository::default();
    r1.private = true;
    let mut r2 = Repository::default();
    r2.private = false;
    let private_only = filter_repos(&vec![r1, r2], true, false, false);
    assert_eq!(private_only.len(), 1);
    assert!(private_only[0].private);
}

#[test]
fn ages_at_the_boundary_select_only_old_enough() {
    let now: i64 = 1_700_000_000;
    let n: i64 = 7;
    let arts = vec![
        artifact_created(1, "younger", now - (n - 1) * DAY),
        artifact_created(2, "exact", now - n * DAY),
        artifact_created(3, "older", now - (n + 1) * DAY),
    ];
    let deleted = select_older_than(&arts, now, n);
    assert_eq!(deleted.len(), 2);
    assert_eq!(deleted[0].id, 2);
    assert_eq!(deleted[1].id, 3);
}

#[test]
fn future_artifacts_are_never_old() {
    let now: i64 = 1_700_000_000;
    let arts = vec![artifact_created(1, "tomorrow", now + 2 * DAY)];
    assert!(select_older_than(&arts, now, 1).is_empty());
    assert_eq!(select_older_than(&arts, now, -3).len(), 1);
}

#[test]
fn clock_based_selection_sees_an_ancient_artifact() {
    let arts = vec![artifact_created(1, "ancient", 0)];
    let deleted = select_older_than_now(&arts, 1);
    assert_eq!(deleted.len(), 1);
    assert!(arts[0].is_older_than(1));
}

#[test]
fn aggregation_skips_failed_repositories() {
    let results = vec![
        Some(vec![artifact_created(1, "a1", 0), artifact_created(2, "a2", 0)]),
        None,
        Some(vec![artifact_created(3, "b1", 0)]),
    ];
    let all = collect_artifact_lists(&results);
    assert_eq!(all.len(), 3);
    assert_eq!(all[0].id, 1);
    assert_eq!(all[1].id, 2);
    assert_eq!(all[2].id, 3);
}

#[test]
fn archived_repos_hidden_unless_all() {
    let mut archived = Repository::default();
    archived.archived = true;
    let plain = Repository::default();
    assert_eq!(filter_repos(&vec![archived.clone(), plain.clone()], false, false, false).len(), 1);
    assert_eq!(filter_repos(&vec![archived, plain], false, false, true).len(), 2);
}

#[test]
fn public_filter_keeps_only_public() {
    let mut private = Repository::default();
    private.private = true;
    let public = Repository::default();
    let kept = filter_repos(&vec![private, public], false, true, false);
    assert_eq!(kept.len(), 1);
    assert!(!kept[0].private);
}

#[test]
fn delete_plan_prefers_age_over_id() {
    let plan = artifact_delete_plan(
        Some(9),
        Some(30),
        Some("r".to_string()),
        Some("o".to_string()),
    );
    assert_eq!(plan, DeletePlan::OlderThan { days: 30 });
}

#[test]
fn delete_plan_by_id_needs_owner_and_repo() {
    let plan = artifact_delete_plan(Some(9), None, Some("r".to_string()), Some("o".to_string()));
    assert_eq!(
        plan,
        DeletePlan::ById { owner: "o".to_string(), repo: "r".to_string(), id: 9 }
    );
    let missing = artifact_delete_plan(Some(9), None, None, Some("o".to_string()));
    assert_eq!(missing, DeletePlan::MissingOwnerRepo);
}

#[test]
fn delete_plan_without_arguments_is_an_error() {
    assert_eq!(artifact_delete_plan(None, None, None, None), DeletePlan::MissingArguments);
}

#[test]
fn list_scope_needs_both_owner_and_repo() {
    assert_eq!(
        artifact_list_scope(Some("o".to_string()), Some("r".to_string())),
        ListScope::Repo { owner: "o".to_string(), repo: "r".to_string() }
    );
    assert_eq!(artifact_list_scope(Some("o".to_string()), None), ListScope::All);
    assert_eq!(artifact_list_scope(None, None), ListScope::All);
}

#[test]
fn menu_entries_are_fixed_and_labelled() {
    let all = MenuItem::all();
    assert_eq!(
        all,
        vec![MenuItem::Repositories, MenuItem::StorageManager, MenuItem::Quit]
    );
    assert_eq!(MenuItem::Repositories.label(), "Repositories");
    assert_eq!(MenuItem::StorageManager.label(), "Storage Manager");
    assert_eq!(MenuItem::Quit.label(), "Quit");
    assert_eq!(MenuItem::Quit.description(), "Exit the application");
}

#[test]
fn token_priority_prefers_environment_then_cli_then_store() {
    let env = Some("env-token".to_string());
    let cli = Some("cli-token".to_string());
    let stored = Some("stored-token".to_string());
    assert_eq!(
        token_from_sources(env.clone(), cli.clone(), stored.clone()),
        Some("env-token".to_string())
    );
    assert_eq!(
        token_from_sources(None, cli.clone(), stored.clone()),
        Some("cli-token".to_string())
    );
    assert_eq!(token_from_sources(None, None, stored), Some("stored-token".to_string()));
    assert_eq!(token_from_sources(None, None, None), None);
}

#[test]
fn empty_token_sources_are_skipped() {
    assert_eq!(
        token_from_sources(Some(String::new()), None, Some("stored-token".to_string())),
        Some("stored-token".to_string())
    );
    assert_eq!(
        token_from_sources(Some(String::new()), Some(String::new()), None),
        None
    );
}
