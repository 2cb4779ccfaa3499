//! The command-line surface as plain data, and the decisions the
//! one-shot artifact commands make from their arguments. Parsing the
//! actual argument strings is the binary's work.

use vstd::prelude::*;

verus! {

/// One invocation of the program.
#[derive(Debug, PartialEq, Eq)]
pub struct Cli {
    pub command: Commands,
    pub verbose: bool,
}

/// The subcommands of the program.
#[derive(Debug, PartialEq, Eq)]
pub enum Commands {
    Auth { action: AuthCommands },
    Ls { owner: Option<String>, private: bool, public: bool, all: bool },
    Artifacts { action: ArtifactCommands },
    Df,
    Tui,
}

/// The credential subcommands.
#[derive(Debug, PartialEq, Eq)]
pub enum AuthCommands {
    Login { token: Option<String> },
    Logout,
    Status,
}

/// The artifact subcommands.
#[derive(Debug, PartialEq, Eq)]
pub enum ArtifactCommands {
    List { owner: Option<String>, repo: Option<String> },
    Delete { id: Option<u64>, older_than: Option<i64>, repo: Option<String>, owner: Option<String> },
}

/// What the artifact list command fetches: one repository's artifacts
/// when both owner and repository are given, else every repository's.
#[derive(Debug, PartialEq, Eq)]
pub enum ListScope {
    Repo { owner: String, repo: String },
    All,
}

/// Decides the artifact list scope from the optional arguments.
pub fn artifact_list_scope(owner: Option<String>, repo: Option<String>) -> (r: ListScope)
    ensures
        owner matches Some(o) ==> (repo matches Some(rp) ==> r == (ListScope::Repo {
            owner: o,
            repo: rp,
        })),
        (owner is None || repo is None) ==> r == ListScope::All,
{
    match (owner, repo) {
        (Some(o), Some(rp)) => ListScope::Repo { owner: o, repo: rp },
        _ => ListScope::All,
    }
}

/// What the artifact delete command does: an age-based bulk deletion
/// when an age is given; a single deletion when an id with its owner
/// and repository are given; otherwise the matching usage error.
#[derive(Debug, PartialEq, Eq)]
pub enum DeletePlan {
    OlderThan { days: i64 },
    ById { owner: String, repo: String, id: u64 },
    MissingOwnerRepo,
    MissingArguments,
}

/// Decides the artifact deletion plan from the optional arguments: the
/// age threshold wins over an id; an id without both owner and
/// repository is an error; no id and no age is an error.
pub fn artifact_delete_plan(
    id: Option<u64>,
    older_than: Option<i64>,
    repo: Option<String>,
    owner: Option<String>,
) -> (r: DeletePlan)
    ensures
        older_than matches Some(days) ==> r == (DeletePlan::OlderThan { days }),
        older_than is None ==> (id matches Some(i) ==> (owner matches Some(o) ==> (repo
            matches Some(rp) ==> r == (DeletePlan::ById { owner: o, repo: rp, id: i })))),
        (older_than is None && id is Some && (owner is None || repo is None)) ==> r
            == DeletePlan::MissingOwnerRepo,
        (older_than is None && id is None) ==> r == DeletePlan::MissingArguments,
{
    match older_than {
        Some(days) => DeletePlan::OlderThan { days },
        None => match id {
            Some(i) => match (owner, repo) {
                (Some(o), Some(rp)) => DeletePlan::ById { owner: o, repo: rp, id: i },
                _ => DeletePlan::MissingOwnerRepo,
            },
            None => DeletePlan::MissingArguments,
        },
    }
}

} // verus!
