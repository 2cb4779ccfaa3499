//! The fixed main-menu entries and their presentation text.

use vstd::prelude::*;

verus! {

/// An entry of the main menu. The set is fixed and ordered:
/// repositories, storage manager, quit.
#[derive(Debug, Clone, Copy, PartialEq, Eq, Structural)]
pub enum MenuItem {
    Repositories,
    StorageManager,
    Quit,
}

impl MenuItem {
    /// The menu entries in display order.
    pub open spec fn spec_all() -> Seq<MenuItem> {
        seq![MenuItem::Repositories, MenuItem::StorageManager, MenuItem::Quit]
    }

    /// The label shown for this entry.
    pub open spec fn spec_label(self) -> Seq<char> {
        match self {
            MenuItem::Repositories => "Repositories"@,
            MenuItem::StorageManager => "Storage Manager"@,
            MenuItem::Quit => "Quit"@,
        }
    }

    /// The one-line description shown under the label.
    pub open spec fn spec_description(self) -> Seq<char> {
        match self {
            MenuItem::Repositories => "Browse and explore your GitHub repositories"@,
            MenuItem::StorageManager => "Analyze and clean up storage usage"@,
            MenuItem::Quit => "Exit the application"@,
        }
    }

    pub fn all() -> (r: Vec<MenuItem>)
        ensures
            r@ == MenuItem::spec_all(),
    {
        let mut v: Vec<MenuItem> = Vec::new();
        v.push(MenuItem::Repositories);
        v.push(MenuItem::StorageManager);
        v.push(MenuItem::Quit);
        proof {
            assert(v@ =~= MenuItem::spec_all());
        }
        v
    }

    pub fn label(&self) -> (r: &'static str)
        ensures
            r@ == self.spec_label(),
    {
        match self {
            MenuItem::Repositories => "Repositories",
            MenuItem::StorageManager => "Storage Manager",
            MenuItem::Quit => "Quit",
        }
    }

    pub fn description(&self) -> (r: &'static str)
        ensures
            r@ == self.spec_description(),
    {
        match self {
            MenuItem::Repositories => "Browse and explore your GitHub repositories",
            MenuItem::StorageManager => "Analyze and clean up storage usage",
            MenuItem::Quit => "Exit the application",
        }
    }
}

} // verus!
