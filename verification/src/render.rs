//! The render model: pure functions from state to what a frame shows.
//!
//! Everything here is read-only — the drawing layer receives an
//! immutable reference and can decide colors and layout from these
//! values, but cannot mutate the state. Loading takes precedence over
//! an error, an error over an empty list, and only then is the
//! populated list drawn.

use vstd::prelude::*;
use vstd::view::View as _;
use crate::state::{App, InputMode, View};

verus! {

/// The number of spinner animation frames.
pub const SPINNER_FRAME_COUNT: u64 = 8;

/// The spinner frame for one animation step.
pub open spec fn spec_spinner_frame(i: int) -> Seq<char> {
    if i == 0 {
        "⠋"@
    } else if i == 1 {
        "⠙"@
    } else if i == 2 {
        "⠹"@
    } else if i == 3 {
        "⠸"@
    } else if i == 4 {
        "⠼"@
    } else if i == 5 {
        "⠴"@
    } else if i == 6 {
        "⠦"@
    } else {
        "⠧"@
    }
}

/// The spinner frame shown at an animation tick; frames cycle.
pub fn get_spinner(tick: u64) -> (r: &'static str)
    ensures
        r@ == spec_spinner_frame((tick % SPINNER_FRAME_COUNT) as int),
{
    let i = tick % SPINNER_FRAME_COUNT;
    if i == 0 {
        "⠋"
    } else if i == 1 {
        "⠙"
    } else if i == 2 {
        "⠹"
    } else if i == 3 {
        "⠸"
    } else if i == 4 {
        "⠼"
    } else if i == 5 {
        "⠴"
    } else if i == 6 {
        "⠦"
    } else {
        "⠧"
    }
}

/// The usage percentage the gauge shows: used over allowed, scaled to
/// hundredths and capped at one hundred; zero when nothing is allowed.
pub open spec fn spec_usage_percent(used: u64, max_allowed: u64) -> int {
    if max_allowed == 0 {
        0
    } else if used * 100 / (max_allowed as int) > 100 {
        100
    } else {
        used * 100 / (max_allowed as int)
    }
}

/// Computes the gauge percentage as [`spec_usage_percent`] describes.
pub fn usage_percent(used: u64, max_allowed: u64) -> (r: u16)
    ensures
        r == spec_usage_percent(used, max_allowed),
{
    if max_allowed == 0 {
        0
    } else {
        let scaled: u128 = (used as u128) * 100 / (max_allowed as u128);
        if scaled > 100 {
            100
        } else {
            scaled as u16
        }
    }
}

/// The color band of the storage gauge.
#[derive(Debug, Clone, Copy, PartialEq, Eq, Structural)]
pub enum GaugeBand {
    Normal,
    Warning,
    Critical,
}

/// The band a usage percentage falls in: critical above ninety,
/// warning above seventy, normal below.
pub fn gauge_band(percent: u16) -> (r: GaugeBand)
    ensures
        percent > 90 ==> r == GaugeBand::Critical,
        70 < percent <= 90 ==> r == GaugeBand::Warning,
        percent <= 70 ==> r == GaugeBand::Normal,
{
    if percent > 90 {
        GaugeBand::Critical
    } else if percent > 70 {
        GaugeBand::Warning
    } else {
        GaugeBand::Normal
    }
}

/// What the body of a data view renders, by precedence: the loading
/// screen wins, then the error banner, then the empty notice, then the
/// populated list.
#[derive(Debug, Clone, Copy, PartialEq, Eq, Structural)]
pub enum BodyState {
    Loading,
    Error,
    Empty,
    Populated,
}

/// The body state of a data view with the given list length.
pub fn feature_body_state(loading: bool, error: &Option<String>, list_len: usize) -> (r: BodyState)
    ensures
        loading ==> r == BodyState::Loading,
        !loading && error is Some ==> r == BodyState::Error,
        !loading && error is None && list_len == 0 ==> r == BodyState::Empty,
        !loading && error is None && list_len > 0 ==> r == BodyState::Populated,
{
    if loading {
        BodyState::Loading
    } else if error.is_some() {
        BodyState::Error
    } else if list_len == 0 {
        BodyState::Empty
    } else {
        BodyState::Populated
    }
}

impl App {
    /// Whether the repository list shows its filter bar: when filter
    /// text is present or the filter is being edited.
    pub fn show_filter_bar(&self) -> (r: bool)
        ensures
            r == (self.filter_text@.len() > 0 || self.input_mode == InputMode::Editing),
    {
        !self.filter_text.as_str().is_empty() || match self.input_mode {
            InputMode::Editing => true,
            InputMode::Normal => false,
        }
    }

    /// Whether the storage row at `i` shows the selected checkbox.
    pub fn storage_index_selected(&self, i: usize) -> (r: bool)
        ensures
            r == self.selected_storage_items@.contains(i),
    {
        let mut k: usize = 0;
        while k < self.selected_storage_items.len()
            invariant
                0 <= k <= self.selected_storage_items@.len(),
                forall|t: int| 0 <= t < k ==> self.selected_storage_items@[t] != i,
            decreases self.selected_storage_items@.len() - k,
        {
            if self.selected_storage_items[k] == i {
                proof {
                    assert(self.selected_storage_items@[k as int] == i);
                }
                return true;
            }
            k = k + 1;
        }
        false
    }
}

/// The checkbox marker of a storage row.
pub fn checkbox_marker(selected: bool) -> (r: &'static str)
    ensures
        selected ==> r@ == "[×]"@,
        !selected ==> r@ == "[ ]"@,
{
    if selected {
        "[×]"
    } else {
        "[ ]"
    }
}

/// The help line of the status bar for one view and input mode.
pub open spec fn spec_status_help(view: View, mode: InputMode) -> Seq<char> {
    match view {
        View::MainMenu => "↑/↓: Navigate | Enter: Select | q: Quit"@,
        View::RepoList => {
            if mode == InputMode::Normal {
                "↑/↓: Navigate | Enter: Details | a: Artifacts | /: Filter | r: Refresh | Esc: Menu | q: Quit"@
            } else {
                "Type to filter | Enter/Esc: Stop"@
            }
        },
        View::RepoDetail => "a: Artifacts | Esc: Back | q: Quit"@,
        View::ArtifactList => "↑/↓: Navigate | d: Delete | r: Refresh | Esc: Back | q: Quit"@,
        View::StorageManager => "↑/↓: Navigate | Space: Toggle | d: Delete selected | r: Refresh | Esc: Menu | q: Quit"@,
        View::AuthPrompt => "q: Quit"@,
    }
}

/// The help line the status bar shows for one view and input mode.
pub fn status_help(view: View, mode: InputMode) -> (r: &'static str)
    ensures
        r@ == spec_status_help(view, mode),
{
    match view {
        View::MainMenu => "↑/↓: Navigate | Enter: Select | q: Quit",
        View::RepoList => {
            match mode {
                InputMode::Normal => "↑/↓: Navigate | Enter: Details | a: Artifacts | /: Filter | r: Refresh | Esc: Menu | q: Quit",
                InputMode::Editing => "Type to filter | Enter/Esc: Stop",
            }
        },
        View::RepoDetail => "a: Artifacts | Esc: Back | q: Quit",
        View::ArtifactList => "↑/↓: Navigate | d: Delete | r: Refresh | Esc: Back | q: Quit",
        View::StorageManager => "↑/↓: Navigate | Space: Toggle | d: Delete selected | r: Refresh | Esc: Menu | q: Quit",
        View::AuthPrompt => "q: Quit",
    }
}

} // verus!
