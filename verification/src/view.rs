//! View state: the two grid-visibility toggles, the time-freeze flag,
//! and the panel-tab variant. All are simple flips with no validation;
//! the updater and the gesture handler read them.

use vstd::prelude::*;

verus! {

/// The three view toggles.
#[derive(Clone, Copy, PartialEq, Eq, Structural, Debug)]
pub struct ViewConfig {
    pub show_azimuthal_grid: bool,
    pub show_equatorial_grid: bool,
    pub time_stopped: bool,
}

impl Default for ViewConfig {
    /// The startup view: azimuthal grid shown, equatorial grid hidden,
    /// clock live.
    fn default() -> (r: Self)
        ensures
            r.show_azimuthal_grid == true,
            r.show_equatorial_grid == false,
            r.time_stopped == false,
    {
        ViewConfig { show_azimuthal_grid: true, show_equatorial_grid: false, time_stopped: false }
    }
}

/// Flip the azimuthal-grid toggle, leaving the other flags alone.
pub fn toggle_azimuthal_grid(v: &mut ViewConfig)
    ensures
        final(v).show_azimuthal_grid == !old(v).show_azimuthal_grid,
        final(v).show_equatorial_grid == old(v).show_equatorial_grid,
        final(v).time_stopped == old(v).time_stopped,
{
    v.show_azimuthal_grid = !v.show_azimuthal_grid;
}

/// Flip the equatorial-grid toggle, leaving the other flags alone.
pub fn toggle_equatorial_grid(v: &mut ViewConfig)
    ensures
        final(v).show_equatorial_grid == !old(v).show_equatorial_grid,
        final(v).show_azimuthal_grid == old(v).show_azimuthal_grid,
        final(v).time_stopped == old(v).time_stopped,
{
    v.show_equatorial_grid = !v.show_equatorial_grid;
}

/// Flip the time-freeze flag, leaving the other flags alone.
pub fn toggle_time_stopped(v: &mut ViewConfig)
    ensures
        final(v).time_stopped == !old(v).time_stopped,
        final(v).show_azimuthal_grid == old(v).show_azimuthal_grid,
        final(v).show_equatorial_grid == old(v).show_equatorial_grid,
{
    v.time_stopped = !v.time_stopped;
}

/// Whether an entity group is rendered.
#[derive(Clone, Copy, PartialEq, Eq, Structural, Debug)]
pub enum Visibility {
    Visible,
    Hidden,
}

pub open spec fn spec_visibility(show: bool) -> Visibility {
    if show {
        Visibility::Visible
    } else {
        Visibility::Hidden
    }
}

/// The visibility each grid group gets this frame.
#[derive(Clone, Copy, PartialEq, Eq, Structural, Debug)]
pub struct GridVisibility {
    pub equatorial: Visibility,
    pub azimuthal: Visibility,
}

/// Each grid group is visible exactly when its toggle is set.
pub fn grid_visibility(v: &ViewConfig) -> (r: GridVisibility)
    ensures
        r.equatorial == spec_visibility(v.show_equatorial_grid),
        r.azimuthal == spec_visibility(v.show_azimuthal_grid),
{
    GridVisibility {
        equatorial: if v.show_equatorial_grid {
            Visibility::Visible
        } else {
            Visibility::Hidden
        },
        azimuthal: if v.show_azimuthal_grid {
            Visibility::Visible
        } else {
            Visibility::Hidden
        },
    }
}

/// The side-panel tabs.
#[derive(Clone, Copy, PartialEq, Eq, Structural, Debug)]
pub enum TopBarTabOption {
    Stars,
    TelescopeControl,
}

/// The selected side-panel tab.
#[derive(Clone, Copy, PartialEq, Eq, Structural, Debug)]
pub struct TopBarTab {
    pub tab: TopBarTabOption,
}

impl Default for TopBarTab {
    /// The star panel is selected at startup.
    fn default() -> (r: Self)
        ensures
            r.tab == TopBarTabOption::Stars,
    {
        TopBarTab { tab: TopBarTabOption::Stars }
    }
}

} // verus!
