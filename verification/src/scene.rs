//! What the window shows: one container for each pane of the grid.

use vstd::prelude::*;
use iced::widget::pane_grid;
use crate::grid::{grid_contents, grid_entries, pane_index};
use crate::pane::{PaneType, PaneView};
use crate::state::AppState;

verus! {

/// The width, in pixels, of the strip along a boundary in which a drag takes hold.
pub const RESIZE_LEEWAY: u32 = 6;

/// The window's content, as the toolkit is to draw it: a grid with one
/// container for each pane, whose boundaries can be dragged.
#[derive(Clone, Debug, PartialEq, Eq)]
pub struct Scene {
    /// The containers, one for each pane, in the order of the panes' identifiers.
    pub panes: Vec<PaneView>,
    /// Whether the grid takes the whole width of the window.
    pub fill_width: bool,
    /// Whether the grid takes the whole height of the window.
    pub fill_height: bool,
    /// The width of the strip along a boundary in which a drag takes hold.
    pub resize_leeway: u32,
}

/// What the window shows in `state`.
///
/// Whatever the ratios of the boundaries are, these are three containers:
/// the one of the left pane, labelled "Files", the one of the main panel,
/// labelled "Main Panel", and the one of the right pane, labelled "Outline",
/// in this order. Each is drawn as its pane prescribes. The grid fills the
/// window, and its boundaries can be dragged within `RESIZE_LEEWAY`.
pub fn view(state: &AppState) -> (scene: Scene)
    ensures
        scene.panes@.len() == 3,
        PaneType::Left.shown_as(scene.panes@[0]),
        PaneType::Center.shown_as(scene.panes@[1]),
        PaneType::Right.shown_as(scene.panes@[2]),
        forall|i: int|
            0 <= i < 3 ==> state@.contents[state@.panes()[i]].shown_as(#[trigger] scene.panes@[i]),
        scene.fill_width,
        scene.fill_height,
        scene.resize_leeway == RESIZE_LEEWAY,
{
    let entries = grid_entries(state.panes());
    proof {
        let row = state@.panes();
        let contents = grid_contents(state.grid());
        assert(contents.contains_key(row[0]));
        assert(contents.contains_key(row[1]));
        assert(contents.contains_key(row[2]));
        let a = choose|i: int| 0 <= i < entries.len() && (#[trigger] entries[i]).0 == row[0];
        let b = choose|i: int| 0 <= i < entries.len() && (#[trigger] entries[i]).0 == row[1];
        let c = choose|i: int| 0 <= i < entries.len() && (#[trigger] entries[i]).0 == row[2];
        assert(a < b < c);
        assert forall|i: int| 0 <= i < entries.len() implies (#[trigger] entries[i]).0 == row[0]
            || entries[i].0 == row[1] || entries[i].0 == row[2] by {
            assert(contents.contains_pair(entries[i].0, entries[i].1));
        }
        let first = entries[0].0;
        assert(first == row[0] || first == row[1] || first == row[2]);
        assert(a == 0);
        let second = entries[1].0;
        assert(second == row[0] || second == row[1] || second == row[2]);
        assert(b == 1);
        let third = entries[2].0;
        assert(third == row[0] || third == row[1] || third == row[2]);
        assert(c == 2);
        if entries.len() > 3 {
            let fourth = entries[3].0;
            assert(fourth == row[0] || fourth == row[1] || fourth == row[2]);
            assert(pane_index(entries[2].0) < pane_index(entries[3].0));
        }
        assert(entries.len() == 3);
        assert(contents.contains_pair(entries[0].0, entries[0].1));
        assert(contents.contains_pair(entries[1].0, entries[1].1));
        assert(contents.contains_pair(entries[2].0, entries[2].1));
    }
    let mut panes: Vec<PaneView> = Vec::new();
    let mut i: usize = 0;
    while i < entries.len()
        invariant
            0 <= i <= entries.len(),
            panes@.len() == i,
            forall|k: int| 0 <= k < i ==> entries[k].1.shown_as(#[trigger] panes@[k]),
        decreases entries.len() - i,
    {
        panes.push(entries[i].1.appearance());
        i += 1;
    }
    Scene { panes, fill_width: true, fill_height: true, resize_leeway: RESIZE_LEEWAY }
}

} // verus!
