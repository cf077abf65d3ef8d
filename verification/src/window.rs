//! The window that holds the grid: its title, its size and its colours.

use vstd::prelude::*;
use crate::pane::{dark, light, Rgb};

verus! {

/// How the window is opened.
#[derive(Clone, Copy, Debug, PartialEq, Eq)]
pub struct Window {
    /// The title of the window.
    pub title: &'static str,
    /// The width at which the window opens, in pixels.
    pub width: u32,
    /// The height at which the window opens, in pixels.
    pub height: u32,
    /// The width below which the window cannot be shrunk.
    pub min_width: u32,
    /// The height below which the window cannot be shrunk.
    pub min_height: u32,
    /// Whether the user can change the size of the window.
    pub resizable: bool,
    /// The colour behind the panes.
    pub background: Rgb,
    /// The colour of text that sets none of its own.
    pub text: Rgb,
}

/// The window of the application: titled "RustMD", 800 by 600 pixels and
/// never smaller than 400 by 300, resizable, light grey text on dark grey.
pub fn window() -> (w: Window)
    ensures
        w.title@ == "RustMD"@,
        w.width == 800,
        w.height == 600,
        w.min_width == 400,
        w.min_height == 300,
        w.resizable,
        w.background == dark(),
        w.text == light(),
{
    Window {
        title: "RustMD",
        width: 800,
        height: 600,
        min_width: 400,
        min_height: 300,
        resizable: true,
        background: Rgb { red: 25, green: 25, blue: 25 },
        text: Rgb { red: 200, green: 200, blue: 200 },
    }
}

} // verus!
