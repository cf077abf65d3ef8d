//! The three panes of the window and what each of them shows.

use vstd::prelude::*;

verus! {

/// Which of the three panes a slot of the grid shows.
#[derive(Clone, Copy, Debug, PartialEq, Eq, Structural)]
pub enum PaneType {
    /// The file tree, at the left.
    Left,
    /// The main panel, in the middle.
    Center,
    /// The outline, at the right.
    Right,
}

/// A colour, by its red, green and blue parts.
#[derive(Clone, Copy, Debug, PartialEq, Eq, Structural)]
pub struct Rgb {
    pub red: u8,
    pub green: u8,
    pub blue: u8,
}

/// One pane as it is drawn: a container with a background that holds a
/// column with one label.
#[derive(Clone, Copy, Debug, PartialEq, Eq)]
pub struct PaneView {
    /// The pane that is drawn.
    pub kind: PaneType,
    /// The text of the label.
    pub label: &'static str,
    /// The size of the label's text, where it is not the toolkit's own.
    pub text_size: Option<u32>,
    /// The colour of the label's text.
    pub text_color: Rgb,
    /// The space between the items of the column.
    pub spacing: u32,
    /// The space around the column.
    pub padding: u16,
    /// The background of the container.
    pub background: Rgb,
    /// Whether the container takes the whole width of its pane.
    pub fill_width: bool,
    /// Whether the container takes the whole height of its pane.
    pub fill_height: bool,
}

/// The grey of the side panes' background, and of the window's.
pub open spec fn dark() -> Rgb {
    Rgb { red: 25, green: 25, blue: 25 }
}

/// The grey of the side panes' text, and of the window's.
pub open spec fn light() -> Rgb {
    Rgb { red: 200, green: 200, blue: 200 }
}

impl PaneType {
    /// The text that the pane is labelled with.
    pub open spec fn label_text(self) -> Seq<char> {
        match self {
            PaneType::Left => "Files"@,
            PaneType::Center => "Main Panel"@,
            PaneType::Right => "Outline"@,
        }
    }

    /// How the pane is drawn, but for the text of its label. The two side
    /// panes look alike; the main panel has larger and brighter text, more
    /// room and a slightly lighter background.
    pub open spec fn shown_as(self, view: PaneView) -> bool {
        &&& view.kind == self
        &&& view.label@ == self.label_text()
        &&& view.fill_width
        &&& view.fill_height
        &&& match self {
            PaneType::Center => {
                &&& view.text_size == Some(28u32)
                &&& view.text_color == Rgb { red: 220, green: 220, blue: 220 }
                &&& view.spacing == 8
                &&& view.padding == 24
                &&& view.background == Rgb { red: 30, green: 30, blue: 30 }
            },
            _ => {
                &&& view.text_size == None::<u32>
                &&& view.text_color == light()
                &&& view.spacing == 4
                &&& view.padding == 12
                &&& view.background == dark()
            },
        }
    }

    /// The text that the pane is labelled with.
    pub fn label(self) -> (text: &'static str)
        ensures
            text@ == self.label_text(),
    {
        match self {
            PaneType::Left => "Files",
            PaneType::Center => "Main Panel",
            PaneType::Right => "Outline",
        }
    }

    /// How the pane is drawn.
    pub fn appearance(self) -> (view: PaneView)
        ensures
            self.shown_as(view),
    {
        match self {
            PaneType::Center => PaneView {
                kind: self,
                label: self.label(),
                text_size: Some(28),
                text_color: Rgb { red: 220, green: 220, blue: 220 },
                spacing: 8,
                padding: 24,
                background: Rgb { red: 30, green: 30, blue: 30 },
                fill_width: true,
                fill_height: true,
            },
            _ => PaneView {
                kind: self,
                label: self.label(),
                text_size: None,
                text_color: Rgb { red: 200, green: 200, blue: 200 },
                spacing: 4,
                padding: 12,
                background: Rgb { red: 25, green: 25, blue: 25 },
                fill_width: true,
                fill_height: true,
            },
        }
    }
}

} // verus!
