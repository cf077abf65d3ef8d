//! The state of the window: a grid of three panes in a row.

use vstd::prelude::*;
use iced::widget::pane_grid;
use crate::grid::{
    event_split, resized,
    decimal_ratio, divided, event_ratio, first_pane_at, first_split_at, grid_contents, grid_layout, grid_new, grid_resize, grid_split, pane_index,
    resize_event, split_index, Slot, HALF,
};
use crate::pane::PaneType;

verus! {

/// The decimal text of the ratio at which the boundary between the left and
/// the centre pane starts.
pub const LEFT_RATIO: &'static str = "0.2";

/// What the toolkit tells the window.
#[derive(Clone, Copy, Debug)]
pub enum Message {
    /// A boundary between two panes was dragged.
    PaneResized(pane_grid::ResizeEvent),
}

/// The state of the window.
pub struct AppState {
    panes: pane_grid::State<PaneType>,
}

/// What a grid holds, as the contracts of this library see it.
pub struct Arrangement {
    /// The layout tree, in pre-order.
    pub layout: Seq<Slot>,
    /// What each pane shows.
    pub contents: Map<pane_grid::Pane, PaneType>,
}

impl Message {
    /// The boundary that the message is about.
    pub open spec fn split(self) -> pane_grid::Split {
        match self {
            Message::PaneResized(event) => event_split(event),
        }
    }

    /// The ratio that the message brings.
    pub open spec fn ratio(self) -> u32 {
        match self {
            Message::PaneResized(event) => event_ratio(event),
        }
    }
}

impl Arrangement {
    /// The panes of a row, from left to right.
    pub open spec fn panes(self) -> Seq<pane_grid::Pane> {
        seq![self.layout[1]->Pane_0, self.layout[3]->Pane_0, self.layout[4]->Pane_0]
    }

    /// The arrangement after `message` has been handled.
    pub open spec fn after(self, message: Message) -> Arrangement {
        Arrangement {
            layout: resized(self.layout, message.split(), message.ratio()),
            contents: self.contents,
        }
    }

    /// Handling a message keeps a row of three panes a row of the same three
    /// panes with the same two boundaries, gives the boundary that the
    /// message names the ratio that it brings, and leaves the other ratio.
    pub proof fn after_in_row(self, message: Message)
        requires
            self.is_row(),
        ensures
            self.after(message).is_row(),
            self.after(message).panes() == self.panes(),
            self.after(message).left_split() == self.left_split(),
            self.after(message).right_split() == self.right_split(),
            self.after(message).left_ratio() == (if message.split() == self.left_split() {
                message.ratio()
            } else {
                self.left_ratio()
            }),
            self.after(message).right_ratio() == (if message.split() == self.right_split() {
                message.ratio()
            } else {
                self.right_ratio()
            }),
    {
        let split = message.split();
        assert(first_split_at(self.layout, split, 0) <==> split == self.left_split());
        assert(first_split_at(self.layout, split, 2) <==> split == self.right_split());
    }

    /// Three panes side by side: a vertical split with the left pane on its
    /// first side and, on its second side, a vertical split between the
    /// centre pane and the right pane.
    pub open spec fn is_row(self) -> bool {
        &&& self.layout.len() == 5
        &&& self.layout[0] matches Slot::Split { id: outer, axis: pane_grid::Axis::Vertical, .. }
        &&& self.layout[1] matches Slot::Pane(left)
        &&& self.layout[2] matches Slot::Split { id: inner, axis: pane_grid::Axis::Vertical, .. }
        &&& self.layout[3] matches Slot::Pane(center)
        &&& self.layout[4] matches Slot::Pane(right)
        &&& split_index(outer) < split_index(inner)
        &&& pane_index(left) < pane_index(center) < pane_index(right)
        &&& self.contents == Map::<pane_grid::Pane, PaneType>::empty().insert(
            left,
            PaneType::Left,
        ).insert(center, PaneType::Center).insert(right, PaneType::Right)
    }

    /// The boundary between the left and the centre pane.
    pub open spec fn left_split(self) -> pane_grid::Split {
        self.layout[0]->id
    }

    /// The boundary between the centre and the right pane.
    pub open spec fn right_split(self) -> pane_grid::Split {
        self.layout[2]->id
    }

    /// The ratio of the boundary between the left and the centre pane.
    pub open spec fn left_ratio(self) -> u32 {
        self.layout[0]->ratio
    }

    /// The ratio of the boundary between the centre and the right pane.
    pub open spec fn right_ratio(self) -> u32 {
        self.layout[2]->ratio
    }
}

/// The ratio at which the left boundary starts: the one that `LEFT_RATIO`
/// denotes, or the toolkit's one half if it denoted none.
pub open spec fn initial_left_ratio() -> u32 {
    match decimal_ratio(LEFT_RATIO@) {
        Some(bits) => bits,
        None => HALF,
    }
}

impl View for AppState {
    type V = Arrangement;

    open spec fn view(&self) -> Arrangement {
        Arrangement { layout: grid_layout(self.grid()), contents: grid_contents(self.grid()) }
    }
}

impl AppState {
    #[verifier::type_invariant]
    spec fn three_panes(self) -> bool {
        self@.is_row()
    }

    /// The grid of the toolkit that this state holds.
    pub closed spec fn grid(self) -> pane_grid::State<PaneType> {
        self.panes
    }

    /// The grid, for the widget that draws it. It is a row of three panes,
    /// as the grid of every state is.
    pub fn panes(&self) -> (grid: &pane_grid::State<PaneType>)
        ensures
            *grid == self.grid(),
            self@.is_row(),
    {
        proof {
            use_type_invariant(self);
        }
        &self.panes
    }
}

impl Default for AppState {
    /// The state at start: the left pane, the centre pane split off from it,
    /// the right pane split off from the centre pane, and the left boundary
    /// moved to its initial ratio.
    fn default() -> (state: AppState)
        ensures
            state@.is_row(),
            state@.left_ratio() == initial_left_ratio(),
            state@.right_ratio() == HALF,
    {
        let (mut panes, left) = grid_new(PaneType::Left);
        let ghost one = grid_layout(panes);
        assert(one[0] == Slot::Pane(left));
        let (center, split1) = grid_split(
            &mut panes,
            pane_grid::Axis::Vertical,
            left,
            PaneType::Center,
        ).unwrap();
        let ghost two = grid_layout(panes);
        proof {
            let at = choose|at: int|
                first_pane_at(one, left, at) && two == divided(
                    one,
                    at,
                    left,
                    split1,
                    pane_grid::Axis::Vertical,
                    center,
                );
            assert(at == 0);
            assert(two =~= seq![
                Slot::Split { id: split1, axis: pane_grid::Axis::Vertical, ratio: HALF },
                Slot::Pane(left),
                Slot::Pane(center),
            ]);
            assert(two[2] == Slot::Pane(center));
        }
        let (right, split2) = grid_split(
            &mut panes,
            pane_grid::Axis::Vertical,
            center,
            PaneType::Right,
        ).unwrap();
        let ghost three = grid_layout(panes);
        proof {
            let at = choose|at: int|
                first_pane_at(two, center, at) && three == divided(
                    two,
                    at,
                    center,
                    split2,
                    pane_grid::Axis::Vertical,
                    right,
                );
            assert(two[1] != Slot::Pane(center));
            assert(at == 2);
            assert(three =~= seq![
                Slot::Split { id: split1, axis: pane_grid::Axis::Vertical, ratio: HALF },
                Slot::Pane(left),
                Slot::Split { id: split2, axis: pane_grid::Axis::Vertical, ratio: HALF },
                Slot::Pane(center),
                Slot::Pane(right),
            ]);
        }
        match resize_event(split1, LEFT_RATIO) {
            Some(event) => {
                grid_resize(&mut panes, event);
                proof {
                    assert(first_split_at(three, split1, 0));
                    assert(!first_split_at(three, split1, 2));
                    assert(grid_layout(panes) =~= seq![
                        Slot::Split {
                            id: split1,
                            axis: pane_grid::Axis::Vertical,
                            ratio: event_ratio(event),
                        },
                        Slot::Pane(left),
                        Slot::Split { id: split2, axis: pane_grid::Axis::Vertical, ratio: HALF },
                        Slot::Pane(center),
                        Slot::Pane(right),
                    ]);
                }
            },
            None => {},
        }
        AppState { panes }
    }
}

/// Handles a message: a dragged boundary takes the ratio it was dragged to.
///
/// The layout changes as the toolkit's resize changes it, and the panes stay.
/// So the state is still the row of three panes, with the same panes and the
/// same boundaries. A boundary of the row that the event names reports the
/// event's ratio afterwards, and the other one its old ratio; an event that
/// names neither changes nothing.
pub fn update(state: &mut AppState, message: Message)
    ensures
        final(state)@ == old(state)@.after(message),
        final(state)@.is_row(),
        final(state)@.contents == old(state)@.contents,
        final(state)@.panes() == old(state)@.panes(),
        final(state)@.left_split() == old(state)@.left_split(),
        final(state)@.right_split() == old(state)@.right_split(),
        final(state)@.left_ratio() == (if message.split() == old(state)@.left_split() {
            message.ratio()
        } else {
            old(state)@.left_ratio()
        }),
        final(state)@.right_ratio() == (if message.split() == old(state)@.right_split() {
            message.ratio()
        } else {
            old(state)@.right_ratio()
        }),
{
    proof {
        use_type_invariant(&*state);
        old(state)@.after_in_row(message);
    }
    match message {
        Message::PaneResized(event) => {
            grid_resize(&mut state.panes, event);
        },
    }
}

} // verus!
