use iced::widget::pane_grid::{Axis, Node, Pane, ResizeEvent, Split, State};
use iced::Size;
use rustmd::pane::PaneType;
use rustmd::state::{update, AppState, Message, LEFT_RATIO};

/// The row as the toolkit holds it: boundaries, ratios and panes, left to right.
struct Row {
    left_split: Split,
    left_ratio: f32,
    right_split: Split,
    right_ratio: f32,
    panes: [Pane; 3],
}

fn row(state: &AppState) -> Row {
    let Node::Split { id: left_split, axis, ratio: left_ratio, a, b } = state.panes().layout()
    else {
        panic!("the layout is a single pane");
    };
    assert_eq!(*axis, Axis::Vertical);
    let Node::Pane(left) = **a else {
        panic!("the first side of the outer split is split");
    };
    let Node::Split { id: right_split, axis, ratio: right_ratio, a, b } = &**b else {
        panic!("the second side of the outer split is a single pane");
    };
    assert_eq!(*axis, Axis::Vertical);
    let (Node::Pane(center), Node::Pane(right)) = (&**a, &**b) else {
        panic!("the inner split holds a split");
    };
    Row {
        left_split: *left_split,
        left_ratio: *left_ratio,
        right_split: *right_split,
        right_ratio: *right_ratio,
        panes: [left, *center, *right],
    }
}

fn resize(state: &mut AppState, split: Split, ratio: f32) {
    update(state, Message::PaneResized(ResizeEvent { split, ratio }));
}

/// A split of some other grid, which the window's grid does not hold.
fn foreign_split() -> Split {
    let (mut other, mut pane) = State::new(());
    let mut split = None;
    for _ in 0..4 {
        let (next, made) = other.split(Axis::Horizontal, pane, ()).unwrap();
        pane = next;
        split = Some(made);
    }
    split.unwrap()
}

#[test]
fn starts_with_three_panes_left_center_right() {
    let state = AppState::default();
    assert_eq!(state.panes().len(), 3);
    let row = row(&state);
    assert_eq!(state.panes().get(row.panes[0]), Some(&PaneType::Left));
    assert_eq!(state.panes().get(row.panes[1]), Some(&PaneType::Center));
    assert_eq!(state.panes().get(row.panes[2]), Some(&PaneType::Right));
    assert_ne!(row.left_split, row.right_split);
}

#[test]
fn starts_with_the_left_boundary_at_one_fifth() {
    let state = AppState::default();
    assert_eq!(row(&state).left_ratio, 0.2);
    assert_eq!(LEFT_RATIO, "0.2");
}

#[test]
fn starts_with_the_right_boundary_at_one_half() {
    let state = AppState::default();
    assert_eq!(row(&state).right_ratio, 0.5);
    assert_eq!(rustmd::grid::HALF, 0.5f32.to_bits());
}

#[test]
fn panes_are_walked_from_left_to_right() {
    let state = AppState::default();
    let row = row(&state);
    let walked: Vec<(Pane, PaneType)> =
        state.panes().iter().map(|(pane, kind)| (*pane, *kind)).collect();
    assert_eq!(
        walked,
        vec![
            (row.panes[0], PaneType::Left),
            (row.panes[1], PaneType::Center),
            (row.panes[2], PaneType::Right),
        ]
    );
}

#[test]
fn resizing_the_left_boundary_sets_its_ratio_only() {
    let mut state = AppState::default();
    let before = row(&state);
    resize(&mut state, before.left_split, 0.35);
    let after = row(&state);
    assert_eq!(after.left_ratio, 0.35);
    assert_eq!(after.right_ratio, before.right_ratio);
}

#[test]
fn resizing_the_right_boundary_sets_its_ratio_only() {
    let mut state = AppState::default();
    let before = row(&state);
    resize(&mut state, before.right_split, 0.75);
    let after = row(&state);
    assert_eq!(after.right_ratio, 0.75);
    assert_eq!(after.left_ratio, 0.2);
}

#[test]
fn resizing_takes_the_ends_of_the_range() {
    let mut state = AppState::default();
    let split = row(&state).left_split;
    resize(&mut state, split, 0.0);
    assert_eq!(row(&state).left_ratio, 0.0);
    resize(&mut state, split, 1.0);
    assert_eq!(row(&state).left_ratio, 1.0);
}

#[test]
fn the_last_resize_of_a_boundary_wins() {
    let mut state = AppState::default();
    let before = row(&state);
    resize(&mut state, before.left_split, 0.6);
    resize(&mut state, before.right_split, 0.3);
    resize(&mut state, before.left_split, 0.25);
    let after = row(&state);
    assert_eq!(after.left_ratio, 0.25);
    assert_eq!(after.right_ratio, 0.3);
}

#[test]
fn resizing_keeps_the_panes_and_the_boundaries() {
    let mut state = AppState::default();
    let before = row(&state);
    resize(&mut state, before.left_split, 0.9);
    resize(&mut state, before.right_split, 0.1);
    let after = row(&state);
    assert_eq!(state.panes().len(), 3);
    assert_eq!(after.panes, before.panes);
    assert_eq!(after.left_split, before.left_split);
    assert_eq!(after.right_split, before.right_split);
    assert_eq!(state.panes().get(after.panes[0]), Some(&PaneType::Left));
    assert_eq!(state.panes().get(after.panes[1]), Some(&PaneType::Center));
    assert_eq!(state.panes().get(after.panes[2]), Some(&PaneType::Right));
}

#[test]
fn resizing_a_boundary_of_another_grid_changes_nothing() {
    let mut state = AppState::default();
    let before = row(&state);
    let split = foreign_split();
    assert_ne!(split, before.left_split);
    assert_ne!(split, before.right_split);
    resize(&mut state, split, 0.8);
    let after = row(&state);
    assert_eq!(after.left_ratio, 0.2);
    assert_eq!(after.right_ratio, 0.5);
    assert_eq!(after.panes, before.panes);
}

#[test]
fn left_pane_takes_a_fifth_then_thirty_five_percent_of_the_width() {
    let mut state = AppState::default();
    let start = row(&state);
    assert_eq!(start.left_ratio, 0.2);
    let regions = state.panes().layout().pane_regions(0.0, 0.0, Size::new(800.0, 600.0));
    assert_eq!(regions[&start.panes[0]].width, 160.0);
    assert_eq!(regions[&start.panes[1]].width, 320.0);
    assert_eq!(regions[&start.panes[2]].width, 320.0);

    resize(&mut state, start.left_split, 0.35);
    let regions = state.panes().layout().pane_regions(0.0, 0.0, Size::new(800.0, 600.0));
    assert_eq!(regions[&start.panes[0]].x, 0.0);
    assert_eq!(regions[&start.panes[0]].width, 280.0);
    assert_eq!(regions[&start.panes[0]].height, 600.0);
    assert_eq!(regions[&start.panes[1]].x, 280.0);
    assert_eq!(regions[&start.panes[1]].width, 260.0);
    assert_eq!(regions[&start.panes[2]].x, 540.0);
    assert_eq!(regions[&start.panes[2]].width, 260.0);
}
