//! The toolkit's pane grid, as far as this library relies on it.
//!
//! Nothing in this file is proved. It declares the toolkit's types, gives
//! names to what a grid holds, and states of each toolkit call what its source
//! shows. Everything else in the library is verified against these statements.
//!
//! A grid is described by three things: the contents of its panes, its layout
//! tree, and the counter from which it draws new identifiers. The layout tree
//! is written down in pre-order: a split comes first, then everything on its
//! first side (left or top), then everything on its second side. Every split
//! has exactly two sides, so the sequence determines the tree.
//!
//! A ratio is carried as the 32 bits of its IEEE 754 single-precision
//! encoding, which identifies it exactly.

use vstd::prelude::*;
use iced::widget::pane_grid;
use crate::pane::PaneType;

verus! {

/// `iced::widget::pane_grid::State`: the panes of a grid and their layout.
#[verifier::external_type_specification]
#[verifier::external_body]
#[verifier::reject_recursive_types(T)]
pub struct ExGrid<T>(pane_grid::State<T>);

/// `iced::widget::pane_grid::Pane`: the identifier of a pane.
#[verifier::external_type_specification]
#[verifier::external_body]
pub struct ExPane(pane_grid::Pane);

/// `iced::widget::pane_grid::Split`: the identifier of a split.
#[verifier::external_type_specification]
#[verifier::external_body]
pub struct ExSplit(pane_grid::Split);

/// `iced::widget::pane_grid::ResizeEvent`: a split and the ratio it is dragged to.
#[verifier::external_type_specification]
#[verifier::external_body]
pub struct ExResizeEvent(pane_grid::ResizeEvent);

/// `iced::widget::pane_grid::Axis`: the direction of a split, with its two variants.
#[verifier::external_type_specification]
pub struct ExAxis(pane_grid::Axis);

/// The encoding of the ratio one half, which the toolkit gives to every new split.
pub const HALF: u32 = 0x3F00_0000;

/// One node of a layout tree.
pub enum Slot {
    /// A leaf: the region is taken by this pane.
    Pane(pane_grid::Pane),
    /// A split of the region in two, along `axis`, at `ratio`.
    Split { id: pane_grid::Split, axis: pane_grid::Axis, ratio: u32 },
}

/// The number that identifies a pane: the field of `Pane`.
pub uninterp spec fn pane_index(pane: pane_grid::Pane) -> nat;

/// The number that identifies a split: the field of `Split`.
pub uninterp spec fn split_index(split: pane_grid::Split) -> nat;

/// The split that a resize event names: its field `split`.
pub uninterp spec fn event_split(event: pane_grid::ResizeEvent) -> pane_grid::Split;

/// The encoding of the ratio that a resize event carries: its field `ratio`.
pub uninterp spec fn event_ratio(event: pane_grid::ResizeEvent) -> u32;

/// What each pane of the grid shows: the field `panes` of `State`.
pub uninterp spec fn grid_contents(grid: pane_grid::State<PaneType>) -> Map<pane_grid::Pane, PaneType>;

/// The layout tree of the grid, in pre-order: what `State::layout` returns.
pub uninterp spec fn grid_layout(grid: pane_grid::State<PaneType>) -> Seq<Slot>;

/// The last identifier that the grid has handed out: its private counter `last_id`.
pub uninterp spec fn grid_last_id(grid: pane_grid::State<PaneType>) -> nat;

/// The encoding of the ratio that a decimal text denotes, if it denotes one:
/// what `str::parse` returns for it.
pub uninterp spec fn decimal_ratio(text: Seq<char>) -> Option<u32>;

/// `at` is the first position of `layout` that holds the pane `pane`.
pub open spec fn first_pane_at(layout: Seq<Slot>, pane: pane_grid::Pane, at: int) -> bool {
    &&& 0 <= at < layout.len()
    &&& layout[at] == Slot::Pane(pane)
    &&& forall|j: int| 0 <= j < at ==> #[trigger] layout[j] != Slot::Pane(pane)
}

/// `slot` is a split, and `split` is its identifier.
pub open spec fn is_split(slot: Slot, split: pane_grid::Split) -> bool {
    slot matches Slot::Split { id, .. } && id == split
}

/// `at` is the first position of `layout` that holds the split `split`.
pub open spec fn first_split_at(layout: Seq<Slot>, split: pane_grid::Split, at: int) -> bool {
    &&& 0 <= at < layout.len()
    &&& is_split(layout[at], split)
    &&& forall|j: int| 0 <= j < at ==> !is_split(#[trigger] layout[j], split)
}

/// The layout in which the leaf at `at`, which holds `pane`, has become a new
/// split at one half, with `pane` on its first side and `new_pane` on its second.
pub open spec fn divided(
    layout: Seq<Slot>,
    at: int,
    pane: pane_grid::Pane,
    split: pane_grid::Split,
    axis: pane_grid::Axis,
    new_pane: pane_grid::Pane,
) -> Seq<Slot> {
    layout.subrange(0, at) + seq![
        Slot::Split { id: split, axis, ratio: HALF },
        Slot::Pane(pane),
        Slot::Pane(new_pane),
    ] + layout.subrange(at + 1, layout.len() as int)
}

/// The layout in which the first split named `split` has the ratio `ratio`,
/// and every other node is as it was.
pub open spec fn resized(layout: Seq<Slot>, split: pane_grid::Split, ratio: u32) -> Seq<Slot> {
    Seq::new(
        layout.len(),
        |i: int|
            match layout[i] {
                Slot::Split { id, axis, ratio: _ } if first_split_at(layout, split, i) => Slot::Split {
                    id,
                    axis,
                    ratio,
                },
                slot => slot,
            },
    )
}

/// `State::new`: a grid of one pane. The pane has the identifier 0, shows
/// `first`, and is the whole layout; the counter stands at 1.
#[verifier::external_body]
pub(crate) fn grid_new(first: PaneType) -> (r: (pane_grid::State<PaneType>, pane_grid::Pane))
    ensures
        pane_index(r.1) == 0,
        grid_contents(r.0) == Map::<pane_grid::Pane, PaneType>::empty().insert(r.1, first),
        grid_layout(r.0) == seq![Slot::Pane(r.1)],
        grid_last_id(r.0) == 1,
{
    pane_grid::State::new(first)
}

/// `State::split`: divides the first leaf that holds `pane`. It succeeds when
/// there is such a leaf and the counter can be raised twice. The new pane and
/// the new split get the next two identifiers; the new pane shows `content`;
/// the leaf becomes a split at one half with `pane` first and the new pane
/// second. When it fails, contents and layout are as they were.
#[verifier::external_body]
pub(crate) fn grid_split(
    grid: &mut pane_grid::State<PaneType>,
    axis: pane_grid::Axis,
    pane: pane_grid::Pane,
    content: PaneType,
) -> (r: Option<(pane_grid::Pane, pane_grid::Split)>)
    ensures
        r is Some <==> grid_layout(*old(grid)).contains(Slot::Pane(pane)) && grid_last_id(
            *old(grid),
        ) + 2 <= usize::MAX,
        r matches Some((new_pane, new_split)) ==> {
            &&& pane_index(new_pane) == grid_last_id(*old(grid)) + 1
            &&& split_index(new_split) == grid_last_id(*old(grid)) + 2
            &&& grid_last_id(*final(grid)) == grid_last_id(*old(grid)) + 2
            &&& grid_contents(*final(grid)) == grid_contents(*old(grid)).insert(new_pane, content)
            &&& exists|at: int|
                first_pane_at(grid_layout(*old(grid)), pane, at) && grid_layout(*final(grid))
                    == divided(grid_layout(*old(grid)), at, pane, new_split, axis, new_pane)
        },
        r is None ==> {
            &&& grid_contents(*final(grid)) == grid_contents(*old(grid))
            &&& grid_layout(*final(grid)) == grid_layout(*old(grid))
        },
{
    grid.split(axis, pane, content)
}

/// `State::resize`, with the split and the ratio of `event`: the first split
/// of the layout that has this identifier takes the ratio. Nothing else
/// changes; a split that the layout does not hold changes nothing.
#[verifier::external_body]
pub(crate) fn grid_resize(grid: &mut pane_grid::State<PaneType>, event: pane_grid::ResizeEvent)
    ensures
        grid_layout(*final(grid)) == resized(
            grid_layout(*old(grid)),
            event_split(event),
            event_ratio(event),
        ),
        grid_contents(*final(grid)) == grid_contents(*old(grid)),
        grid_last_id(*final(grid)) == grid_last_id(*old(grid)),
    no_unwind
{
    grid.resize(event.split, event.ratio);
}

/// `str::parse`, read as a ratio: where the text denotes one, the event that
/// drags `split` to it; where it does not, nothing.
#[verifier::external_body]
pub(crate) fn resize_event(split: pane_grid::Split, ratio: &str) -> (r: Option<
    pane_grid::ResizeEvent,
>)
    ensures
        match decimal_ratio(ratio@) {
            Some(bits) => r matches Some(event) && event_split(event) == split && event_ratio(event)
                == bits,
            None => r is None,
        },
{
    match ratio.parse() {
        Ok(ratio) => Some(pane_grid::ResizeEvent { split, ratio }),
        Err(_) => None,
    }
}

/// `State::iter`: the panes of the grid with what they show, each pane once,
/// in the order of their identifiers, smallest first.
#[verifier::external_body]
pub(crate) fn grid_entries(grid: &pane_grid::State<PaneType>) -> (r: Vec<
    (pane_grid::Pane, PaneType),
>)
    ensures
        forall|i: int|
            0 <= i < r.len() ==> grid_contents(*grid).contains_pair((#[trigger] r[i]).0, r[i].1),
        forall|pane: pane_grid::Pane| #[trigger]
            grid_contents(*grid).contains_key(pane) ==> exists|i: int|
                0 <= i < r.len() && (#[trigger] r[i]).0 == pane,
        forall|i: int, j: int|
            0 <= i < j < r.len() ==> pane_index((#[trigger] r[i]).0) < pane_index(
                (#[trigger] r[j]).0,
            ),
{
    grid.iter().map(|(pane, content)| (*pane, *content)).collect()
}

} // verus!
