use vstd::prelude::*;

verus! {

/// Where a notification is anchored on the screen.
#[derive(Clone, Copy, Debug, PartialEq, Eq, Structural)]
pub enum Position {
    TopLeft,
    Top,
    TopRight,
    Left,
    Center,
    Right,
    BottomLeft,
    Bottom,
    BottomRight,
    Default,
}

/// Distances from the anchored screen edges, in logical pixels.
#[derive(Clone, Copy, Debug, PartialEq, Eq, Structural)]
pub struct Margins {
    pub top: i32,
    pub right: i32,
    pub bottom: i32,
    pub left: i32,
}

/// The screen edges a layer surface is attached to; none means centred.
#[derive(Clone, Copy, Debug, PartialEq, Eq, Structural)]
pub struct Anchor {
    pub top: bool,
    pub bottom: bool,
    pub left: bool,
    pub right: bool,
}

pub open spec fn zero_margins() -> Margins {
    Margins { top: 0, right: 0, bottom: 0, left: 0 }
}

/// The name of the stacking class of a position, as stored in the ledger.
pub open spec fn position_key_spec(position: Position) -> Seq<char> {
    match position {
        Position::TopLeft => "top-left"@,
        Position::Top => "top"@,
        Position::TopRight => "top-right"@,
        Position::Left => "left"@,
        Position::Center => "center"@,
        Position::Right => "right"@,
        Position::BottomLeft => "bottom-left"@,
        Position::Bottom => "bottom"@,
        Position::BottomRight => "bottom-right"@,
        Position::Default => "default"@,
    }
}

/// Positions whose notifications grow upward from the bottom edge.
pub open spec fn stacks_from_bottom(position: Position) -> bool {
    position == Position::Bottom || position == Position::BottomLeft || position
        == Position::BottomRight
}

pub open spec fn anchor_spec(position: Position) -> Anchor {
    match position {
        Position::TopLeft => Anchor { top: true, bottom: false, left: true, right: false },
        Position::Top => Anchor { top: true, bottom: false, left: false, right: false },
        Position::TopRight => Anchor { top: true, bottom: false, left: false, right: true },
        Position::Left => Anchor { top: false, bottom: false, left: true, right: false },
        Position::Center => Anchor { top: false, bottom: false, left: false, right: false },
        Position::Right => Anchor { top: false, bottom: false, left: false, right: true },
        Position::BottomLeft => Anchor { top: false, bottom: true, left: true, right: false },
        Position::Bottom => Anchor { top: false, bottom: true, left: false, right: false },
        Position::BottomRight => Anchor { top: false, bottom: true, left: false, right: true },
        Position::Default => Anchor { top: true, bottom: false, left: false, right: false },
    }
}

/// The margins of an unstacked notification: `edge` on each anchored side, except
/// the default position, which sits `default_offset` below the top edge.
pub open spec fn base_margins_spec(edge: i32, default_offset: i32, position: Position) -> Margins {
    if position == Position::Default {
        Margins { top: default_offset, ..zero_margins() }
    } else {
        let a = anchor_spec(position);
        Margins {
            top: if a.top { edge } else { 0 },
            right: if a.right { edge } else { 0 },
            bottom: if a.bottom { edge } else { 0 },
            left: if a.left { edge } else { 0 },
        }
    }
}

/// The margins after moving away from the anchored edge by `offset`.
pub open spec fn stacked_margins_spec(margins: Margins, position: Position, offset: i32) -> Margins {
    if stacks_from_bottom(position) {
        Margins { bottom: (margins.bottom + offset) as i32, ..margins }
    } else {
        Margins { top: (margins.top + offset) as i32, ..margins }
    }
}

pub fn position_key(position: Position) -> (r: &'static str)
    ensures
        r@ == position_key_spec(position),
{
    match position {
        Position::TopLeft => "top-left",
        Position::Top => "top",
        Position::TopRight => "top-right",
        Position::Left => "left",
        Position::Center => "center",
        Position::Right => "right",
        Position::BottomLeft => "bottom-left",
        Position::Bottom => "bottom",
        Position::BottomRight => "bottom-right",
        Position::Default => "default",
    }
}

/// The anchor edges and base margins of a position, given the configured edge
/// distance and the offset used by the default position.
pub fn position_to_anchor(edge: i32, default_offset: i32, position: Position) -> (r: (Anchor, Margins))
    ensures
        r.0 == anchor_spec(position),
        r.1 == base_margins_spec(edge, default_offset, position),
{
    let none = Margins { top: 0, right: 0, bottom: 0, left: 0 };
    match position {
        Position::TopLeft => (
            Anchor { top: true, bottom: false, left: true, right: false },
            Margins { top: edge, left: edge, ..none },
        ),
        Position::Top => (
            Anchor { top: true, bottom: false, left: false, right: false },
            Margins { top: edge, ..none },
        ),
        Position::TopRight => (
            Anchor { top: true, bottom: false, left: false, right: true },
            Margins { top: edge, right: edge, ..none },
        ),
        Position::Left => (
            Anchor { top: false, bottom: false, left: true, right: false },
            Margins { left: edge, ..none },
        ),
        Position::Center => (Anchor { top: false, bottom: false, left: false, right: false }, none),
        Position::Right => (
            Anchor { top: false, bottom: false, left: false, right: true },
            Margins { right: edge, ..none },
        ),
        Position::BottomLeft => (
            Anchor { top: false, bottom: true, left: true, right: false },
            Margins { bottom: edge, left: edge, ..none },
        ),
        Position::Bottom => (
            Anchor { top: false, bottom: true, left: false, right: false },
            Margins { bottom: edge, ..none },
        ),
        Position::BottomRight => (
            Anchor { top: false, bottom: true, left: false, right: true },
            Margins { bottom: edge, right: edge, ..none },
        ),
        Position::Default => (
            Anchor { top: true, bottom: false, left: false, right: false },
            Margins { top: default_offset, ..none },
        ),
    }
}

/// Moves a notification away from its anchored edge by its stacking offset:
/// the bottom margin for bottom positions, the top margin for all others.
pub fn apply_stack_offset(margins: Margins, position: Position, offset: i32) -> (r: Margins)
    requires
        stacks_from_bottom(position) ==> i32::MIN <= margins.bottom + offset <= i32::MAX,
        !stacks_from_bottom(position) ==> i32::MIN <= margins.top + offset <= i32::MAX,
    ensures
        r == stacked_margins_spec(margins, position, offset),
{
    let mut out = margins;
    match position {
        Position::Bottom | Position::BottomLeft | Position::BottomRight => {
            out.bottom = margins.bottom + offset;
        },
        _ => {
            out.top = margins.top + offset;
        },
    }
    out
}

} // verus!
