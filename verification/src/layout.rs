//! Splitting a screen area into rows or columns.

use crate::geometry::Rect;
use ratatui::layout::{Constraint as SolverConstraint, Direction as SolverDirection, Layout};
use vstd::prelude::*;

verus! {

/// The axis along which an area is split.
#[derive(Clone, Copy, Debug, PartialEq, Eq, Structural)]
pub enum Direction {
    Horizontal,
    Vertical,
}

/// What one part of a split asks for along the axis of the split.
#[derive(Clone, Copy, Debug, PartialEq, Eq, Structural)]
pub enum Constraint {
    /// Exactly this many cells.
    Length(u16),
    /// This share of the whole, in hundredths.
    Percentage(u16),
    /// At least this many cells.
    Min(u16),
}

/// Whether `parts` are parts of `area` split along `direction`: every part
/// spans the whole of `area` across the axis of the split.
pub open spec fn spans_across(direction: Direction, area: Rect, parts: Seq<Rect>) -> bool {
    forall|i: int|
        0 <= i < parts.len() ==> match direction {
            Direction::Vertical => (#[trigger] parts[i]).x == area.x && parts[i].width
                == area.width,
            Direction::Horizontal => parts[i].y == area.y && parts[i].height == area.height,
        }
}

/// Whether every part lies inside `area` along the axis of the split: it
/// starts at or after the start of `area` and ends at or before its end.
pub open spec fn lie_inside(direction: Direction, area: Rect, parts: Seq<Rect>) -> bool {
    forall|i: int|
        0 <= i < parts.len() ==> match direction {
            Direction::Vertical => area.y <= (#[trigger] parts[i]).y && parts[i].y
                + parts[i].height <= area.spec_bottom(),
            Direction::Horizontal => area.x <= parts[i].x && parts[i].x + parts[i].width
                <= area.spec_right(),
        }
}

/// Whether `part` is a row of `area`: as wide as `area`, and inside it from
/// top to bottom.
pub open spec fn is_row_of(part: Rect, area: Rect) -> bool {
    &&& part.x == area.x && part.width == area.width
    &&& area.y <= part.y && part.y + part.height <= area.spec_bottom()
}

/// Where `rect` starts along the axis of a split.
pub open spec fn start_along(direction: Direction, rect: Rect) -> int {
    match direction {
        Direction::Vertical => rect.y as int,
        Direction::Horizontal => rect.x as int,
    }
}

/// How far `rect` reaches along the axis of a split.
pub open spec fn size_along(direction: Direction, rect: Rect) -> int {
    match direction {
        Direction::Vertical => rect.height as int,
        Direction::Horizontal => rect.width as int,
    }
}

/// How much room `area` has along the axis of a split.
pub open spec fn room_along(direction: Direction, area: Rect) -> int {
    match direction {
        Direction::Vertical => area.spec_rows(),
        Direction::Horizontal => area.spec_columns(),
    }
}

/// Whether every constraint asks for a length, for a share, or for whatever
/// is left (`Min(0)`).
pub open spec fn is_plain(constraints: Seq<Constraint>) -> bool {
    forall|i: int|
        0 <= i < constraints.len() ==> (#[trigger] constraints[i]) is Length || constraints[i]
            is Percentage || constraints[i] == Constraint::Min(0)
}

/// The sum of the lengths that the constraints ask for.
pub open spec fn lengths(constraints: Seq<Constraint>) -> int
    decreases constraints.len(),
{
    if constraints.len() == 0 {
        0
    } else {
        lengths(constraints.drop_last()) + match constraints.last() {
            Constraint::Length(cells) => cells as int,
            _ => 0,
        }
    }
}

/// The sum of the shares that the constraints ask for, in hundredths.
pub open spec fn shares(constraints: Seq<Constraint>) -> int
    decreases constraints.len(),
{
    if constraints.len() == 0 {
        0
    } else {
        shares(constraints.drop_last()) + match constraints.last() {
            Constraint::Percentage(hundredths) => hundredths as int,
            _ => 0,
        }
    }
}

/// The number of constraints that ask for something other than a length.
pub open spec fn others(constraints: Seq<Constraint>) -> int
    decreases constraints.len(),
{
    if constraints.len() == 0 {
        0
    } else {
        others(constraints.drop_last()) + if constraints.last() is Length {
            0int
        } else {
            1int
        }
    }
}

/// Whether the constraints are lengths but for one, which takes what the
/// lengths leave: the whole (`Percentage` of a hundred or more) or whatever
/// is left (`Min(0)`).
pub open spec fn has_one_filler(constraints: Seq<Constraint>) -> bool {
    &&& others(constraints) == 1
    &&& forall|i: int|
        0 <= i < constraints.len() ==> match #[trigger] constraints[i] {
            Constraint::Length(_) => true,
            Constraint::Percentage(hundredths) => hundredths >= 100,
            Constraint::Min(cells) => cells == 0,
        }
}

/// Whether every constraint asks for a share.
pub open spec fn all_shares(constraints: Seq<Constraint>) -> bool {
    forall|i: int| 0 <= i < constraints.len() ==> (#[trigger] constraints[i]) is Percentage
}

/// Whether the parts are laid end to end from the start of `area`: the first
/// part starts where `area` starts, and every other part where the part
/// before it ends.
pub open spec fn end_to_end(direction: Direction, area: Rect, parts: Seq<Rect>) -> bool {
    &&& parts.len() > 0 ==> start_along(direction, parts[0]) == start_along(direction, area)
    &&& forall|i: int|
        0 <= i < parts.len() - 1 ==> start_along(direction, #[trigger] parts[i + 1])
            == start_along(direction, parts[i]) + size_along(direction, parts[i])
}

/// Whether every part that was asked to have a length has it.
pub open spec fn lengths_kept(direction: Direction, constraints: Seq<Constraint>, parts: Seq<Rect>)
    -> bool {
    forall|i: int|
        0 <= i < constraints.len() && 0 <= i < parts.len() ==> (
        #[trigger] constraints[i] matches Constraint::Length(cells) ==> size_along(
            direction,
            parts[i],
        ) == cells)
}

/// Whether the last part ends where `area` ends.
pub open spec fn reaches_end(direction: Direction, area: Rect, parts: Seq<Rect>) -> bool {
    parts.len() > 0 ==> start_along(direction, parts.last()) + size_along(direction, parts.last())
        == start_along(direction, area) + room_along(direction, area)
}

/// Whether every part ends where the shares up to it end: at the share of
/// the room of `area`, rounded to the nearest cell, halves upwards.
pub open spec fn shares_kept(
    direction: Direction,
    constraints: Seq<Constraint>,
    area: Rect,
    parts: Seq<Rect>,
) -> bool {
    forall|i: int|
        0 <= i < parts.len() ==> start_along(direction, #[trigger] parts[i]) + size_along(
            direction,
            parts[i],
        ) == start_along(direction, area) + (room_along(direction, area) * shares(
            constraints.take(i + 1),
        ) + 50) / 100
}

/// What ratatui's layout gives where the constraints do not compete for room
/// that is not there:
///
/// - Constraints that ask for lengths, shares or whatever is left are laid
///   end to end from the start of the area.
/// - Where the lengths fit into the area, every part that was asked to have a
///   length has it.
/// - Where the lengths fit and one constraint takes what they leave, the last
///   part ends where the area ends.
/// - Shares that add up to no more than the whole are handed out as they were
///   asked for, each part ending at its share of the room.
pub open spec fn follows_wishes(
    direction: Direction,
    constraints: Seq<Constraint>,
    area: Rect,
    parts: Seq<Rect>,
) -> bool {
    let fit = lengths(constraints) <= room_along(direction, area);
    &&& is_plain(constraints) ==> end_to_end(direction, area, parts)
    &&& is_plain(constraints) && fit ==> lengths_kept(direction, constraints, parts)
    &&& has_one_filler(constraints) && fit ==> reaches_end(direction, area, parts)
    &&& all_shares(constraints) && shares(constraints) <= 100 ==> shares_kept(
        direction,
        constraints,
        area,
        parts,
    )
}

/// Calls ratatui's `Layout::new(direction, constraints).split(area)`, with
/// the layout's default margin, spacing and flex. The solver returns one
/// rectangle for each constraint, in their order. Each takes its position and
/// extent across the axis of the split from `area`, and lies between the
/// start and the end of `area` along the axis, which the solver holds every
/// part to.
///
/// Where along the axis the parts lie is stated for the cases that
/// `follows_wishes` names, as ratatui documents them: the default flex aligns
/// the parts to the start, the default spacing leaves nothing between them,
/// a `Length` sets the size of its part and goes before a `Percentage`, a
/// `Percentage` is that share of the whole area, rounded to cells when the
/// parts are cut, and a `Min` part grows into what is left. For constraints
/// that compete for room that is not there the solver's choice is not stated.
#[verifier::external_body]
pub(crate) fn split(direction: Direction, constraints: &Vec<Constraint>, area: Rect) -> (parts:
    Vec<Rect>)
    ensures
        parts@.len() == constraints@.len(),
        spans_across(direction, area, parts@),
        lie_inside(direction, area, parts@),
        follows_wishes(direction, constraints@, area, parts@),
{
    let direction = match direction {
        Direction::Horizontal => SolverDirection::Horizontal,
        Direction::Vertical => SolverDirection::Vertical,
    };
    let constraints = constraints.iter().map(|c| match *c {
        Constraint::Length(n) => SolverConstraint::Length(n),
        Constraint::Percentage(n) => SolverConstraint::Percentage(n),
        Constraint::Min(n) => SolverConstraint::Min(n),
    });
    let area = ratatui::layout::Rect { x: area.x, y: area.y, width: area.width, height: area.height };
    let parts = Layout::new(direction, constraints).split(area);
    parts.iter().map(|r| Rect { x: r.x, y: r.y, width: r.width, height: r.height }).collect()
}

} // verus!
