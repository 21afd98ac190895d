//! The position grid: nine named cells laid out as a 3x3 grid, a lookup
//! table from cell to 2-D world offset, and the adjacency table that says
//! which cell a directional move leads to.

use vstd::prelude::*;

verus! {

/// One world unit, in the fixed-point coordinates used throughout the
/// crate: every coordinate is a whole number of thousandths of a unit.
pub const MILLI: i64 = 1000;

/// Spacing between neighbouring grid cells: 3 world units.
pub const CELL_SPACING: i64 = 3000;

/// A discrete move request, one of the four cardinal directions.
#[derive(Clone, Copy, PartialEq, Eq, Structural, Debug)]
pub enum Direction {
    Up,
    Down,
    Left,
    Right,
}

/// One of the nine named cells of the 3x3 grid.
#[derive(Clone, Copy, PartialEq, Eq, Structural, Debug)]
pub enum Position {
    TopCenter,
    BottomCenter,
    Center,
    TopLeft,
    BottomLeft,
    Left,
    TopRight,
    BottomRight,
    Right,
}

/// A 2-D offset in the grid plane, in thousandths of a world unit.
#[derive(Clone, Copy, PartialEq, Eq, Structural, Debug)]
pub struct Vec2i {
    pub x: i64,
    pub y: i64,
}

/// The fixed offset of each cell: columns at x in {-3, 0, 3} units and rows
/// at y in {-3, 0, 3} units, with `Center` at the origin.  Each of the nine
/// cells has a distinct offset.
pub open spec fn grid_offset(p: Position) -> Vec2i {
    match p {
        Position::TopLeft => (Vec2i { x: (-CELL_SPACING) as i64, y: CELL_SPACING }),
        Position::TopCenter => (Vec2i { x: 0, y: CELL_SPACING }),
        Position::TopRight => (Vec2i { x: CELL_SPACING, y: CELL_SPACING }),
        Position::Left => (Vec2i { x: (-CELL_SPACING) as i64, y: 0 }),
        Position::Center => (Vec2i { x: 0, y: 0 }),
        Position::Right => (Vec2i { x: CELL_SPACING, y: 0 }),
        Position::BottomLeft => (Vec2i { x: (-CELL_SPACING) as i64, y: (-CELL_SPACING) as i64 }),
        Position::BottomCenter => (Vec2i { x: 0, y: (-CELL_SPACING) as i64 }),
        Position::BottomRight => (Vec2i { x: CELL_SPACING, y: (-CELL_SPACING) as i64 }),
    }
}

/// The 2-D displacement a single move in direction `d` stands for.
pub open spec fn dir_delta(d: Direction) -> Vec2i {
    match d {
        Direction::Up => (Vec2i { x: 0, y: CELL_SPACING }),
        Direction::Down => (Vec2i { x: 0, y: (-CELL_SPACING) as i64 }),
        Direction::Left => (Vec2i { x: (-CELL_SPACING) as i64, y: 0 }),
        Direction::Right => (Vec2i { x: CELL_SPACING, y: 0 }),
    }
}

/// The adjacency table: the cell that moving in direction `d` from cell `p`
/// reaches, or `None` where the move would leave the grid.  Every defined
/// target is again one of the nine cells, so no move can leave the grid.
pub open spec fn adjacency(p: Position, d: Direction) -> Option<Position> {
    match d {
        Direction::Up => match p {
            Position::Center => Some(Position::TopCenter),
            Position::Left => Some(Position::TopLeft),
            Position::Right => Some(Position::TopRight),
            Position::BottomCenter => Some(Position::Center),
            Position::BottomLeft => Some(Position::Left),
            Position::BottomRight => Some(Position::Right),
            _ => None,
        },
        Direction::Down => match p {
            Position::TopCenter => Some(Position::Center),
            Position::TopLeft => Some(Position::Left),
            Position::TopRight => Some(Position::Right),
            Position::Center => Some(Position::BottomCenter),
            Position::Left => Some(Position::BottomLeft),
            Position::Right => Some(Position::BottomRight),
            _ => None,
        },
        Direction::Left => match p {
            Position::Center => Some(Position::Left),
            Position::Right => Some(Position::Center),
            Position::BottomCenter => Some(Position::BottomLeft),
            Position::BottomRight => Some(Position::BottomCenter),
            Position::TopCenter => Some(Position::TopLeft),
            Position::TopRight => Some(Position::TopCenter),
            _ => None,
        },
        Direction::Right => match p {
            Position::Center => Some(Position::Right),
            Position::Left => Some(Position::Center),
            Position::BottomCenter => Some(Position::BottomRight),
            Position::BottomLeft => Some(Position::BottomCenter),
            Position::TopCenter => Some(Position::TopRight),
            Position::TopLeft => Some(Position::TopCenter),
            _ => None,
        },
    }
}

/// Cell-to-offset lookup: pure, total, no failure mode.
pub fn lookup(p: Position) -> (r: Vec2i)
    ensures
        r == grid_offset(p),
{
    match p {
        Position::TopLeft => Vec2i { x: -CELL_SPACING, y: CELL_SPACING },
        Position::TopCenter => Vec2i { x: 0, y: CELL_SPACING },
        Position::TopRight => Vec2i { x: CELL_SPACING, y: CELL_SPACING },
        Position::Left => Vec2i { x: -CELL_SPACING, y: 0 },
        Position::Center => Vec2i { x: 0, y: 0 },
        Position::Right => Vec2i { x: CELL_SPACING, y: 0 },
        Position::BottomLeft => Vec2i { x: -CELL_SPACING, y: -CELL_SPACING },
        Position::BottomCenter => Vec2i { x: 0, y: -CELL_SPACING },
        Position::BottomRight => Vec2i { x: CELL_SPACING, y: -CELL_SPACING },
    }
}

/// The adjacency table as executable code.
pub fn adjacent(p: Position, d: Direction) -> (r: Option<Position>)
    ensures
        r == adjacency(p, d),
{
    match d {
        Direction::Up => match p {
            Position::Center => Some(Position::TopCenter),
            Position::Left => Some(Position::TopLeft),
            Position::Right => Some(Position::TopRight),
            Position::BottomCenter => Some(Position::Center),
            Position::BottomLeft => Some(Position::Left),
            Position::BottomRight => Some(Position::Right),
            _ => None,
        },
        Direction::Down => match p {
            Position::TopCenter => Some(Position::Center),
            Position::TopLeft => Some(Position::Left),
            Position::TopRight => Some(Position::Right),
            Position::Center => Some(Position::BottomCenter),
            Position::Left => Some(Position::BottomLeft),
            Position::Right => Some(Position::BottomRight),
            _ => None,
        },
        Direction::Left => match p {
            Position::Center => Some(Position::Left),
            Position::Right => Some(Position::Center),
            Position::BottomCenter => Some(Position::BottomLeft),
            Position::BottomRight => Some(Position::BottomCenter),
            Position::TopCenter => Some(Position::TopLeft),
            Position::TopRight => Some(Position::TopCenter),
            _ => None,
        },
        Direction::Right => match p {
            Position::Center => Some(Position::Right),
            Position::Left => Some(Position::Center),
            Position::BottomCenter => Some(Position::BottomRight),
            Position::BottomLeft => Some(Position::BottomCenter),
            Position::TopCenter => Some(Position::TopRight),
            Position::TopLeft => Some(Position::TopCenter),
            _ => None,
        },
    }
}

/// Law: the adjacency table and the offset table agree.  Wherever a move is
/// defined, the target cell's offset is exactly the source cell's offset
/// shifted by the direction's displacement, and the target differs from the
/// source, so a defined move always animates.
pub proof fn lemma_grid_geometry_consistent(p: Position, d: Direction)
    ensures
        adjacency(p, d) matches Some(q) ==> {
            &&& grid_offset(q).x == grid_offset(p).x + dir_delta(d).x
            &&& grid_offset(q).y == grid_offset(p).y + dir_delta(d).y
            &&& q != p
        },
{
}

/// The cell a path of directional moves leads to from `p`, or `None` if any
/// step of the path is undefined in the adjacency table.
pub open spec fn follow(p: Position, path: Seq<Direction>) -> Option<Position>
    decreases path.len(),
{
    if path.len() == 0 {
        Some(p)
    } else {
        match adjacency(p, path[0]) {
            Some(q) => follow(q, path.subrange(1, path.len() as int)),
            None => None,
        }
    }
}

proof fn lemma_follow_step(p: Position, q: Position, d: Direction, rest: Seq<Direction>)
    requires
        adjacency(p, d) == Some(q),
    ensures
        follow(p, seq![d] + rest) == follow(q, rest),
{
    let path = seq![d] + rest;
    assert(path[0] == d);
    assert(path.subrange(1, path.len() as int) =~= rest);
}

/// Whether some sequence of moves, each defined in the adjacency table,
/// leads from `Center` to `p`.
pub open spec fn reachable_from_center(p: Position) -> bool {
    exists|path: Seq<Direction>| #[trigger] follow(Position::Center, path) == Some(p)
}

/// Law: the grid topology is consistent.  Every one of the nine cells is
/// reachable from `Center` by some sequence of moves, each of which the
/// adjacency table defines.
pub proof fn lemma_all_cells_reachable()
    ensures
        forall|p: Position| #[trigger] reachable_from_center(p),
{
    let up = seq![Direction::Up];
    let down = seq![Direction::Down];
    let left = seq![Direction::Left];
    let right = seq![Direction::Right];
    let none = Seq::<Direction>::empty();

    assert(follow(Position::Center, none) == Some(Position::Center));
    lemma_follow_step(Position::Center, Position::TopCenter, Direction::Up, none);
    assert(up =~= seq![Direction::Up] + none);
    assert(follow(Position::Center, up) == Some(Position::TopCenter));
    lemma_follow_step(Position::Center, Position::BottomCenter, Direction::Down, none);
    assert(down =~= seq![Direction::Down] + none);
    assert(follow(Position::Center, down) == Some(Position::BottomCenter));
    lemma_follow_step(Position::Center, Position::Left, Direction::Left, none);
    assert(left =~= seq![Direction::Left] + none);
    assert(follow(Position::Center, left) == Some(Position::Left));
    lemma_follow_step(Position::Center, Position::Right, Direction::Right, none);
    assert(right =~= seq![Direction::Right] + none);
    assert(follow(Position::Center, right) == Some(Position::Right));

    lemma_follow_step(Position::Center, Position::TopCenter, Direction::Up, left);
    assert(seq![Direction::Up, Direction::Left] =~= seq![Direction::Up] + left);
    lemma_follow_step(Position::TopCenter, Position::TopLeft, Direction::Left, none);
    assert(follow(Position::Center, seq![Direction::Up, Direction::Left])
        == Some(Position::TopLeft));

    lemma_follow_step(Position::Center, Position::TopCenter, Direction::Up, right);
    assert(seq![Direction::Up, Direction::Right] =~= seq![Direction::Up] + right);
    lemma_follow_step(Position::TopCenter, Position::TopRight, Direction::Right, none);
    assert(follow(Position::Center, seq![Direction::Up, Direction::Right])
        == Some(Position::TopRight));

    lemma_follow_step(Position::Center, Position::BottomCenter, Direction::Down, left);
    assert(seq![Direction::Down, Direction::Left] =~= seq![Direction::Down] + left);
    lemma_follow_step(Position::BottomCenter, Position::BottomLeft, Direction::Left, none);
    assert(follow(Position::Center, seq![Direction::Down, Direction::Left])
        == Some(Position::BottomLeft));

    lemma_follow_step(Position::Center, Position::BottomCenter, Direction::Down, right);
    assert(seq![Direction::Down, Direction::Right] =~= seq![Direction::Down] + right);
    lemma_follow_step(Position::BottomCenter, Position::BottomRight, Direction::Right, none);
    assert(follow(Position::Center, seq![Direction::Down, Direction::Right])
        == Some(Position::BottomRight));

    assert forall|p: Position| #[trigger] reachable_from_center(p) by {
        match p {
            Position::Center => assert(follow(Position::Center, none) == Some(p)),
            Position::TopCenter => assert(follow(Position::Center, up) == Some(p)),
            Position::BottomCenter => assert(follow(Position::Center, down) == Some(p)),
            Position::Left => assert(follow(Position::Center, left) == Some(p)),
            Position::Right => assert(follow(Position::Center, right) == Some(p)),
            Position::TopLeft => assert(follow(
                Position::Center,
                seq![Direction::Up, Direction::Left],
            ) == Some(p)),
            Position::TopRight => assert(follow(
                Position::Center,
                seq![Direction::Up, Direction::Right],
            ) == Some(p)),
            Position::BottomLeft => assert(follow(
                Position::Center,
                seq![Direction::Down, Direction::Left],
            ) == Some(p)),
            Position::BottomRight => assert(follow(
                Position::Center,
                seq![Direction::Down, Direction::Right],
            ) == Some(p)),
        }
    }
}

} // verus!
