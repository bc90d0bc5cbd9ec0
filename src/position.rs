use vstd::prelude::*;

verus! {

/// A tile of the room grid: both coordinates lie in `0..=255`.
#[derive(Clone, Copy, Debug, PartialEq, Eq, Structural)]
pub struct Position {
    pub x: u8,
    pub y: u8,
}

/// Absolute difference of two coordinates.
pub open spec fn coord_gap(a: u8, b: u8) -> int {
    if a >= b {
        a - b
    } else {
        b - a
    }
}

/// The host's linear range between two tiles: the larger of the two
/// coordinate differences, so that all eight neighbours of a tile are at range 1.
pub open spec fn range_between(a: Position, b: Position) -> int {
    let dx = coord_gap(a.x, b.x);
    let dy = coord_gap(a.y, b.y);
    if dx >= dy {
        dx
    } else {
        dy
    }
}

impl Position {
    pub fn new(x: u8, y: u8) -> (r: Position)
        ensures
            r.x == x,
            r.y == y,
    {
        Position { x, y }
    }

    /// Linear range from this tile to `other`.
    pub fn range_to(&self, other: &Position) -> (r: u8)
        ensures
            r == range_between(*self, *other),
    {
        let dx: u8 = if self.x >= other.x { self.x - other.x } else { other.x - self.x };
        let dy: u8 = if self.y >= other.y { self.y - other.y } else { other.y - self.y };
        if dx >= dy {
            dx
        } else {
            dy
        }
    }
}

/// Anything that can report the tile it stands on.
pub trait HasPosition {
    spec fn position(&self) -> Position;

    fn pos(&self) -> (r: Position)
        ensures
            r == self.position(),
    ;
}

/// An item of any kind together with the tile it stands on.
#[derive(Clone, Debug)]
pub struct Located<H> {
    pub at: Position,
    pub item: H,
}

impl<H> HasPosition for Located<H> {
    open spec fn position(&self) -> Position {
        self.at
    }

    fn pos(&self) -> (r: Position) {
        self.at
    }
}

} // verus!
