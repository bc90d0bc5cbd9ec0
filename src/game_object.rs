use vstd::prelude::*;

use crate::identity::{canonical_identity, normalize_identity, IdentityError, RawIdentity};
use crate::position::{range_between, HasPosition, Position};
use crate::query::{closest_kept, in_range_kept, keep_closest, keep_in_range};

verus! {

/// What one look at a live world object shows: whether it is still live, its raw
/// identity, its tile and, where it decays, the ticks it has left.
#[derive(Clone, Debug)]
pub struct GameObject {
    pub live: bool,
    pub raw_id: RawIdentity,
    pub x: u8,
    pub y: u8,
    pub ticks_to_decay: Option<u32>,
}

impl GameObject {
    pub fn new(live: bool, raw_id: RawIdentity, x: u8, y: u8, ticks_to_decay: Option<u32>) -> (r:
        GameObject)
        ensures
            r.live == live,
            r.raw_id == raw_id,
            r.x == x,
            r.y == y,
            r.ticks_to_decay == ticks_to_decay,
    {
        GameObject { live, raw_id, x, y, ticks_to_decay }
    }

    /// Whether the object was live in the game when it was looked at.
    pub fn is_live(&self) -> (r: bool)
        ensures
            r == self.live,
    {
        self.live
    }

    /// The object's identity as text. The host gives some object kinds a numeric
    /// identity; it is written in decimal. A raw identity that is neither text
    /// nor a number is an error.
    pub fn id(&self) -> (r: Result<String, IdentityError>)
        ensures
            match canonical_identity(self.raw_id) {
                Some(c) => r is Ok && r->Ok_0@ == c,
                None => r == Err::<String, IdentityError>(IdentityError::NotTextOrNumber),
            },
    {
        normalize_identity(&self.raw_id)
    }

    /// The X coordinate in the room.
    pub fn x(&self) -> (r: u8)
        ensures
            r == self.x,
    {
        self.x
    }

    /// The Y coordinate in the room.
    pub fn y(&self) -> (r: u8)
        ensures
            r == self.y,
    {
        self.y
    }

    /// The ticks after which the object disappears, if it decays at all.
    pub fn ticks_to_decay(&self) -> (r: Option<u32>)
        ensures
            r == self.ticks_to_decay,
    {
        self.ticks_to_decay
    }

    /// Linear range from this object to `pos`.
    pub fn get_range_to(&self, pos: &Position) -> (r: u8)
        ensures
            r == range_between(self.position(), *pos),
    {
        self.pos().range_to(pos)
    }

    /// The objects within `range` of this one, from the host's answer to a range
    /// query over a batch of candidates. The answer holds, in the host's order,
    /// each value it picked, converted back to the candidates' type (`None` where
    /// that failed). Values that failed to convert are dropped without failing
    /// the rest, and so are any that stand out of range.
    pub fn find_in_range<T: HasPosition>(&self, answer: Vec<Option<T>>, range: u8) -> (r: Vec<T>)
        ensures
            r@ == in_range_kept(self.position(), range, answer@),
            forall|j: int|
                0 <= j < r@.len() ==> range_between(self.position(), (#[trigger] r@[j]).position())
                    <= range,
    {
        keep_in_range(self.pos(), range, answer)
    }

    /// The object at the shortest linear range, from the host's answer: `None`
    /// where the host found none (no candidates, say) or its pick failed to
    /// convert back to the candidates' type.
    pub fn find_closest_by_range<T>(&self, answer: Option<Option<T>>) -> (r: Option<T>)
        ensures
            r == closest_kept(answer),
    {
        keep_closest(answer)
    }

    /// The object at the shortest path, from the host's answer: `None` where the
    /// host found none (no candidates, or no path to any) or its pick failed to
    /// convert back to the candidates' type.
    pub fn find_closest_by_path<T>(&self, answer: Option<Option<T>>) -> (r: Option<T>)
        ensures
            r == closest_kept(answer),
    {
        keep_closest(answer)
    }
}

impl HasPosition for GameObject {
    open spec fn position(&self) -> Position {
        Position { x: self.x, y: self.y }
    }

    fn pos(&self) -> (r: Position) {
        Position { x: self.x, y: self.y }
    }
}

} // verus!
