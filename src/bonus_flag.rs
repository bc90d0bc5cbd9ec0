use vstd::prelude::*;
use vstd::string::StrSliceExecFns;

use crate::game_object::GameObject;
use crate::position::{HasPosition, Position};

verus! {

/// A kind of creep body part; a bonus flag strengthens one of them.
#[derive(Clone, Copy, Debug, PartialEq, Eq, Structural)]
pub enum Part {
    Attack,
    Carry,
    Heal,
    Move,
    RangedAttack,
    Tough,
    Work,
}

/// The part that the host calls `name`, if any.
pub open spec fn part_named(name: Seq<char>) -> Option<Part> {
    if name == "attack"@ {
        Some(Part::Attack)
    } else if name == "carry"@ {
        Some(Part::Carry)
    } else if name == "heal"@ {
        Some(Part::Heal)
    } else if name == "move"@ {
        Some(Part::Move)
    } else if name == "ranged_attack"@ {
        Some(Part::RangedAttack)
    } else if name == "tough"@ {
        Some(Part::Tough)
    } else if name == "work"@ {
        Some(Part::Work)
    } else {
        None
    }
}

fn same_text(a: &str, b: &str) -> (r: bool)
    ensures
        r == (a@ == b@),
{
    let n = a.unicode_len();
    if n != b.unicode_len() {
        return false;
    }
    let mut i: usize = 0;
    while i < n
        invariant
            0 <= i <= n,
            n == a@.len(),
            n == b@.len(),
            a@.subrange(0, i as int) == b@.subrange(0, i as int),
        decreases n - i,
    {
        if a.get_char(i) != b.get_char(i) {
            assert(a@[i as int] != b@[i as int]);
            return false;
        }
        assert(a@.subrange(0, i + 1) =~= a@.subrange(0, i as int).push(a@[i as int]));
        assert(b@.subrange(0, i + 1) =~= b@.subrange(0, i as int).push(b@[i as int]));
        i = i + 1;
    }
    assert(a@ =~= a@.subrange(0, n as int));
    assert(b@ =~= b@.subrange(0, n as int));
    true
}

impl Part {
    /// The part that the host calls `name`; `None` for a name it does not use.
    pub fn from_name(name: &str) -> (r: Option<Part>)
        ensures
            r == part_named(name@),
    {
        if same_text(name, "attack") {
            Some(Part::Attack)
        } else if same_text(name, "carry") {
            Some(Part::Carry)
        } else if same_text(name, "heal") {
            Some(Part::Heal)
        } else if same_text(name, "move") {
            Some(Part::Move)
        } else if same_text(name, "ranged_attack") {
            Some(Part::RangedAttack)
        } else if same_text(name, "tough") {
            Some(Part::Tough)
        } else if same_text(name, "work") {
            Some(Part::Work)
        } else {
            None
        }
    }
}

/// An object that applies an effect of one kind to all creeps of the player who
/// captured it.
#[derive(Clone, Debug)]
pub struct BonusFlag {
    pub object: GameObject,
    /// `Some(true)` for a flag of yours, `Some(false)` for a hostile one, `None`
    /// for a neutral one.
    pub my: Option<bool>,
    pub bonus_type: Part,
}

impl BonusFlag {
    pub fn new(object: GameObject, my: Option<bool>, bonus_type: Part) -> (r: BonusFlag)
        ensures
            r.object == object,
            r.my == my,
            r.bonus_type == bonus_type,
    {
        BonusFlag { object, my, bonus_type }
    }

    /// The world object the flag is.
    pub fn object(&self) -> (r: &GameObject)
        ensures
            *r == self.object,
    {
        &self.object
    }

    /// `Some(true)` for a flag of yours, `Some(false)` for a hostile one, `None`
    /// for a neutral one.
    pub fn my(&self) -> (r: Option<bool>)
        ensures
            r == self.my,
    {
        self.my
    }

    /// The kind of body part that the flag strengthens.
    pub fn bonus_type(&self) -> (r: Part)
        ensures
            r == self.bonus_type,
    {
        self.bonus_type
    }
}

impl HasPosition for BonusFlag {
    open spec fn position(&self) -> Position {
        Position { x: self.object.x, y: self.object.y }
    }

    fn pos(&self) -> (r: Position) {
        Position { x: self.object.x, y: self.object.y }
    }
}

} // verus!
