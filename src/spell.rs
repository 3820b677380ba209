use vstd::prelude::*;
use crate::game::{Game, GameView};
use crate::square::{Move, Square};
use crate::warrior::JihadiWarrior;

verus! {

/// A special ability that can lie on the board or in an inventory and be cast
/// onto the board.
pub trait Spell: Sized {
    /// The identifier of the spell, unique within a match.
    spec fn spell_id(&self) -> u32;

    /// What casting the spell onto `target` (or onto its own square, where
    /// `target` is `None`) makes of a game.
    spec fn effect(&self, g: GameView, target: Option<Square>) -> GameView;

    /// The spell one committed move later.
    spec fn aged(&self) -> Self;

    /// The visual class tokens of the spell.
    fn class_list(&self) -> String;

    fn execute(&self, game: Game, square: Option<Square>) -> (r: Game)
        ensures
            r@ == self.effect(game@, square),
    ;

    /// Ages the per-turn state of the spell after a committed move.
    fn update(&mut self, m: &Move)
        ensures
            *final(self) == old(self).aged(),
    ;

    fn name(&self) -> &'static str;

    fn description(&self) -> &'static str;

    fn identifier(&self) -> (r: u32)
        ensures
            r == self.spell_id(),
    ;
}

/// A shared handle to a spell of any of the known kinds.
#[derive(Clone, Copy, Debug)]
pub enum SpellHandle {
    Warrior(JihadiWarrior),
}

impl Spell for SpellHandle {
    open spec fn spell_id(&self) -> u32 {
        match self {
            SpellHandle::Warrior(w) => w.spell_id(),
        }
    }

    open spec fn effect(&self, g: GameView, target: Option<Square>) -> GameView {
        match self {
            SpellHandle::Warrior(w) => w.effect(g, target),
        }
    }

    open spec fn aged(&self) -> SpellHandle {
        match self {
            SpellHandle::Warrior(w) => SpellHandle::Warrior(w.aged()),
        }
    }

    fn class_list(&self) -> String {
        match self {
            SpellHandle::Warrior(w) => w.class_list(),
        }
    }

    fn execute(&self, game: Game, square: Option<Square>) -> (r: Game) {
        match self {
            SpellHandle::Warrior(w) => w.execute(game, square),
        }
    }

    fn update(&mut self, m: &Move) {
        match self {
            SpellHandle::Warrior(w) => w.update(m),
        }
    }

    fn name(&self) -> &'static str {
        match self {
            SpellHandle::Warrior(w) => w.name(),
        }
    }

    fn description(&self) -> &'static str {
        match self {
            SpellHandle::Warrior(w) => w.description(),
        }
    }

    fn identifier(&self) -> (r: u32) {
        match self {
            SpellHandle::Warrior(w) => w.identifier(),
        }
    }
}

/// What a board square holds besides a piece: a spell shown only as a generic
/// overlay, a spell shown with its own visual class, or nothing.
#[derive(Clone, Copy, Debug)]
pub enum Kind {
    Transparent(SpellHandle),
    Opaque(SpellHandle),
    Empty,
}

/// Markers compare by their variant alone: two visible markers are equal,
/// whichever spells they carry, and so are two hidden or two empty ones.
impl PartialEq for Kind {
    fn eq(&self, other: &Kind) -> (r: bool) {
        match (self, other) {
            (Kind::Transparent(_), Kind::Transparent(_)) => true,
            (Kind::Opaque(_), Kind::Opaque(_)) => true,
            (Kind::Empty, Kind::Empty) => true,
            _ => false,
        }
    }
}

impl vstd::std_specs::cmp::PartialEqSpecImpl for Kind {
    open spec fn obeys_eq_spec() -> bool {
        true
    }

    open spec fn eq_spec(&self, other: &Kind) -> bool {
        match (self, other) {
            (Kind::Transparent(_), Kind::Transparent(_)) => true,
            (Kind::Opaque(_), Kind::Opaque(_)) => true,
            (Kind::Empty, Kind::Empty) => true,
            _ => false,
        }
    }
}

impl Kind {
    /// The spell the marker carries, if any.
    pub open spec fn spell_spec(self) -> Option<SpellHandle> {
        match self {
            Kind::Transparent(s) => Some(s),
            Kind::Opaque(s) => Some(s),
            Kind::Empty => None,
        }
    }

    pub fn spell(&self) -> (r: Option<SpellHandle>)
        ensures
            r == self.spell_spec(),
    {
        match self {
            Kind::Transparent(s) => Some(*s),
            Kind::Opaque(s) => Some(*s),
            Kind::Empty => None,
        }
    }
}

} // verus!
