use vstd::prelude::*;
use std::collections::HashMap;
use crate::board::{BoardView, UIBoard};
use crate::inventory::{without_first, Inventory};
use crate::position::legal_in;
use crate::seqs::copy_vec;
use crate::spell::{Spell, SpellHandle};
use crate::square::{Move, Square};

verus! {

broadcast use vstd::std_specs::hash::group_hash_axioms;

/// The mathematical value of a game.
pub struct GameView {
    pub board: BoardView,
    pub moves: Seq<Move>,
    pub inventory: Seq<SpellHandle>,
    pub casted_mine: Map<usize, SpellHandle>,
    pub casted_other: Map<usize, SpellHandle>,
}

impl GameView {
    /// The game after `m`: where `m` is legal the board plays it and the
    /// history gains it at its end; otherwise nothing changes.
    pub open spec fn after_move(self, m: Move) -> GameView {
        if m.valid() && legal_in(self.board.position, m) {
            GameView { board: self.board.moved(m), moves: self.moves.push(m), ..self }
        } else {
            self
        }
    }
}

/// A match: the board, the moves played, the inventory, and the spells cast
/// onto squares and not yet resolved, by this player and by the other.
pub struct Game {
    board: UIBoard,
    moves: Vec<Move>,
    inventory: Inventory,
    casted_mine: HashMap<usize, SpellHandle>,
    casted_other: HashMap<usize, SpellHandle>,
}

impl Clone for Game {
    fn clone(&self) -> (r: Game)
        ensures
            r@ == self@,
    {
        self.snapshot()
    }
}

impl View for Game {
    type V = GameView;

    closed spec fn view(&self) -> GameView {
        GameView {
            board: self.board@,
            moves: self.moves@,
            inventory: self.inventory@,
            casted_mine: self.casted_mine@,
            casted_other: self.casted_other@,
        }
    }
}

impl Default for Game {
    fn default() -> (r: Game)
        ensures
            r@.board.dims == (8usize, 8usize),
            r@.board.markers == crate::board::default_markers(),
            r@.moves == Seq::<Move>::empty(),
            r@.inventory == Seq::<SpellHandle>::empty(),
            r@.casted_mine == Map::<usize, SpellHandle>::empty(),
            r@.casted_other == Map::<usize, SpellHandle>::empty(),
    {
        Game {
            board: UIBoard::default(),
            moves: Vec::new(),
            inventory: Inventory::default(),
            casted_mine: HashMap::new(),
            casted_other: HashMap::new(),
        }
    }
}

impl Game {
    /// Every cast spell is keyed by a square of the board.
    #[verifier::type_invariant]
    closed spec fn inv(&self) -> bool {
        &&& forall|k: usize| #[trigger] self.casted_mine@.contains_key(k) ==> Square::key_within(k, self.board@.dims)
        &&& forall|k: usize| #[trigger] self.casted_other@.contains_key(k) ==> Square::key_within(k, self.board@.dims)
    }

    pub fn new() -> (r: Game)
        ensures
            r@.board.dims == (8usize, 8usize),
            r@.board.markers == crate::board::default_markers(),
            r@.moves == Seq::<Move>::empty(),
            r@.inventory == Seq::<SpellHandle>::empty(),
            r@.casted_mine == Map::<usize, SpellHandle>::empty(),
            r@.casted_other == Map::<usize, SpellHandle>::empty(),
    {
        Game::default()
    }

    /// A copy of the game, sharing its board markers.
    pub fn snapshot(&self) -> (r: Game)
        ensures
            r@ == self@,
    {
        proof {
            use_type_invariant(self);
        }
        Game {
            board: self.board.share(),
            moves: copy_vec(&self.moves),
            inventory: self.inventory.copy(),
            casted_mine: self.casted_mine.clone(),
            casted_other: self.casted_other.clone(),
        }
    }

    pub fn board(&self) -> (r: &UIBoard)
        ensures
            r@ == self@.board,
    {
        &self.board
    }

    pub fn raw_board(&self) -> (r: &chess::Board)
        ensures
            *r == self@.board.position,
    {
        self.board.board()
    }

    /// Plays `m` where it is legal, appending it to the history; otherwise
    /// leaves the game as it was.
    pub fn make_move(&mut self, m: Move)
        ensures
            final(self)@ == old(self)@.after_move(m),
    {
        *self = self.make_move_new(m);
    }

    /// The game after `m` where it is legal; an equal game otherwise.
    pub fn make_move_new(&self, m: Move) -> (r: Game)
        ensures
            r@ == self@.after_move(m),
    {
        proof {
            use_type_invariant(self);
        }
        if m.source.on_board() && m.dest.on_board() && crate::position::is_legal(self.board.board(), m) {
            let board = self.board.make_move_new(m);
            let mut moves = copy_vec(&self.moves);
            moves.push(m);
            Game {
                board,
                moves,
                inventory: self.inventory.copy(),
                casted_mine: self.casted_mine.clone(),
                casted_other: self.casted_other.clone(),
            }
        } else {
            self.snapshot()
        }
    }

    /// The moves played so far, oldest first.
    pub fn moves(&self) -> (r: Vec<Move>)
        ensures
            r@ == self@.moves,
    {
        copy_vec(&self.moves)
    }

    pub fn spells(&self) -> (r: Vec<SpellHandle>)
        ensures
            r@ == self@.inventory,
    {
        self.inventory.spells()
    }

    pub fn new_board(&self) -> (r: UIBoard)
        ensures
            r@ == self@.board,
    {
        self.board.share()
    }

    /// Replaces the board by one of the same dimensions.
    pub fn set_board(self, board: UIBoard) -> (r: Game)
        requires
            board@.dims == self@.board.dims,
        ensures
            r@ == (GameView { board: board@, ..self@ }),
    {
        proof {
            use_type_invariant(&self);
        }
        Game {
            board,
            moves: self.moves,
            inventory: self.inventory,
            casted_mine: self.casted_mine,
            casted_other: self.casted_other,
        }
    }

    /// Records `spell` as cast by this player onto `square`, replacing any
    /// spell cast there before, and takes it out of the inventory.
    pub fn cast_spell(&self, spell: SpellHandle, square: Square) -> (r: Game)
        requires
            square.within(self@.board.dims),
        ensures
            r@ == (GameView {
                inventory: without_first(self@.inventory, spell.spell_id()),
                casted_mine: self@.casted_mine.insert(square.key_spec(), spell),
                ..self@
            }),
    {
        proof {
            use_type_invariant(self);
        }
        let _dims = self.board.dims();
        proof {
            let k = square.key_spec();
            assert(k % 8 == square.file && k / 8 == square.rank) by (nonlinear_arith)
                requires
                    k == square.rank * 8 + square.file,
                    square.file < 8,
            ;
        }
        let inventory = self.inventory.copy().remove_spell(spell.identifier());
        let mut casted = self.casted_mine.clone();
        casted.insert(square.key(), spell);
        Game {
            board: self.board.share(),
            moves: copy_vec(&self.moves),
            inventory,
            casted_mine: casted,
            casted_other: self.casted_other.clone(),
        }
    }

    /// Adds `spell`, found on `square`, to the inventory.
    pub fn collect_spell(&self, square: Square, spell: SpellHandle) -> (r: Game)
        ensures
            r@ == (GameView { inventory: self@.inventory.push(spell), ..self@ }),
    {
        proof {
            use_type_invariant(self);
        }
        let inventory = self.inventory.copy().collect_spell(spell);
        Game {
            board: self.board.share(),
            moves: copy_vec(&self.moves),
            inventory,
            casted_mine: self.casted_mine.clone(),
            casted_other: self.casted_other.clone(),
        }
    }

    /// Drops the first spell with identifier `id` from the inventory.
    pub fn remove_spell(self, id: u32) -> (r: Game)
        ensures
            r@ == (GameView { inventory: without_first(self@.inventory, id), ..self@ }),
    {
        proof {
            use_type_invariant(&self);
        }
        Game {
            board: self.board,
            moves: self.moves,
            inventory: self.inventory.remove_spell(id),
            casted_mine: self.casted_mine,
            casted_other: self.casted_other,
        }
    }
}

/// A move outside the legal moves of the position leaves the whole game,
/// board, history and inventory, exactly as it was.
pub proof fn rejected_move_changes_nothing(g: GameView, m: Move)
    requires
        !legal_in(g.board.position, m),
    ensures
        g.after_move(m) == g,
{
}

/// An accepted move extends the history by exactly that move at its end,
/// keeping every earlier entry in place.
pub proof fn accepted_move_extends_history(g: GameView, m: Move)
    requires
        m.valid(),
        legal_in(g.board.position, m),
    ensures
        g.after_move(m).moves.len() == g.moves.len() + 1,
        g.after_move(m).moves == g.moves.push(m),
        g.after_move(m).moves.last() == m,
        forall|i: int| 0 <= i < g.moves.len() ==> #[trigger] g.after_move(m).moves[i] == g.moves[i],
        g.after_move(m).inventory == g.inventory,
{
}

} // verus!
