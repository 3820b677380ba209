use vstd::prelude::*;
use crate::board::BoardView;
use crate::board::clearing_keeps_markers;
use crate::game::{Game, GameView};
use crate::position::{color_at, piece_at};
use crate::inventory::{holds_id, lemma_without_first_len, without_first};
use crate::spell::Spell;
use crate::square::{Move, Square};

verus! {

/// The candidate `k` (0 to 8) of the 3x3 neighbourhood of `c`, file-major:
/// files `c.file - 1 ..= c.file + 1`, ranks `c.rank - 1 ..= c.rank + 1`.
pub open spec fn neighbour(c: Square, k: int) -> (int, int) {
    (c.file + k / 3 - 1, c.rank + k % 3 - 1)
}

pub open spec fn in_dims(f: int, r: int, dims: (usize, usize)) -> bool {
    0 <= f < dims.0 && 0 <= r < dims.1
}

/// The squares among the first `k` candidates around `c` that lie on a board
/// of `dims`, in candidate order.
pub open spec fn area_upto(c: Square, dims: (usize, usize), k: nat) -> Seq<Square>
    decreases k,
{
    if k == 0 {
        Seq::empty()
    } else {
        let prev = area_upto(c, dims, (k - 1) as nat);
        let (f, r) = neighbour(c, k - 1);
        if in_dims(f, r, dims) {
            prev.push(Square { file: f as u8, rank: r as u8 })
        } else {
            prev
        }
    }
}

/// The 3x3 area around `c`, clamped at the edges of a board of `dims`.
pub open spec fn area(c: Square, dims: (usize, usize)) -> Seq<Square> {
    area_upto(c, dims, 9)
}

/// `t` is `c` or one of its eight neighbours.
pub open spec fn near(c: Square, t: Square) -> bool {
    -1 <= t.file - c.file <= 1 && -1 <= t.rank - c.rank <= 1
}

/// Every square of the area lies on the board next to the centre, and there
/// are at most `k` of them.
pub proof fn lemma_area_on_board(c: Square, dims: (usize, usize), k: nat)
    requires
        k <= 9,
        dims.0 <= 8,
        dims.1 <= 8,
    ensures
        forall|i: int| 0 <= i < area_upto(c, dims, k).len() ==> {
            &&& (#[trigger] area_upto(c, dims, k)[i]).within(dims)
            &&& area_upto(c, dims, k)[i].valid()
            &&& near(c, area_upto(c, dims, k)[i])
        },
        area_upto(c, dims, k).len() <= k,
    decreases k,
{
    if k > 0 {
        lemma_area_on_board(c, dims, (k - 1) as nat);
        let j = k - 1;
        assert(0 <= j / 3 <= 2 && 0 <= j % 3 <= 2);
    }
}

/// Centred on the corner square (file 0, rank 0), the area holds at most
/// four squares, all on the board; on any edge of the board it holds fewer
/// than nine.
pub proof fn area_clamped_at_edges(c: Square, dims: (usize, usize))
    requires
        dims.0 <= 8,
        dims.1 <= 8,
    ensures
        c.file == 0 && c.rank == 0 ==> area(c, dims).len() <= 4,
        c.within(dims) && (c.file == 0 || c.rank == 0 || c.file + 1 == dims.0 || c.rank + 1 == dims.1)
            ==> area(c, dims).len() < 9,
        forall|i: int| 0 <= i < area(c, dims).len() ==> (#[trigger] area(c, dims)[i]).within(dims),
{
    reveal_with_fuel(area_upto, 10);
    lemma_area_on_board(c, dims, 9);
    lemma_area_on_board(c, dims, 8);
}

/// Away from the edges the area is the full 3x3 square.
pub proof fn area_full_inside(c: Square, dims: (usize, usize))
    requires
        dims.0 <= 8,
        dims.1 <= 8,
        1 <= c.file,
        c.file + 1 < dims.0,
        1 <= c.rank,
        c.rank + 1 < dims.1,
    ensures
        area(c, dims).len() == 9,
        forall|k: int|
            0 <= k < 9 ==> #[trigger] area(c, dims)[k] == (Square {
                file: (c.file + k / 3 - 1) as u8,
                rank: (c.rank + k % 3 - 1) as u8,
            }),
{
    reveal_with_fuel(area_upto, 10);
}

/// Casting the area spell onto a square removes the pieces of the area around
/// it and shrinks an inventory that holds the spell by exactly one entry; the
/// history and the markers stay.
pub proof fn area_cast_consumes_spell(w: JihadiWarrior, g: GameView, c: Square)
    requires
        holds_id(g.inventory, w.spell_id()),
    ensures
        w.effect(g, Some(c)).inventory.len() == g.inventory.len() - 1,
        w.effect(g, Some(c)).board == g.board.without_pieces(area(c, g.board.dims)),
        w.effect(g, Some(c)).moves == g.moves,
{
    lemma_without_first_len(g.inventory, w.spell_id());
}

proof fn lemma_area_upto_contains(c: Square, dims: (usize, usize), n: nat, k: int)
    requires
        0 <= k < n,
        in_dims(neighbour(c, k).0, neighbour(c, k).1, dims),
    ensures
        area_upto(c, dims, n).contains(Square { file: neighbour(c, k).0 as u8, rank: neighbour(c, k).1 as u8 }),
    decreases n,
{
    let t = Square { file: neighbour(c, k).0 as u8, rank: neighbour(c, k).1 as u8 };
    let prev = area_upto(c, dims, (n - 1) as nat);
    if k == n - 1 {
        assert(area_upto(c, dims, n).last() == t);
    } else {
        lemma_area_upto_contains(c, dims, (n - 1) as nat, k);
        let j = choose|j: int| 0 <= j < prev.len() && prev[j] == t;
        assert(area_upto(c, dims, n)[j] == t);
    }
}

/// The area holds exactly the squares of the board that are the centre or one
/// of its neighbours.
pub proof fn area_membership(c: Square, dims: (usize, usize), t: Square)
    requires
        dims.0 <= 8,
        dims.1 <= 8,
    ensures
        area(c, dims).contains(t) <==> t.within(dims) && near(c, t),
{
    lemma_area_on_board(c, dims, 9);
    if t.within(dims) && near(c, t) {
        let k = (t.file - c.file + 1) * 3 + (t.rank - c.rank + 1);
        assert(neighbour(c, k) == (t.file as int, t.rank as int));
        lemma_area_upto_contains(c, dims, 9, k);
    }
}

/// An area spell: casting it removes every piece in the 3x3 square around
/// its target.
#[derive(Clone, Copy, Debug)]
pub struct JihadiWarrior {
    pub id: u32,
    pub name: &'static str,
    pub description: &'static str,
    pub level: u8,
    /// The square the spell is bound to, if any.
    pub on: Option<Square>,
    /// How many turns the spell stays valid.
    pub valid_for: i32,
    pub valid: bool,
}

impl JihadiWarrior {
    /// The spell as a match starts with it: identifier 0, bound to no square,
    /// valid for three more turns.
    pub open spec fn initial() -> JihadiWarrior {
        JihadiWarrior {
            id: 0,
            name: "Jihadi Warrior",
            description: "Remove all pieces in a 3x3 square around the Jihadi Warrior",
            level: 1,
            on: None,
            valid_for: 3,
            valid: true,
        }
    }

    /// A fresh spell with identifier `id`, bound to square `on` if given.
    pub fn new(id: u32, on: Option<Square>) -> (r: JihadiWarrior)
        ensures
            r == (JihadiWarrior { id, on, ..JihadiWarrior::initial() }),
    {
        JihadiWarrior { id, on, ..JihadiWarrior::default() }
    }

    /// The squares the spell clears around `center` on a board of `dims`.
    pub fn area_around(center: Square, dims: (usize, usize)) -> (r: Vec<Square>)
        requires
            dims.0 <= 8,
            dims.1 <= 8,
        ensures
            r@ == area(center, dims),
    {
        let mut squares: Vec<Square> = Vec::new();
        let mut k: u8 = 0;
        while k < 9
            invariant
                k <= 9,
                squares@ == area_upto(center, dims, k as nat),
                dims.0 <= 8,
                dims.1 <= 8,
            decreases 9 - k,
        {
            let f: i32 = center.file as i32 + (k / 3) as i32 - 1;
            let r: i32 = center.rank as i32 + (k % 3) as i32 - 1;
            if 0 <= f && (f as usize) < dims.0 && 0 <= r && (r as usize) < dims.1 {
                squares.push(Square { file: f as u8, rank: r as u8 });
            }
            k += 1;
        }
        squares
    }

    /// Counts the turns down to zero; the spell is valid while turns were left.
    pub fn age(&mut self)
        ensures
            *final(self) == old(self).aged(),
    {
        self.valid = self.valid_for > 0;
        self.valid_for = if self.valid_for > 0 {
            self.valid_for - 1
        } else {
            0
        };
    }
}

impl JihadiWarrior {
    /// Casts the spell onto `square`, or else onto its own square: every
    /// removable piece of the 3x3 area goes and the spell leaves the
    /// inventory. Squares outside the area keep their pieces.
    pub fn cast_area(&self, game: Game, square: Option<Square>) -> (r: Game)
        ensures
            r@ == self.effect(game@, square),
            ({
                let center = if square.is_some() { square } else { self.on };
                center matches Some(c) ==> forall|t: Square|
                    #![trigger piece_at(r@.board.position, t)]
                    #![trigger color_at(r@.board.position, t)]
                    t.valid() && !near(c, t) ==> piece_at(r@.board.position, t) == piece_at(game@.board.position, t)
                        && color_at(r@.board.position, t) == color_at(game@.board.position, t)
            }),
    {
        let center = match square {
            Some(s) => Some(s),
            None => self.on,
        };
        match center {
            Some(c) => {
                let start = game.board().share();
                let dims = start.dims();
                let squares = JihadiWarrior::area_around(c, dims);
                proof {
                    lemma_area_on_board(c, dims, 9);
                }
                let ghost before: BoardView = start@;
                let mut board = start;
                let mut i: usize = 0;
                while i < squares.len()
                    invariant
                        i <= squares.len(),
                        squares@ == area(c, dims),
                        forall|j: int| 0 <= j < squares@.len() ==> (#[trigger] squares@[j]).valid(),
                        board@ == before.without_pieces(squares@.subrange(0, i as int)),
                        forall|t: Square|
                            #![trigger piece_at(board@.position, t)]
                            #![trigger color_at(board@.position, t)]
                            t.valid() && !squares@.subrange(0, i as int).contains(t) ==> piece_at(board@.position, t)
                                == piece_at(before.position, t) && color_at(board@.position, t) == color_at(before.position, t),
                    decreases squares.len() - i,
                {
                    let ghost prior = board@;
                    let ghost done = squares@.subrange(0, i as int);
                    board = board.remove_piece(squares[i]);
                    i += 1;
                    assert forall|t: Square| t.valid() && !squares@.subrange(0, i as int).contains(t) implies
                        piece_at(board@.position, t) == piece_at(before.position, t)
                        && color_at(board@.position, t) == color_at(before.position, t) by {
                        assert(squares@.subrange(0, i as int)[i - 1] == squares@[i - 1]);
                        if done.contains(t) {
                            let j = choose|j: int| 0 <= j < done.len() && done[j] == t;
                            assert(squares@.subrange(0, i as int)[j] == t);
                        }
                        assert(piece_at(board@.position, t) == piece_at(prior.position, t));
                    }
                    assert(squares@.subrange(0, i as int).drop_last() =~= squares@.subrange(0, i as int - 1));
                }
                assert(squares@.subrange(0, squares@.len() as int) =~= squares@);
                proof {
                    clearing_keeps_markers(before, squares@);
                    assert forall|t: Square| t.valid() && !near(c, t) implies !squares@.contains(t) by {
                        area_membership(c, dims, t);
                    }
                }
                let game = game.set_board(board);
                game.remove_spell(self.id)
            },
            None => game,
        }
    }

}

impl Default for JihadiWarrior {
    fn default() -> (r: JihadiWarrior)
        ensures
            r == JihadiWarrior::initial(),
    {
        JihadiWarrior {
            id: 0,
            name: "Jihadi Warrior",
            description: "Remove all pieces in a 3x3 square around the Jihadi Warrior",
            level: 1,
            on: None,
            valid_for: 3,
            valid: true,
        }
    }
}

impl Spell for JihadiWarrior {
    open spec fn spell_id(&self) -> u32 {
        self.id
    }

    /// The turn counter goes down by one, never below zero; the spell is
    /// valid where a turn was left. Nothing else changes.
    open spec fn aged(&self) -> JihadiWarrior {
        JihadiWarrior {
            valid: self.valid_for > 0,
            valid_for: if self.valid_for > 0 {
                (self.valid_for - 1) as i32
            } else {
                0
            },
            ..*self
        }
    }

    /// The target, or else the bound square, is the centre; every piece of
    /// the area around it is removed and the spell leaves the inventory. With
    /// no centre nothing changes.
    open spec fn effect(&self, g: GameView, target: Option<Square>) -> GameView {
        let center = match target {
            Some(t) => Some(t),
            None => self.on,
        };
        match center {
            Some(c) => GameView {
                board: g.board.without_pieces(area(c, g.board.dims)),
                inventory: without_first(g.inventory, self.spell_id()),
                ..g
            },
            None => g,
        }
    }

    fn class_list(&self) -> String {
        "spell spell--jihadi-warrior".to_owned()
    }

    fn execute(&self, game: Game, square: Option<Square>) -> (r: Game) {
        self.cast_area(game, square)
    }

    fn update(&mut self, _m: &Move) {
        self.age();
    }

    fn name(&self) -> &'static str {
        self.name
    }

    fn description(&self) -> &'static str {
        self.description
    }

    fn identifier(&self) -> (r: u32) {
        self.id
    }
}

} // verus!
