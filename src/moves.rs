use vstd::prelude::*;
use crate::game::{Game, GameView};
use crate::position::{self, legal_in};
use crate::spell::{Spell, SpellHandle};
use crate::square::{Move, Square};
use vstd::string::StringSliceAdditionalSpecFns;

verus! {

/// A proposed move that is not among the legal moves of the position.
#[derive(Clone, Copy, Debug, PartialEq, Eq, Structural)]
pub struct IllegalMoveError;

impl IllegalMoveError {
    pub fn message(&self) -> &'static str {
        "Illegal Move"
    }
}

/// Why a dragged piece was not moved.
#[derive(Clone, Copy, Debug, PartialEq, Eq, Structural)]
pub enum MoveError {
    Illegal(IllegalMoveError),
    /// The identifier of the dragged piece is not two digits from 0 to 7.
    MalformedSourceIdentifier,
}

/// The square named by a piece identifier: exactly two ASCII digits from 0
/// to 7, the file and then the rank.
pub open spec fn parse_source(b: Seq<u8>) -> Option<Square> {
    if b.len() == 2 && 48 <= b[0] < 56 && 48 <= b[1] < 56 {
        Some(Square { file: (b[0] - 48) as u8, rank: (b[1] - 48) as u8 })
    } else {
        None
    }
}

/// The index along one axis of a board of `n` squares drawn `size` pixels
/// wide from pixel `origin`, for a pointer at pixel `p`. The board is drawn
/// flipped, so the index counts from the far end; pointers off the board
/// have none.
pub open spec fn axis_index(p: int, origin: int, size: int, n: int) -> Option<int> {
    let d = p - origin;
    if size > 0 && 1 <= n <= 8 && 0 <= d < size {
        Some(n - 1 - d * n / size)
    } else {
        None
    }
}

/// The square under a pointer, for a board of `dims` drawn over `size`
/// pixels from `pos`.
pub open spec fn square_at(point: (i64, i64), size: (i64, i64), pos: (i64, i64), dims: (usize, usize)) -> Option<Square> {
    match (axis_index(point.0 as int, pos.0 as int, size.0 as int, dims.0 as int), axis_index(point.1 as int, pos.1 as int, size.1 as int, dims.1 as int)) {
        (Some(f), Some(r)) => Some(Square { file: f as u8, rank: r as u8 }),
        _ => None,
    }
}

/// The game after collecting the spell marked on `s`, if one is.
pub open spec fn collected(g: GameView, s: Square) -> GameView {
    match g.board.marker(s).spell_spec() {
        Some(sp) => GameView { inventory: g.inventory.push(sp), ..g },
        None => g,
    }
}

/// The game after a piece identified by `id` is dropped on `target`.
pub open spec fn move_drop(g: GameView, id: Seq<u8>, target: Option<Square>) -> GameView {
    if id.len() == 0 {
        g
    } else {
        match (target, parse_source(id)) {
            (Some(t), Some(src)) => {
                let m = Move { source: src, dest: t };
                if m.valid() && legal_in(g.board.position, m) {
                    collected(g.after_move(m), t)
                } else {
                    g
                }
            },
            _ => g,
        }
    }
}

/// The game after `spell` is dropped on the pointer position.
pub open spec fn spell_drop(g: GameView, spell: SpellHandle, target: Option<Square>) -> GameView {
    match target {
        Some(t) => spell.effect(g, Some(t)),
        None => g,
    }
}

proof fn lemma_axis_in_range(d: int, size: int, n: int)
    requires
        0 <= d < size,
        1 <= n <= 8,
    ensures
        0 <= d * n / size < n,
{
    assert(0 <= d * n) by (nonlinear_arith)
        requires
            0 <= d,
            1 <= n,
    ;
    assert(d * n < size * n) by (nonlinear_arith)
        requires
            d < size,
            1 <= n,
    ;
    assert(d * n / size < n) by (nonlinear_arith)
        requires
            d * n < size * n,
            0 < size,
            0 <= d * n,
    ;
    assert(0 <= d * n / size) by (nonlinear_arith)
        requires
            0 < size,
            0 <= d * n,
    ;
}

fn axis(p: i64, origin: i64, size: i64, n: usize) -> (r: Option<u8>)
    ensures
        match axis_index(p as int, origin as int, size as int, n as int) {
            Some(i) => r == Some(i as u8) && 0 <= i < n,
            None => r.is_none(),
        },
{
    let d: i128 = p as i128 - origin as i128;
    if size > 0 && 1 <= n && n <= 8 && 0 <= d && d < size as i128 {
        proof {
            lemma_axis_in_range(d as int, size as int, n as int);
            assert(d * n <= size * 8) by (nonlinear_arith)
                requires
                    0 <= d < size,
                    n <= 8,
            ;
        }
        let raw: i128 = d * (n as i128) / (size as i128);
        Some((n as i128 - 1 - raw) as u8)
    } else {
        None
    }
}

/// The board square under a pointer at `point`, for a board of `board_dims`
/// squares drawn `board_size` pixels large with its corner at `board_pos`.
/// The drawing is flipped on both axes; a pointer off the board gives `None`.
pub fn map_to_square(point: (i64, i64), board_size: (i64, i64), board_pos: (i64, i64), board_dims: (usize, usize)) -> (r: Option<Square>)
    ensures
        r == square_at(point, board_size, board_pos, board_dims),
        r matches Some(s) ==> s.within(board_dims) && s.valid(),
{
    let f = axis(point.0, board_pos.0, board_size.0, board_dims.0);
    let r = axis(point.1, board_pos.1, board_size.1, board_dims.1);
    match (f, r) {
        (Some(file), Some(rank)) => Some(Square { file, rank }),
        _ => None,
    }
}

/// Reads a piece identifier: two ASCII digits from 0 to 7, file then rank.
pub fn parse_source_id(id: &str) -> (r: Option<Square>)
    ensures
        r == parse_source(id.spec_bytes()),
{
    let b = id.as_bytes();
    if b.len() == 2 && 48 <= b[0] && b[0] < 56 && 48 <= b[1] && b[1] < 56 {
        Some(Square { file: b[0] - 48, rank: b[1] - 48 })
    } else {
        None
    }
}

/// Moves the piece identified by `source_id` to `target_square` where that
/// move is legal.
pub fn move_piece(game: &Game, target_square: Square, source_id: &str) -> (r: Result<Game, MoveError>)
    ensures
        match parse_source(source_id.spec_bytes()) {
            None => r == Err::<Game, MoveError>(MoveError::MalformedSourceIdentifier),
            Some(src) => {
                let m = Move { source: src, dest: target_square };
                if m.valid() && legal_in(game@.board.position, m) {
                    r matches Ok(g) && g@ == game@.after_move(m)
                } else {
                    r == Err::<Game, MoveError>(MoveError::Illegal(IllegalMoveError))
                }
            },
        },
{
    let source = match parse_source_id(source_id) {
        Some(s) => s,
        None => return Err(MoveError::MalformedSourceIdentifier),
    };
    let m = Move { source, dest: target_square };
    if target_square.on_board() && position::is_legal(game.raw_board(), m) {
        Ok(game.make_move_new(m))
    } else {
        Err(MoveError::Illegal(IllegalMoveError))
    }
}

/// Moves the spell marked on `target_square`, if any, into the inventory.
/// The marker stays on the board.
pub fn collect_spell(game: &Game, target_square: Square) -> (r: Game)
    ensures
        r@ == collected(game@, target_square),
{
    match game.board().spell_on(target_square) {
        Some(s) => game.collect_spell(target_square, s),
        None => game.snapshot(),
    }
}

/// A piece identified by `source_id` is dropped with the pointer at `point`.
/// An empty identifier, a pointer off the board, a malformed identifier or
/// an illegal move leave the game as it was.
pub fn make_move(game: &Game, source_id: &str, point: (i64, i64), board_size: (i64, i64), board_pos: (i64, i64)) -> (r: Game)
    ensures
        r@ == move_drop(game@, source_id.spec_bytes(), square_at(point, board_size, board_pos, game@.board.dims)),
{
    if source_id.len() == 0 {
        return game.snapshot();
    }
    let target_square = match map_to_square(point, board_size, board_pos, game.board().dims()) {
        Some(s) => s,
        None => return game.snapshot(),
    };
    match move_piece(game, target_square, source_id) {
        Ok(next) => collect_spell(&next, target_square),
        Err(_) => game.snapshot(),
    }
}

/// `spell` is dropped with the pointer at `point`: it takes effect on the
/// square there, whoever's turn it is. A pointer off the board changes nothing.
pub fn cast_spell(game: &Game, spell: SpellHandle, point: (i64, i64), board_size: (i64, i64), board_pos: (i64, i64)) -> (r: Game)
    ensures
        r@ == spell_drop(game@, spell, square_at(point, board_size, board_pos, game@.board.dims)),
{
    match map_to_square(point, board_size, board_pos, game.board().dims()) {
        Some(square) => spell.execute(game.snapshot(), Some(square)),
        None => game.snapshot(),
    }
}

/// On an 8x8 board at least 4 pixels wide and high, a pointer on the middle
/// pixel lands on file 3 or 4 and rank 3 or 4, and a pointer on the top-left
/// corner lands on file 7, rank 7.
pub proof fn flipped_center_and_corner(size: (i64, i64), pos: (i64, i64), center: (i64, i64))
    requires
        size.0 >= 4,
        size.1 >= 4,
        center.0 == pos.0 + size.0 / 2,
        center.1 == pos.1 + size.1 / 2,
    ensures
        square_at(center, size, pos, (8, 8)) matches Some(s) && (s.file == 3 || s.file == 4) && (s.rank == 3 || s.rank == 4),
        square_at(pos, size, pos, (8, 8)) == Some(Square { file: 7, rank: 7 }),
{
    lemma_middle_index(size.0 as int);
    lemma_middle_index(size.1 as int);
}

proof fn lemma_middle_index(s: int)
    requires
        s >= 4,
    ensures
        (s / 2) * 8 / s == 3 || (s / 2) * 8 / s == 4,
        0 <= s / 2 < s,
{
    if s % 2 == 0 {
        assert((s / 2) * 8 == 4 * s);
        assert((4 * s) / s == 4) by (nonlinear_arith)
            requires
                s > 0,
        ;
    } else {
        assert((s / 2) * 8 == 4 * s - 4);
        assert((4 * s - 4) / s == 3) by (nonlinear_arith)
            requires
                s >= 4,
        ;
    }
}

} // verus!
