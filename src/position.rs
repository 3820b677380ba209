//! The chess rules come from the `chess` crate. Its position type is carried
//! opaquely; every question asked of it goes through one of the items below.
use vstd::prelude::*;
use crate::square::{Move, Square};

verus! {

#[verifier::external_type_specification]
#[verifier::external_body]
pub struct ExBoard(chess::Board);

#[verifier::external_type_specification]
#[verifier::external_body]
pub struct ExPiece(chess::Piece);

#[verifier::external_type_specification]
#[verifier::external_body]
pub struct ExColor(chess::Color);

/// Whether `m` (without promotion) is among the legal moves of position `b`.
pub uninterp spec fn legal_in(b: chess::Board, m: Move) -> bool;

/// The position after playing `m` on `b`.
pub uninterp spec fn played(b: chess::Board, m: Move) -> chess::Board;

/// The position `b` with square `s` emptied, or `None` where the result is not
/// a sane position (the side not to move would stand in check).
pub uninterp spec fn cleared(b: chess::Board, s: Square) -> Option<chess::Board>;

/// Whether a king stands on `s` in `b`.
pub uninterp spec fn king_at(b: chess::Board, s: Square) -> bool;

/// The piece standing on `s` in `b`.
pub uninterp spec fn piece_at(b: chess::Board, s: Square) -> Option<chess::Piece>;

/// The colour of the piece standing on `s` in `b`.
pub uninterp spec fn color_at(b: chess::Board, s: Square) -> Option<chess::Color>;

/// Relies on `chess::Board::default`: the standard starting position.
#[verifier::external_body]
pub(crate) fn starting_position() -> (r: chess::Board) {
    chess::Board::default()
}

/// Relies on `chess::MoveGen::new_legal`: whether the move from `m.source`
/// to `m.dest` without promotion is enumerated as legal for `b`.
#[verifier::external_body]
pub(crate) fn is_legal(b: &chess::Board, m: Move) -> (r: bool)
    requires
        m.valid(),
    ensures
        r == legal_in(*b, m),
{
    let source = chess::Square::make_square(chess::Rank::from_index(m.source.rank as usize), chess::File::from_index(m.source.file as usize));
    let dest = chess::Square::make_square(chess::Rank::from_index(m.dest.rank as usize), chess::File::from_index(m.dest.file as usize));
    let candidate = chess::ChessMove::new(source, dest, None);
    chess::MoveGen::new_legal(b).any(|l| l == candidate)
}

/// Relies on `chess::Board::make_move_new`, which unwraps the piece on the
/// source square and so is only called on a legal move.
#[verifier::external_body]
pub(crate) fn play(b: &chess::Board, m: Move) -> (r: chess::Board)
    requires
        m.valid(),
        legal_in(*b, m),
    ensures
        r == played(*b, m),
        piece_at(r, m.dest) == piece_at(*b, m.source),
        piece_at(r, m.source).is_none(),
{
    let source = chess::Square::make_square(chess::Rank::from_index(m.source.rank as usize), chess::File::from_index(m.source.file as usize));
    let dest = chess::Square::make_square(chess::Rank::from_index(m.dest.rank as usize), chess::File::from_index(m.dest.file as usize));
    b.make_move_new(chess::ChessMove::new(source, dest, None))
}

/// Relies on `chess::Board::clear_square`: the position with the piece on
/// `s` taken out of the bitboards and every other square as it was, or `None`
/// where that position is not sane. It is not called on a king's square:
/// without a king the pin update reads past its tables.
#[verifier::external_body]
#[allow(deprecated)]
pub(crate) fn clear(b: &chess::Board, s: Square) -> (r: Option<chess::Board>)
    requires
        s.valid(),
        !king_at(*b, s),
    ensures
        r == cleared(*b, s),
        r matches Some(n) ==> {
            &&& piece_at(n, s).is_none()
            &&& color_at(n, s).is_none()
            &&& forall|t: Square| #![trigger piece_at(n, t)] #![trigger color_at(n, t)]
                t.valid() && t != s ==> piece_at(n, t) == piece_at(*b, t) && color_at(n, t) == color_at(*b, t)
        },
{
    b.clear_square(chess::Square::make_square(chess::Rank::from_index(s.rank as usize), chess::File::from_index(s.file as usize)))
}

/// Relies on `chess::Board::piece_on`: whether the piece on `s` is a king.
#[verifier::external_body]
pub(crate) fn king_on(b: &chess::Board, s: Square) -> (r: bool)
    requires
        s.valid(),
    ensures
        r == king_at(*b, s),
{
    match b.piece_on(chess::Square::make_square(chess::Rank::from_index(s.rank as usize), chess::File::from_index(s.file as usize))) {
        Some(chess::Piece::King) => true,
        _ => false,
    }
}

/// Relies on `chess::Board::piece_on`: the piece on `s`, if any.
#[verifier::external_body]
pub(crate) fn piece_on(b: &chess::Board, s: Square) -> (r: Option<chess::Piece>)
    requires
        s.valid(),
    ensures
        r == piece_at(*b, s),
{
    b.piece_on(chess::Square::make_square(chess::Rank::from_index(s.rank as usize), chess::File::from_index(s.file as usize)))
}

/// Relies on `chess::Board::color_on`: the colour of the piece on `s`, if any.
#[verifier::external_body]
pub(crate) fn color_on(b: &chess::Board, s: Square) -> (r: Option<chess::Color>)
    requires
        s.valid(),
    ensures
        r == color_at(*b, s),
{
    b.color_on(chess::Square::make_square(chess::Rank::from_index(s.rank as usize), chess::File::from_index(s.file as usize)))
}

} // verus!
