use vstd::prelude::*;
use std::sync::Arc;
use crate::position::{self, cleared, color_at, king_at, legal_in, piece_at, played};
use crate::spell::{Kind, SpellHandle};
use crate::square::{Move, Square};
use crate::warrior::JihadiWarrior;

verus! {

/// The mathematical value of a board state.
pub struct BoardView {
    pub dims: (usize, usize),
    pub position: chess::Board,
    pub markers: Seq<Kind>,
}

impl BoardView {
    /// At most 8 files and 8 ranks, one marker per square.
    pub open spec fn wf(self) -> bool {
        &&& self.dims.0 <= 8
        &&& self.dims.1 <= 8
        &&& self.markers.len() == self.dims.0 * self.dims.1
    }

    /// Index of a square in the marker sequence: `file * height + rank`.
    pub open spec fn marker_index(self, s: Square) -> int {
        s.file * self.dims.1 + s.rank
    }

    /// The marker on `s`; a square outside the board carries none.
    pub open spec fn marker(self, s: Square) -> Kind {
        if s.within(self.dims) {
            self.markers[self.marker_index(s)]
        } else {
            Kind::Empty
        }
    }

    /// The board after `m`: the position changes where `m` is legal, the
    /// markers never do.
    pub open spec fn moved(self, m: Move) -> BoardView {
        if m.valid() && legal_in(self.position, m) {
            BoardView { position: played(self.position, m), ..self }
        } else {
            self
        }
    }

    /// The board with the piece on `s` removed, where the chess rules allow it.
    /// A king is never removed.
    pub open spec fn without_piece(self, s: Square) -> BoardView {
        if s.valid() && !king_at(self.position, s) {
            match cleared(self.position, s) {
                Some(p) => BoardView { position: p, ..self },
                None => self,
            }
        } else {
            self
        }
    }

    /// The board with the pieces on `squares` removed one after the other.
    pub open spec fn without_pieces(self, squares: Seq<Square>) -> BoardView
        decreases squares.len(),
    {
        if squares.len() == 0 {
            self
        } else {
            self.without_pieces(squares.drop_last()).without_piece(squares.last())
        }
    }
}

/// Returned by `UIBoard::new` when a marker sequence does not hold one marker
/// per square.
#[derive(Clone, Copy, Debug, PartialEq, Eq, Structural)]
pub struct BoardConstructionMismatch;

/// A chess position together with the spell markers of its squares. The
/// markers are shared between the boards derived from one another.
pub struct UIBoard {
    dims: (usize, usize),
    board: chess::Board,
    spells: Arc<Vec<Kind>>,
}

impl Clone for UIBoard {
    fn clone(&self) -> (r: UIBoard)
        ensures
            r@ == self@,
    {
        self.share()
    }
}

impl View for UIBoard {
    type V = BoardView;

    closed spec fn view(&self) -> BoardView {
        BoardView { dims: self.dims, position: self.board, markers: self.spells@ }
    }
}

/// The markers of the standard board: a hidden spell on index 4, a visible
/// one on index 20, nothing elsewhere.
pub open spec fn default_markers() -> Seq<Kind> {
    Seq::new(
        64,
        |i: int|
            if i == 4 {
                Kind::Opaque(SpellHandle::Warrior(JihadiWarrior::initial()))
            } else if i == 20 {
                Kind::Transparent(SpellHandle::Warrior(JihadiWarrior::initial()))
            } else {
                Kind::Empty
            },
    )
}

impl Default for UIBoard {
    fn default() -> (r: UIBoard)
        ensures
            r@.dims == (8usize, 8usize),
            r@.markers == default_markers(),
            r@.wf(),
    {
        let mut spells: Vec<Kind> = Vec::with_capacity(64);
        let mut i: usize = 0;
        while i < 64
            invariant
                i <= 64,
                spells@ == default_markers().subrange(0, i as int),
            decreases 64 - i,
        {
            if i == 4 {
                spells.push(Kind::Opaque(SpellHandle::Warrior(JihadiWarrior::default())));
            } else if i == 20 {
                spells.push(Kind::Transparent(SpellHandle::Warrior(JihadiWarrior::default())));
            } else {
                spells.push(Kind::Empty);
            }
            i += 1;
            assert(spells@ =~= default_markers().subrange(0, i as int));
        }
        assert(spells@ =~= default_markers());
        UIBoard { dims: (8, 8), spells: Arc::new(spells), board: position::starting_position() }
    }
}

impl UIBoard {
    #[verifier::type_invariant]
    closed spec fn inv(&self) -> bool {
        self@.wf()
    }

    /// A board of `dims` over position `board`. Without markers every square
    /// is empty; given markers must hold exactly one per square.
    pub fn new(board: chess::Board, dims: (usize, usize), spells: Option<Arc<Vec<Kind>>>) -> (r: Result<UIBoard, BoardConstructionMismatch>)
        requires
            dims.0 <= 8,
            dims.1 <= 8,
        ensures
            match spells {
                None => r matches Ok(b) && b@ == (BoardView {
                    dims,
                    position: board,
                    markers: Seq::new((dims.0 * dims.1) as nat, |i: int| Kind::Empty),
                }),
                Some(v) => if v@.len() == dims.0 * dims.1 {
                    r matches Ok(b) && b@ == (BoardView { dims, position: board, markers: v@ })
                } else {
                    r == Err::<UIBoard, BoardConstructionMismatch>(BoardConstructionMismatch)
                },
            },
    {
        proof {
            assert(dims.0 * dims.1 <= 64) by (nonlinear_arith)
                requires
                    dims.0 <= 8,
                    dims.1 <= 8,
            ;
        }
        let n = dims.0 * dims.1;
        match spells {
            Some(v) => {
                if v.len() == n {
                    Ok(UIBoard { dims, board, spells: v })
                } else {
                    Err(BoardConstructionMismatch)
                }
            },
            None => {
                let mut empty: Vec<Kind> = Vec::with_capacity(n);
                let mut i: usize = 0;
                while i < n
                    invariant
                        i <= n,
                        empty@ == Seq::new(i as nat, |j: int| Kind::Empty),
                    decreases n - i,
                {
                    empty.push(Kind::Empty);
                    i += 1;
                    assert(empty@ =~= Seq::new(i as nat, |j: int| Kind::Empty));
                }
                Ok(UIBoard { dims, board, spells: Arc::new(empty) })
            },
        }
    }

    /// A board sharing the markers of `self`.
    pub fn share(&self) -> (r: UIBoard)
        ensures
            r@ == self@,
    {
        proof {
            use_type_invariant(self);
        }
        UIBoard { dims: self.dims, board: self.board, spells: self.spells.clone() }
    }

    pub fn board(&self) -> (r: &chess::Board)
        ensures
            *r == self@.position,
    {
        &self.board
    }

    pub fn piece_on(&self, square: Square) -> (r: Option<chess::Piece>)
        requires
            square.valid(),
        ensures
            r == position::piece_at(self@.position, square),
    {
        position::piece_on(&self.board, square)
    }

    pub fn color_on(&self, square: Square) -> (r: Option<chess::Color>)
        requires
            square.valid(),
        ensures
            r == position::color_at(self@.position, square),
    {
        position::color_on(&self.board, square)
    }

    /// The board after `m` where `m` is legal; otherwise the same board.
    pub fn make_move_new(&self, m: Move) -> (r: UIBoard)
        ensures
            r@ == self@.moved(m),
    {
        proof {
            use_type_invariant(self);
        }
        if m.source.on_board() && m.dest.on_board() && position::is_legal(&self.board, m) {
            let next = position::play(&self.board, m);
            UIBoard { dims: self.dims, board: next, spells: self.spells.clone() }
        } else {
            self.share()
        }
    }

    pub fn dims(&self) -> (r: (usize, usize))
        ensures
            r == self@.dims,
            r.0 <= 8,
            r.1 <= 8,
    {
        proof {
            use_type_invariant(self);
        }
        self.dims
    }

    pub fn marker_at(&self, square: Square) -> (r: Kind)
        ensures
            r == self@.marker(square),
    {
        proof {
            use_type_invariant(self);
        }
        if (square.file as usize) < self.dims.0 && (square.rank as usize) < self.dims.1 {
            proof {
                assert(square.file * self.dims.1 + square.rank < self.dims.0 * self.dims.1) by (nonlinear_arith)
                    requires
                        (square.file as usize) < self.dims.0,
                        (square.rank as usize) < self.dims.1,
                        self.dims.0 <= 8,
                        self.dims.1 <= 8,
                ;
            }
            assert(square.file * self.dims.1 <= 64) by (nonlinear_arith)
                requires
                    (square.file as usize) < self.dims.0,
                    self.dims.0 <= 8,
                    self.dims.1 <= 8,
            ;
            let idx = square.file as usize * self.dims.1 + square.rank as usize;
            self.spells[idx]
        } else {
            Kind::Empty
        }
    }

    /// The spell marked on `square`, visible or hidden.
    pub fn spell_on(&self, square: Square) -> (r: Option<SpellHandle>)
        ensures
            r == self@.marker(square).spell_spec(),
    {
        self.marker_at(square).spell()
    }

    /// The board with the piece on `square` removed; the same board where a
    /// king stands there or the chess rules refuse the removal.
    pub fn remove_piece(&self, square: Square) -> (r: UIBoard)
        requires
            square.valid(),
        ensures
            r@ == self@.without_piece(square),
            !king_at(self@.position, square) && cleared(self@.position, square).is_some()
                ==> piece_at(r@.position, square).is_none() && color_at(r@.position, square).is_none(),
            forall|t: Square| #![trigger piece_at(r@.position, t)] #![trigger color_at(r@.position, t)]
                t.valid() && t != square ==> piece_at(r@.position, t) == piece_at(self@.position, t)
                    && color_at(r@.position, t) == color_at(self@.position, t),
    {
        proof {
            use_type_invariant(self);
        }
        if position::king_on(&self.board, square) {
            return self.share();
        }
        match position::clear(&self.board, square) {
            Some(board) => UIBoard { dims: self.dims, board, spells: self.spells.clone() },
            None => self.share(),
        }
    }
}

/// Moving never touches the markers: every square keeps its marker.
pub proof fn move_keeps_markers(b: BoardView, m: Move)
    ensures
        forall|s: Square| #[trigger] b.moved(m).marker(s) == b.marker(s),
        b.moved(m).dims == b.dims,
{
}

/// Removing pieces never touches the markers: every square keeps its marker.
pub proof fn clearing_keeps_markers(b: BoardView, squares: Seq<Square>)
    ensures
        b.without_pieces(squares).markers == b.markers,
        b.without_pieces(squares).dims == b.dims,
    decreases squares.len(),
{
    if squares.len() > 0 {
        clearing_keeps_markers(b, squares.drop_last());
    }
}

} // verus!
