use vstd::prelude::*;

verus! {

/// Number of files and of ranks on the chess board.
pub const BOARD_SIDE: u8 = 8;

/// A board coordinate: a file (column) and a rank (row), both counted from zero.
#[derive(Clone, Copy, Debug, PartialEq, Eq, Structural)]
pub struct Square {
    pub file: u8,
    pub rank: u8,
}

impl Square {
    /// The square lies on the 8x8 chess board.
    pub open spec fn valid(self) -> bool {
        self.file < BOARD_SIDE && self.rank < BOARD_SIDE
    }

    /// The square lies inside a board of `width` files and `height` ranks.
    pub open spec fn within(self, dims: (usize, usize)) -> bool {
        (self.file as int) < dims.0 && (self.rank as int) < dims.1
    }

    /// The key under which a square is stored in the cast ledgers: `rank * 8 + file`.
    pub open spec fn key_spec(self) -> usize {
        (self.rank as usize * 8 + self.file as usize) as usize
    }

    /// The ledger key `k` names a square inside a board of `dims`.
    pub open spec fn key_within(k: usize, dims: (usize, usize)) -> bool {
        (k % 8) < dims.0 && (k / 8) < dims.1
    }

    pub fn new(file: u8, rank: u8) -> (r: Square)
        ensures
            r.file == file,
            r.rank == rank,
    {
        Square { file, rank }
    }

    pub fn on_board(&self) -> (r: bool)
        ensures
            r == self.valid(),
    {
        self.file < BOARD_SIDE && self.rank < BOARD_SIDE
    }

    pub fn key(&self) -> (r: usize)
        ensures
            r == self.key_spec(),
    {
        self.rank as usize * 8 + self.file as usize
    }
}

/// A piece relocation from `source` to `dest`, without promotion.
#[derive(Clone, Copy, Debug, PartialEq, Eq, Structural)]
pub struct Move {
    pub source: Square,
    pub dest: Square,
}

impl Move {
    pub open spec fn valid(self) -> bool {
        self.source.valid() && self.dest.valid()
    }

    pub fn new(source: Square, dest: Square) -> (r: Move)
        ensures
            r.source == source,
            r.dest == dest,
    {
        Move { source, dest }
    }
}

} // verus!
