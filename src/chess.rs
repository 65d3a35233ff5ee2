use vstd::prelude::*;

verus! {

/// The colour band a tile belongs to.
#[derive(Clone, Copy, PartialEq, Eq, Structural, Debug)]
pub enum TileColor {
    BLACK,
    GREY,
    WHITE,
}

/// The side a piece plays for.
#[derive(Clone, Copy, PartialEq, Eq, Structural, Debug)]
pub enum Team {
    WHITE,
    BLACK,
}

/// What, if anything, stands on a tile.
#[derive(Clone, Copy, PartialEq, Eq, Structural, Debug)]
pub enum Occupation {
    PAWN(Team),
    KNIGHT(Team),
    BISHOP(Team),
    ROOK(Team),
    QUEEN(Team),
    KING(Team),
    NONE,
}

/// The metadata of one board tile.
#[derive(Clone, Copy, PartialEq, Eq, Structural, Debug)]
pub struct ChessTile {
    pub color: TileColor,
    pub piece: Occupation,
}

impl ChessTile {
    pub fn new(color: TileColor, piece: Occupation) -> (t: ChessTile)
        ensures
            t.color == color,
            t.piece == piece,
    {
        ChessTile { color: color, piece: piece }
    }
}

} // verus!
