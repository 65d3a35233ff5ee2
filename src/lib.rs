//! Hexagonal chessboard core: axial coordinates, board generation and the
//! three-band colouring, and the tile-selection state machine.
pub mod board;
pub mod chess;
pub mod coord;
pub mod selection;
