//! Board-representation core for a grid-based two-player placement game.
//!
//! A fixed-size square grid of tri-state cells ([`Piece`]) with
//! bounds-checked access ([`Board`]), immutable snapshots of the cells along
//! any straight line through the grid ([`Line`]), and a state machine that
//! enumerates every maximal row, column and diagonal exactly once
//! ([`LineIterator`]).

pub mod board;
pub mod enumerate;
pub mod line;
pub mod piece;

pub use board::Board;
pub use board::BOARD_SIZE;
pub use board::CENTER;
pub use enumerate::LineIterator;
pub use enumerate::State;
pub use line::Line;
pub use piece::BoardError;
pub use piece::Piece;
