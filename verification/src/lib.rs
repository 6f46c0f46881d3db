//! Asset taxonomy and texture-cache layer for a graphical chess board.
//!
//! The crate has two halves: a piece taxonomy (the six piece kinds, their
//! twelve colored variants, and the canonical asset file name of each
//! variant) and a name-keyed cache that is filled with one texture handle
//! per required asset by a caller-supplied loader.

pub mod cacher;
pub mod chess;
pub mod text;

pub use cacher::{CacheError, CacheState, Cacher};
pub use chess::{ChessPiece, ChessPieceKind, ChessPieceKindParseError};
