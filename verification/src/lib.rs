//! A falling-block puzzle engine: the pieces and their geometry, the board
//! with its falling piece, the supply of pieces, and the session that turns
//! commands and timers into moves, locks, cleared lines and score. Every
//! function has a contract over a mathematical model of its data, and every
//! contract is proved.

/// The board: moves, rotation with wall kicks, hard drop, line clearing.
pub mod board;
/// The board as contracts see it, and what its operations do to it.
pub mod grid;
/// The list of scores of past games.
pub mod highscores;
/// What every operation keeps: the validity of boards and sessions.
pub mod laws;
/// Full rows and what clearing them leaves.
pub mod lines;
/// The seven pieces: their cells, extents and kick candidates.
pub mod piece;
/// The supply of pieces: bags of seven, or single draws.
pub mod randomizer;
/// The messages, timers and events of a session, and what each message does.
pub mod rules;
/// Points and levels.
pub mod scoring;
/// The session: the state machine behind a game.
pub mod session;
/// What a session is configured with, and how options are read.
pub mod settings;
/// Numbers written in text.
pub mod text;
