//! Flappy Dragon: a side-scrolling avoidance game.
//!
//! The library holds the whole game simulation: the dragon's physics, the
//! walls with their gaps, collisions, scoring and the menu / playing / dead
//! state machine. Each tick returns the drawing commands for the frame; the
//! program around the library replays them on a terminal.
pub mod draw;
pub mod external;
pub mod obstacle;
pub mod player;
pub mod session;
