//! Drawing commands: what one frame asks of the terminal.
use vstd::prelude::*;

verus! {

/// Width of the screen, in character cells.
pub const SCREEN_WIDTH: i32 = 80;

/// Height of the screen, in character cells.
pub const SCREEN_HEIGHT: i32 = 50;

/// Code page 437 index of `'@'`, the dragon's glyph.
pub const PLAYER_GLYPH: u16 = 64;

/// Code page 437 index of `'|'`, the glyph of a wall segment.
pub const WALL_GLYPH: u16 = 124;

/// The colours the game draws with.
#[derive(Clone, Copy, Debug, PartialEq, Eq, Structural)]
pub enum Color {
    Yellow,
    Red,
    Black,
    Navy,
}

/// The lines of text the game prints. The program around the library words them.
#[derive(Clone, Copy, Debug, PartialEq, Eq, Structural)]
pub enum Message {
    /// The title on the menu screen.
    Title,
    /// "(P) Play game".
    PlayPrompt,
    /// "(Q) Quit game".
    QuitPrompt,
    /// The hint shown while playing: press space to flap.
    FlapHint,
    /// The running score while playing.
    Score(i32),
    /// The death notice.
    YouDied,
    /// The final score on the death screen.
    Earned(i32),
    /// "(P) Play again".
    PlayAgain,
    /// "(Q) Quit game" on the death screen.
    QuitGame,
}

/// One drawing command.
#[derive(Clone, Copy, Debug, PartialEq, Eq, Structural)]
pub enum Draw {
    /// Clear the whole screen.
    Cls,
    /// Clear the screen to a background colour.
    ClsBg { color: Color },
    /// Put one glyph (a code page 437 index) at a cell.
    Cell { x: i32, y: i32, fg: Color, bg: Color, glyph: u16 },
    /// Print a line of text starting at a cell.
    Print { x: i32, y: i32, text: Message },
    /// Print a line of text centred on a row.
    PrintCentered { y: i32, text: Message },
}

/// What one tick hands back: the frame's drawing commands, and whether the
/// player asked to quit.
pub struct Frame {
    pub commands: Vec<Draw>,
    pub quitting: bool,
}

} // verus!
