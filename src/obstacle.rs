//! A wall with a gap in it.
use vstd::prelude::*;

use bracket_lib::random::RandomNumberGenerator;

use crate::draw::{Color, Draw, SCREEN_HEIGHT, WALL_GLYPH};
use crate::external::{draw_in_range, glyph_code};
use crate::player::Player;

verus! {

/// Lowest row a gap may be centred on.
pub const GAP_Y_MIN: i32 = 10;

/// Gap centres lie below this row.
pub const GAP_Y_END: i32 = 40;

/// Gap height at score zero.
pub const START_GAP: i32 = 20;

/// The gap never gets smaller than this.
pub const MIN_GAP: i32 = 2;

/// Gap height for a wall made at `score`: `max(2, 20 - score)`.
pub open spec fn gap_size(score: int) -> int {
    if START_GAP - score > MIN_GAP {
        START_GAP - score
    } else {
        MIN_GAP as int
    }
}

/// The command that draws one wall segment.
pub open spec fn wall_cell(col: int, row: int) -> Draw {
    Draw::Cell { x: col as i32, y: row as i32, fg: Color::Red, bg: Color::Black, glyph: WALL_GLYPH }
}

#[derive(Clone, Copy, Debug, PartialEq, Eq, Structural)]
pub struct Obstacle {
    /// World column of the wall.
    pub x: i32,
    /// Row at the centre of the gap.
    pub gap_y: i32,
    /// Height of the gap.
    pub size: i32,
}

impl Obstacle {
    /// The gap is centred in `[10, 40)` and its height is between 2 and 20.
    pub open spec fn wf(&self) -> bool {
        &&& GAP_Y_MIN <= self.gap_y < GAP_Y_END
        &&& MIN_GAP <= self.size <= START_GAP
    }

    /// First row of the gap: rows above it are wall.
    pub open spec fn gap_top(self) -> int {
        self.gap_y - self.size / 2
    }

    /// Last row of the gap: rows below it are wall.
    pub open spec fn gap_bottom(self) -> int {
        self.gap_y + self.size / 2
    }

    /// Whether `p` crashes into this wall: it stands in the wall's column
    /// and strictly above or strictly below the gap.
    pub open spec fn hits(self, p: Player) -> bool {
        p.x == self.x && (p.y < self.gap_top() || p.y > self.gap_bottom())
    }

    /// The commands that draw the wall as seen from world column `player_x`:
    /// rows `[0, gap_top)`, then rows `[gap_bottom, SCREEN_HEIGHT)`, in the
    /// column `x - player_x`.
    pub open spec fn drawn(self, player_x: int) -> Seq<Draw> {
        let col = self.x - player_x;
        let top = self.gap_top();
        let bottom = self.gap_bottom();
        Seq::new(top as nat, |i: int| wall_cell(col, i))
            + Seq::new((SCREEN_HEIGHT - bottom) as nat, |i: int| wall_cell(col, bottom + i))
    }

    /// A wall at column `x` whose gap is centred on `gap_y`, sized for `score`.
    pub fn with_gap(x: i32, score: i32, gap_y: i32) -> (r: Obstacle)
        requires
            0 <= score,
            GAP_Y_MIN <= gap_y < GAP_Y_END,
        ensures
            r == (Obstacle { x, gap_y, size: gap_size(score as int) as i32 }),
            r.wf(),
    {
        let size = if START_GAP - score > MIN_GAP {
            START_GAP - score
        } else {
            MIN_GAP
        };
        Obstacle { x, gap_y, size }
    }

    /// A new wall at column `x` for `score`, its gap centre drawn from `rng`
    /// in `[10, 40)`.
    pub fn new(x: i32, score: i32, rng: &mut RandomNumberGenerator) -> (r: Obstacle)
        requires
            0 <= score,
        ensures
            r.x == x,
            GAP_Y_MIN <= r.gap_y < GAP_Y_END,
            r.size == gap_size(score as int),
            r.wf(),
    {
        let gap_y = draw_in_range(rng, GAP_Y_MIN, GAP_Y_END);
        Obstacle::with_gap(x, score, gap_y)
    }

    /// The commands that draw the wall as seen from world column `player_x`.
    pub fn render(&self, player_x: i32) -> (r: Vec<Draw>)
        requires
            self.wf(),
            i32::MIN <= self.x - player_x <= i32::MAX,
        ensures
            r@ == self.drawn(player_x as int),
    {
        let glyph = glyph_code('|');
        let screen_x = self.x - player_x;
        let half_size = self.size / 2;
        let top = self.gap_y - half_size;
        let bottom = self.gap_y + half_size;
        let mut r: Vec<Draw> = Vec::new();
        let mut y: i32 = 0;
        while y < top
            invariant
                0 <= y <= top,
                top == self.gap_top(),
                screen_x == self.x - player_x,
                glyph == WALL_GLYPH,
                r@ == Seq::new(y as nat, |i: int| wall_cell(screen_x as int, i)),
            decreases top - y,
        {
            r.push(Draw::Cell { x: screen_x, y, fg: Color::Red, bg: Color::Black, glyph });
            y = y + 1;
            assert(r@ =~= Seq::new(y as nat, |i: int| wall_cell(screen_x as int, i)));
        }
        let ghost upper = r@;
        let mut y: i32 = bottom;
        while y < SCREEN_HEIGHT
            invariant
                bottom <= y <= SCREEN_HEIGHT,
                bottom == self.gap_bottom(),
                screen_x == self.x - player_x,
                glyph == WALL_GLYPH,
                upper == self.drawn(player_x as int).subrange(0, self.gap_top()),
                self.gap_top() <= self.gap_bottom(),
                r@ == upper + Seq::new((y - bottom) as nat, |i: int| wall_cell(screen_x as int, bottom + i)),
            decreases SCREEN_HEIGHT - y,
        {
            r.push(Draw::Cell { x: screen_x, y, fg: Color::Red, bg: Color::Black, glyph });
            y = y + 1;
            assert(r@ =~= upper + Seq::new((y - bottom) as nat, |i: int| wall_cell(screen_x as int, bottom + i)));
        }
        assert(r@ =~= self.drawn(player_x as int));
        r
    }

    /// Whether `player` crashes into this wall.
    pub fn hit_obstacle(&self, player: &Player) -> (r: bool)
        requires
            self.wf(),
        ensures
            r == self.hits(*player),
    {
        let half_size = self.size / 2;
        let does_x_match = player.x == self.x;
        let player_above_gap = player.y < self.gap_y - half_size;
        let player_below_gap = player.y > self.gap_y + half_size;
        does_x_match && (player_above_gap || player_below_gap)
    }
}

} // verus!

verus! {

/// The gap never closes below two rows, whatever the score (from 18 on it
/// is exactly two), and it never grows as the score does.
pub proof fn lemma_gap_size_floor(score: int, later: int)
    requires
        score <= later,
    ensures
        gap_size(score) >= MIN_GAP,
        score >= START_GAP - MIN_GAP ==> gap_size(score) == MIN_GAP,
        gap_size(later) <= gap_size(score),
{
}

} // verus!
