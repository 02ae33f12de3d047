//! The game session: menu, playing and dead modes, driven one tick at a time.
use vstd::prelude::*;

use bracket_lib::random::RandomNumberGenerator;

use crate::draw::{Color, Draw, Frame, Message, SCREEN_HEIGHT, SCREEN_WIDTH};
use crate::external::fresh_rng;
use crate::obstacle::{gap_size, Obstacle, GAP_Y_END, GAP_Y_MIN};
use crate::player::Player;

verus! {

/// Milliseconds that must pass before the next physics step.
pub const FRAME_DURATION: u32 = 75;

/// Column the player starts at.
pub const START_X: i32 = 6;

/// Row the player starts at.
pub const START_Y: i32 = 25;

/// The three modes of a session.
#[derive(Clone, Copy, Debug, PartialEq, Eq, Structural)]
pub enum GameMode {
    Menu,
    Playing,
    Dead,
}

/// The keys the game reacts to; the program maps any other key to none.
#[derive(Clone, Copy, Debug, PartialEq, Eq, Structural)]
pub enum Key {
    /// Flap.
    Space,
    /// Play, or play again.
    P,
    /// Quit.
    Q,
}

/// The player a session starts and restarts with.
pub open spec fn start_player() -> Player {
    Player { x: START_X, y: START_Y, velocity: 0 }
}

/// Whether `frame_time + elapsed` milliseconds are enough for a physics step.
pub open spec fn step_due(frame_time: int, elapsed: int) -> bool {
    frame_time + elapsed > FRAME_DURATION
}

/// The player after a tick in play: a physics step when one is due, then a
/// flap when the key is space.
pub open spec fn moved_player(p: Player, frame_time: int, elapsed: int, key: Option<Key>) -> Player {
    let stepped = if step_due(frame_time, elapsed) { p.advanced() } else { p };
    if key == Some(Key::Space) { stepped.flapped() } else { stepped }
}

/// The commands of a tick in play, where `p` is the player after moving,
/// `score` the score before the tick and `o` the wall before the tick.
pub open spec fn play_commands(p: Player, score: i32, o: Obstacle) -> Seq<Draw> {
    seq![
        Draw::ClsBg { color: Color::Navy },
        p.drawn(),
        Draw::Print { x: 0, y: 0, text: Message::FlapHint },
        Draw::Print { x: 0, y: 1, text: Message::Score(score) },
    ] + o.drawn(p.x as int)
}

/// The commands of the menu screen.
pub open spec fn menu_commands() -> Seq<Draw> {
    seq![
        Draw::Cls,
        Draw::PrintCentered { y: 5, text: Message::Title },
        Draw::PrintCentered { y: 10, text: Message::PlayPrompt },
        Draw::PrintCentered { y: 13, text: Message::QuitPrompt },
    ]
}

/// The commands of the death screen for `score`.
pub open spec fn dead_commands(score: i32) -> Seq<Draw> {
    seq![
        Draw::Cls,
        Draw::PrintCentered { y: 5, text: Message::YouDied },
        Draw::PrintCentered { y: 6, text: Message::Earned(score) },
        Draw::PrintCentered { y: 8, text: Message::PlayAgain },
        Draw::PrintCentered { y: 9, text: Message::QuitGame },
    ]
}

pub struct State {
    pub player: Player,
    /// Milliseconds gathered since the last physics step.
    pub frame_time: u32,
    pub obstacle: Obstacle,
    pub mode: GameMode,
    /// Walls passed since the last restart.
    pub score: i32,
    /// The one random source of the session, drawn from for each new wall.
    pub rng: RandomNumberGenerator,
}

/// `t` is `s` restarted: the start player, no time gathered, no score, in
/// play; the wall is kept.
pub open spec fn restarted(s: State, t: State) -> bool {
    &&& t.player == start_player()
    &&& t.frame_time == 0
    &&& t.score == 0
    &&& t.mode == GameMode::Playing
    &&& t.obstacle == s.obstacle
}

/// `t` and `f` are what a tick in play makes of `s`, with `elapsed`
/// milliseconds and `key`.
pub open spec fn play_step(s: State, t: State, elapsed: int, key: Option<Key>, f: Frame) -> bool {
    let p = moved_player(s.player, s.frame_time as int, elapsed, key);
    let scored = p.x > s.obstacle.x;
    &&& t.player == p
    &&& t.frame_time == (if step_due(s.frame_time as int, elapsed) { 0 } else { s.frame_time + elapsed })
    &&& t.score == s.score + (if scored { 1int } else { 0 })
    &&& scored ==> {
        &&& t.obstacle.x == p.x + SCREEN_WIDTH
        &&& t.obstacle.size == gap_size(t.score as int)
        &&& GAP_Y_MIN <= t.obstacle.gap_y < GAP_Y_END
    }
    &&& !scored ==> t.obstacle == s.obstacle
    &&& t.mode == (if p.y > SCREEN_HEIGHT || t.obstacle.hits(p) { GameMode::Dead } else { GameMode::Playing })
    &&& f.commands@ == play_commands(p, s.score, s.obstacle)
    &&& !f.quitting
}

/// `t` and `f` are what a tick on a screen with the given commands and
/// `key` makes of `s`: P restarts, Q asks to quit, anything else changes nothing.
pub open spec fn screen_step(s: State, t: State, key: Option<Key>, f: Frame, commands: Seq<Draw>) -> bool {
    &&& f.commands@ == commands
    &&& f.quitting == (key == Some(Key::Q))
    &&& key == Some(Key::P) ==> restarted(s, t)
    &&& key != Some(Key::P) ==> {
        &&& t.player == s.player
        &&& t.frame_time == s.frame_time
        &&& t.score == s.score
        &&& t.mode == s.mode
        &&& t.obstacle == s.obstacle
    }
}

/// `t` and `f` are what one tick makes of `s`, by its mode.
pub open spec fn tick_step(s: State, t: State, elapsed: int, key: Option<Key>, f: Frame) -> bool {
    match s.mode {
        GameMode::Menu => screen_step(s, t, key, f, menu_commands()),
        GameMode::Playing => play_step(s, t, elapsed, key, f),
        GameMode::Dead => screen_step(s, t, key, f, dead_commands(s.score)),
    }
}

impl State {
    /// The session's invariant: the parts are well formed, the player is on
    /// screen (and not below it while playing), has not passed the wall,
    /// the score is bounded by the wall's column, and less than one physics
    /// step of time is gathered.
    pub open spec fn wf(&self) -> bool {
        &&& self.player.wf()
        &&& self.obstacle.wf()
        &&& 0 <= self.player.x <= self.obstacle.x
        &&& 0 <= self.player.y <= SCREEN_HEIGHT + 2
        &&& self.mode == GameMode::Playing ==> self.player.y <= SCREEN_HEIGHT
        &&& SCREEN_WIDTH <= self.obstacle.x
        &&& 0 <= self.score <= self.obstacle.x
        &&& self.frame_time <= FRAME_DURATION
    }

    /// There is room in `i32` for the next wall to be placed a screen ahead.
    pub open spec fn has_room(&self) -> bool {
        self.obstacle.x < i32::MAX - SCREEN_WIDTH
    }

    /// A fresh session on the menu, with the first wall one screen ahead.
    pub fn new() -> (r: State)
        ensures
            r.wf(),
            r.mode == GameMode::Menu,
            r.player == start_player(),
            r.frame_time == 0,
            r.score == 0,
            r.obstacle.x == SCREEN_WIDTH,
            r.obstacle.size == gap_size(0),
    {
        let mut rng = fresh_rng();
        let obstacle = Obstacle::new(SCREEN_WIDTH, 0, &mut rng);
        State {
            player: Player::new(START_X, START_Y),
            frame_time: 0,
            obstacle,
            mode: GameMode::Menu,
            score: 0,
            rng,
        }
    }

    /// One tick in play, `elapsed` milliseconds after the last.
    pub fn play(&mut self, elapsed: u32, key: Option<Key>) -> (r: Frame)
        requires
            old(self).wf(),
            old(self).has_room(),
            old(self).mode == GameMode::Playing,
        ensures
            final(self).wf(),
            play_step(*old(self), *final(self), elapsed as int, key, r),
    {
        let mut commands: Vec<Draw> = Vec::new();
        commands.push(Draw::ClsBg { color: Color::Navy });
        let gathered: u64 = self.frame_time as u64 + elapsed as u64;
        if gathered > FRAME_DURATION as u64 {
            self.frame_time = 0;
            self.player.gravity_and_move();
        } else {
            self.frame_time = gathered as u32;
        }
        match key {
            Some(Key::Space) => self.player.flap(),
            _ => {},
        }
        commands.push(self.player.render());
        commands.push(Draw::Print { x: 0, y: 0, text: Message::FlapHint });
        commands.push(Draw::Print { x: 0, y: 1, text: Message::Score(self.score) });
        let walls = self.obstacle.render(self.player.x);
        let ghost before = commands@;
        let mut i: usize = 0;
        while i < walls.len()
            invariant
                0 <= i <= walls@.len(),
                commands@ == before + walls@.subrange(0, i as int),
            decreases walls@.len() - i,
        {
            commands.push(walls[i]);
            i = i + 1;
            assert(commands@ =~= before + walls@.subrange(0, i as int));
        }
        assert(walls@.subrange(0, walls@.len() as int) =~= walls@);
        assert(commands@ =~= play_commands(self.player, old(self).score, old(self).obstacle));
        if self.player.x > self.obstacle.x {
            self.score = self.score + 1;
            self.obstacle = Obstacle::new(self.player.x + SCREEN_WIDTH, self.score, &mut self.rng);
        }
        if self.player.y > SCREEN_HEIGHT || self.obstacle.hit_obstacle(&self.player) {
            self.mode = GameMode::Dead;
        }
        Frame { commands, quitting: false }
    }

    /// Back into play: the start player, no time gathered, no score.
    pub fn restart(&mut self)
        requires
            old(self).wf(),
        ensures
            final(self).wf(),
            restarted(*old(self), *final(self)),
    {
        self.player = Player::new(START_X, START_Y);
        self.frame_time = 0;
        self.mode = GameMode::Playing;
        self.score = 0;
    }

    /// The menu screen: P starts a game, Q asks to quit.
    pub fn main_menu(&mut self, key: Option<Key>) -> (r: Frame)
        requires
            old(self).wf(),
        ensures
            final(self).wf(),
            screen_step(*old(self), *final(self), key, r, menu_commands()),
    {
        let commands = vec![
            Draw::Cls,
            Draw::PrintCentered { y: 5, text: Message::Title },
            Draw::PrintCentered { y: 10, text: Message::PlayPrompt },
            Draw::PrintCentered { y: 13, text: Message::QuitPrompt },
        ];
        let quitting = self.screen_key(key);
        assert(commands@ =~= menu_commands());
        Frame { commands, quitting }
    }

    /// The death screen with the final score: P plays again, Q asks to quit.
    pub fn dead(&mut self, key: Option<Key>) -> (r: Frame)
        requires
            old(self).wf(),
        ensures
            final(self).wf(),
            screen_step(*old(self), *final(self), key, r, dead_commands(old(self).score)),
    {
        let commands = vec![
            Draw::Cls,
            Draw::PrintCentered { y: 5, text: Message::YouDied },
            Draw::PrintCentered { y: 6, text: Message::Earned(self.score) },
            Draw::PrintCentered { y: 8, text: Message::PlayAgain },
            Draw::PrintCentered { y: 9, text: Message::QuitGame },
        ];
        let quitting = self.screen_key(key);
        assert(commands@ =~= dead_commands(old(self).score));
        Frame { commands, quitting }
    }

    /// The keys of the menu and death screens: P restarts; the result says
    /// whether Q asked to quit.
    fn screen_key(&mut self, key: Option<Key>) -> (quitting: bool)
        requires
            old(self).wf(),
        ensures
            final(self).wf(),
            quitting == (key == Some(Key::Q)),
            key == Some(Key::P) ==> restarted(*old(self), *final(self)),
            key != Some(Key::P) ==> {
                &&& final(self).player == old(self).player
                &&& final(self).frame_time == old(self).frame_time
                &&& final(self).score == old(self).score
                &&& final(self).mode == old(self).mode
                &&& final(self).obstacle == old(self).obstacle
            },
    {
        match key {
            Some(Key::P) => {
                self.restart();
                false
            },
            Some(Key::Q) => true,
            _ => false,
        }
    }

    /// One tick of the session, `elapsed` milliseconds after the last, with
    /// the key pressed during it, if any.
    pub fn tick(&mut self, elapsed: u32, key: Option<Key>) -> (r: Frame)
        requires
            old(self).wf(),
            old(self).has_room(),
        ensures
            final(self).wf(),
            tick_step(*old(self), *final(self), elapsed as int, key, r),
    {
        match self.mode {
            GameMode::Menu => self.main_menu(key),
            GameMode::Dead => self.dead(key),
            GameMode::Playing => self.play(elapsed, key),
        }
    }
}

} // verus!

verus! {

/// The player's column moves only by physics steps, one column each: over
/// a tick that does not restart the game, it grows by exactly one when the
/// tick is in play and a step is due, and stays put otherwise (drawing
/// alone never moves it).
pub proof fn lemma_column_advances_per_step(s: State, t: State, elapsed: int, key: Option<Key>, f: Frame)
    requires
        s.wf(),
        s.has_room(),
        0 <= elapsed,
        tick_step(s, t, elapsed, key, f),
        !(s.mode != GameMode::Playing && key == Some(Key::P)),
    ensures
        t.player.x == s.player.x + (if s.mode == GameMode::Playing && step_due(s.frame_time as int, elapsed) {
            1int
        } else {
            0
        }),
        t.player.x >= s.player.x,
{
}

/// Passing a wall scores exactly one, on the tick the player's column first
/// exceeds the wall's, and the same wall never scores twice: the wall is
/// replaced by one a screen ahead, so the next tick in play cannot score.
pub proof fn lemma_score_once_per_wall(
    s: State,
    t: State,
    u: State,
    e1: int,
    e2: int,
    k1: Option<Key>,
    k2: Option<Key>,
    f1: Frame,
    f2: Frame,
)
    requires
        s.wf(),
        s.has_room(),
        0 <= e1,
        0 <= e2,
        play_step(s, t, e1, k1, f1),
        play_step(t, u, e2, k2, f2),
    ensures
        t.score == s.score + (if t.player.x > s.obstacle.x { 1int } else { 0 }),
        t.player.x <= t.obstacle.x,
        t.score == s.score + 1 ==> u.score == t.score,
{
}

/// A restart, from the menu or from the death screen, puts the game in play
/// with no score, no gathered time, and the player at rest at the start.
pub proof fn lemma_restart_resets(s: State, t: State, elapsed: int, f: Frame)
    requires
        s.mode != GameMode::Playing,
        tick_step(s, t, elapsed, Some(Key::P), f),
    ensures
        t.mode == GameMode::Playing,
        t.score == 0,
        t.frame_time == 0,
        t.player.x == START_X,
        t.player.y == START_Y,
        t.player.velocity == 0,
        !f.quitting,
{
}

} // verus!

verus! {

/// Among the first `n` ticks of a run, those that made a physics step: ticks
/// in play whose gathered time passed the frame duration.
pub open spec fn physics_steps(states: Seq<State>, elapsed: Seq<int>, n: nat) -> nat
    decreases n,
{
    if n == 0 {
        0
    } else {
        let i = n - 1;
        physics_steps(states, elapsed, (n - 1) as nat) + (if states[i].mode == GameMode::Playing
            && step_due(states[i].frame_time as int, elapsed[i]) {
            1nat
        } else {
            0nat
        })
    }
}

/// Over any run of ticks without a restart, the player's column grows by
/// exactly the number of physics steps taken, so it never decreases.
pub proof fn lemma_column_counts_steps(
    states: Seq<State>,
    elapsed: Seq<int>,
    keys: Seq<Option<Key>>,
    frames: Seq<Frame>,
    n: nat,
)
    requires
        states.len() == n + 1,
        elapsed.len() == n,
        keys.len() == n,
        frames.len() == n,
        forall|i: int|
            0 <= i < n ==> {
                &&& states[i].wf()
                &&& states[i].has_room()
                &&& 0 <= elapsed[i]
                &&& tick_step(#[trigger] states[i], states[i + 1], elapsed[i], keys[i], frames[i])
                &&& !(states[i].mode != GameMode::Playing && keys[i] == Some(Key::P))
            },
    ensures
        states[n as int].player.x == states[0].player.x + physics_steps(states, elapsed, n),
        states[n as int].player.x >= states[0].player.x,
    decreases n,
{
    if n > 0 {
        let m = (n - 1) as nat;
        let i = m as int;
        lemma_column_counts_steps(
            states.subrange(0, n as int),
            elapsed.subrange(0, i),
            keys.subrange(0, i),
            frames.subrange(0, i),
            m,
        );
        lemma_physics_steps_agree(states.subrange(0, n as int), elapsed.subrange(0, i), states, elapsed, m);
        lemma_column_advances_per_step(states[i], states[i + 1], elapsed[i], keys[i], frames[i]);
    }
}

/// The count of physics steps over the first `n` ticks depends on those
/// ticks alone.
proof fn lemma_physics_steps_agree(s1: Seq<State>, e1: Seq<int>, s2: Seq<State>, e2: Seq<int>, n: nat)
    requires
        forall|i: int| 0 <= i < n ==> s1[i] == s2[i] && e1[i] == e2[i],
    ensures
        physics_steps(s1, e1, n) == physics_steps(s2, e2, n),
    decreases n,
{
    if n > 0 {
        lemma_physics_steps_agree(s1, e1, s2, e2, (n - 1) as nat);
    }
}

} // verus!
