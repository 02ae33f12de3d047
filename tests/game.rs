use bracket_lib::random::RandomNumberGenerator;
use flappy_dragon::draw::{Color, Draw, Message};
use flappy_dragon::obstacle::Obstacle;
use flappy_dragon::player::Player;
use flappy_dragon::session::{GameMode, Key, State};

fn playing_state() -> State {
    let mut s = State::new();
    s.tick(0, Some(Key::P));
    assert_eq!(s.mode, GameMode::Playing);
    s
}

#[test]
fn collision_above_below_and_inside_gap() {
    let wall = Obstacle::with_gap(30, 10, 25);
    assert_eq!(wall.size, 10);
    assert!(wall.hit_obstacle(&Player::new(30, 15)));
    assert!(wall.hit_obstacle(&Player::new(30, 35)));
    assert!(!wall.hit_obstacle(&Player::new(30, 25)));
    assert!(!wall.hit_obstacle(&Player::new(30, 20)));
    assert!(!wall.hit_obstacle(&Player::new(30, 30)));
    assert!(!wall.hit_obstacle(&Player::new(29, 15)));
}

#[test]
fn gap_size_shrinks_with_score_down_to_two() {
    assert_eq!(Obstacle::with_gap(0, 0, 20).size, 20);
    assert_eq!(Obstacle::with_gap(0, 5, 20).size, 15);
    assert_eq!(Obstacle::with_gap(0, 17, 20).size, 3);
    assert_eq!(Obstacle::with_gap(0, 18, 20).size, 2);
    assert_eq!(Obstacle::with_gap(0, 19, 20).size, 2);
    assert_eq!(Obstacle::with_gap(0, 1000, 20).size, 2);
}

#[test]
fn new_obstacle_gap_in_range() {
    let mut rng = RandomNumberGenerator::seeded(7);
    for score in 0..200 {
        let o = Obstacle::new(90, score, &mut rng);
        assert_eq!(o.x, 90);
        assert!(o.gap_y >= 10 && o.gap_y < 40);
        assert!(o.size >= 2);
        assert_eq!(o.size, std::cmp::max(2, 20 - score));
    }
}

#[test]
fn gravity_builds_up_and_caps() {
    let mut p = Player::new(6, 25);
    p.gravity_and_move();
    assert_eq!((p.x, p.y, p.velocity), (7, 25, 2));
    for _ in 0..4 {
        p.gravity_and_move();
    }
    assert_eq!((p.x, p.y, p.velocity), (11, 26, 10));
    for _ in 0..5 {
        p.gravity_and_move();
    }
    assert_eq!(p.velocity, 20);
    for _ in 0..10 {
        p.gravity_and_move();
        assert_eq!(p.velocity, 20);
    }
    assert_eq!(p.x, 26);
}

#[test]
fn flap_moves_up_and_stops_at_top() {
    let mut p = Player::new(6, 25);
    p.flap();
    assert_eq!(p.velocity, -20);
    p.gravity_and_move();
    assert_eq!((p.x, p.y, p.velocity), (7, 24, -18));
    let mut q = Player::new(0, 0);
    q.flap();
    q.gravity_and_move();
    assert_eq!((q.x, q.y), (1, 0));
}

#[test]
fn player_drawn_as_yellow_at() {
    let p = Player::new(40, 12);
    assert_eq!(
        p.render(),
        Draw::Cell { x: 0, y: 12, fg: Color::Yellow, bg: Color::Black, glyph: 64 }
    );
}

#[test]
fn obstacle_drawn_around_gap() {
    let o = Obstacle::with_gap(50, 0, 25);
    let cells = o.render(6);
    assert_eq!(cells.len(), 30);
    assert_eq!(cells[0], Draw::Cell { x: 44, y: 0, fg: Color::Red, bg: Color::Black, glyph: 124 });
    assert_eq!(cells[14], Draw::Cell { x: 44, y: 14, fg: Color::Red, bg: Color::Black, glyph: 124 });
    assert_eq!(cells[15], Draw::Cell { x: 44, y: 35, fg: Color::Red, bg: Color::Black, glyph: 124 });
    assert_eq!(cells[29], Draw::Cell { x: 44, y: 49, fg: Color::Red, bg: Color::Black, glyph: 124 });
}

#[test]
fn rendering_twice_gives_same_commands() {
    let o = Obstacle::with_gap(80, 3, 17);
    assert_eq!(o.render(6), o.render(6));
    let p = Player::new(6, 25);
    assert_eq!(p.render(), p.render());
}

#[test]
fn menu_play_key_starts_game() {
    let mut s = State::new();
    assert_eq!(s.mode, GameMode::Menu);
    let f = s.tick(16, Some(Key::P));
    assert!(!f.quitting);
    assert_eq!(s.mode, GameMode::Playing);
    assert_eq!(s.score, 0);
    assert_eq!(s.frame_time, 0);
    assert_eq!((s.player.x, s.player.y, s.player.velocity), (6, 25, 0));
}

#[test]
fn menu_play_key_resets_old_score() {
    let mut s = State::new();
    s.score = 7;
    s.frame_time = 40;
    s.tick(16, Some(Key::P));
    assert_eq!(s.mode, GameMode::Playing);
    assert_eq!(s.score, 0);
    assert_eq!(s.frame_time, 0);
}

#[test]
fn menu_screen_and_quit() {
    let mut s = State::new();
    let f = s.tick(16, None);
    assert!(!f.quitting);
    assert_eq!(s.mode, GameMode::Menu);
    assert_eq!(
        f.commands,
        vec![
            Draw::Cls,
            Draw::PrintCentered { y: 5, text: Message::Title },
            Draw::PrintCentered { y: 10, text: Message::PlayPrompt },
            Draw::PrintCentered { y: 13, text: Message::QuitPrompt },
        ]
    );
    let f = s.tick(16, Some(Key::Q));
    assert!(f.quitting);
    assert_eq!(s.mode, GameMode::Menu);
    let f = s.tick(16, Some(Key::Space));
    assert!(!f.quitting);
    assert_eq!(s.mode, GameMode::Menu);
}

#[test]
fn physics_waits_for_frame_duration() {
    let mut s = playing_state();
    s.tick(50, None);
    assert_eq!(s.frame_time, 50);
    assert_eq!(s.player.x, 6);
    s.tick(25, None);
    assert_eq!(s.frame_time, 75);
    assert_eq!(s.player.x, 6);
    s.tick(1, None);
    assert_eq!(s.frame_time, 0);
    assert_eq!(s.player.x, 7);
    assert_eq!(s.player.velocity, 2);
}

#[test]
fn flap_registers_between_steps() {
    let mut s = playing_state();
    s.tick(10, Some(Key::Space));
    assert_eq!(s.player.velocity, -20);
    assert_eq!(s.player.x, 6);
}

#[test]
fn play_frame_commands() {
    let mut s = playing_state();
    let wall = s.obstacle;
    let f = s.tick(10, None);
    assert_eq!(f.commands[0], Draw::ClsBg { color: Color::Navy });
    assert_eq!(f.commands[1], Draw::Cell { x: 0, y: 25, fg: Color::Yellow, bg: Color::Black, glyph: 64 });
    assert_eq!(f.commands[2], Draw::Print { x: 0, y: 0, text: Message::FlapHint });
    assert_eq!(f.commands[3], Draw::Print { x: 0, y: 1, text: Message::Score(0) });
    assert_eq!(f.commands[4..].to_vec(), wall.render(6));
}

#[test]
fn passing_a_wall_scores_once() {
    let mut s = playing_state();
    s.obstacle = Obstacle::with_gap(40, 0, 25);
    s.player.x = 40;
    s.tick(100, None);
    assert_eq!(s.player.x, 41);
    assert_eq!(s.score, 1);
    assert_eq!(s.obstacle.x, 121);
    assert_eq!(s.obstacle.size, 19);
    assert_eq!(s.mode, GameMode::Playing);
    s.tick(100, Some(Key::Space));
    assert_eq!(s.player.x, 42);
    assert_eq!(s.score, 1);
    assert_eq!(s.obstacle.x, 121);
}

#[test]
fn crash_into_wall_ends_game() {
    let mut s = playing_state();
    s.obstacle = Obstacle::with_gap(7, 0, 39);
    s.tick(100, None);
    assert_eq!(s.player.x, 7);
    assert_eq!(s.mode, GameMode::Dead);
    assert_eq!(s.score, 0);
}

#[test]
fn falling_off_screen_ends_game() {
    let mut s = playing_state();
    let mut steps = 0;
    while s.mode == GameMode::Playing {
        s.tick(100, None);
        steps += 1;
        assert!(steps < 100);
    }
    assert_eq!(s.mode, GameMode::Dead);
    assert!(s.player.y > 50);
    assert_eq!(s.score, 0);
    let f = s.tick(100, None);
    assert_eq!(s.mode, GameMode::Dead);
    assert_eq!(s.score, 0);
    assert_eq!(f.commands[2], Draw::PrintCentered { y: 6, text: Message::Earned(0) });
    assert_eq!(f.commands.len(), 5);
}

#[test]
fn dead_screen_keys() {
    let mut s = playing_state();
    s.mode = GameMode::Dead;
    s.score = 4;
    s.player.y = 52;
    let f = s.tick(16, None);
    assert_eq!(
        f.commands,
        vec![
            Draw::Cls,
            Draw::PrintCentered { y: 5, text: Message::YouDied },
            Draw::PrintCentered { y: 6, text: Message::Earned(4) },
            Draw::PrintCentered { y: 8, text: Message::PlayAgain },
            Draw::PrintCentered { y: 9, text: Message::QuitGame },
        ]
    );
    let f = s.tick(16, Some(Key::Q));
    assert!(f.quitting);
    s.tick(16, Some(Key::P));
    assert_eq!(s.mode, GameMode::Playing);
    assert_eq!(s.score, 0);
    assert_eq!((s.player.x, s.player.y, s.player.velocity), (6, 25, 0));
}

#[test]
fn new_obstacle_gaps_vary() {
    let mut rng = RandomNumberGenerator::seeded(11);
    let gaps: Vec<i32> = (0..50).map(|_| Obstacle::new(80, 0, &mut rng).gap_y).collect();
    assert!(gaps.iter().any(|&g| g != gaps[0]));
    assert!(gaps.iter().all(|&g| (10..40).contains(&g)));
}

#[test]
fn column_grows_one_per_physics_step() {
    let mut s = playing_state();
    let mut steps = 0;
    for elapsed in [30u32, 30, 30, 80, 10, 70, 5, 200] {
        let before = s.frame_time;
        s.tick(elapsed, Some(Key::Space));
        if before + elapsed > 75 {
            steps += 1;
        }
        assert_eq!(s.player.x, 6 + steps);
    }
    assert_eq!(steps, 4);
}
