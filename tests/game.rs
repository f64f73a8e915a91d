use bracket_lib::prelude::RandomNumberGenerator;
use flappy_dragon::{gap_half_size, Action, Config, Dragon, GameMode, Key, State, Wall};

fn playing_state(player: Dragon, wall: Wall, score: i32) -> State {
    State {
        game_mode: GameMode::Playing,
        player,
        frame_time: 0,
        score,
        wall,
        config: Config::classic(),
    }
}

#[test]
fn classic_config_is_valid() {
    let c = Config::classic();
    assert!(c.is_valid());
    let closed = Config { gap_min: 1, ..c };
    assert!(!closed.is_valid());
    let empty_band = Config { gap_low: 40, gap_high: 40, ..c };
    assert!(!empty_band.is_valid());
}

#[test]
fn half_size_scenarios() {
    let c = Config::classic();
    assert_eq!(gap_half_size(&c, 0), 10);
    assert_eq!(gap_half_size(&c, 15), 2);
    assert_eq!(gap_half_size(&c, 25), 1);
    assert_eq!(gap_half_size(&c, 3), 8);
    assert_eq!(gap_half_size(&c, 17), 1);
    assert_eq!(Wall::with_gap(7, 15, 20, &c).half_size, 2);
}

#[test]
fn half_size_never_grows_with_score() {
    let c = Config::classic();
    let mut previous = gap_half_size(&c, 0);
    for score in 1..60 {
        let h = gap_half_size(&c, score);
        assert!(h <= previous);
        assert!(h >= 1);
        assert_eq!(h, std::cmp::max(2, 20 - score) / 2);
        previous = h;
    }
}

#[test]
fn gravity_never_exceeds_terminal_velocity() {
    let c = Config::classic();
    let mut d = Dragon::new(5, 25);
    for step in 1..=50 {
        d.apply_gravity_and_move(&c);
        assert!(d.velocity <= 20);
        assert_eq!(d.x, 5 + step);
    }
    assert_eq!(d.velocity, 20);
}

#[test]
fn gravity_moves_by_whole_rows() {
    let c = Config::classic();
    let mut d = Dragon::new(5, 25);
    for _ in 0..4 {
        d.apply_gravity_and_move(&c);
        assert_eq!(d.y, 25);
    }
    d.apply_gravity_and_move(&c);
    assert_eq!(d.velocity, 10);
    assert_eq!(d.y, 26);

    let mut rising = Dragon { x: 0, y: 10, velocity: -20 };
    rising.apply_gravity_and_move(&c);
    assert_eq!(rising.velocity, -18);
    assert_eq!(rising.y, 9);

    let mut at_top = Dragon { x: 0, y: 0, velocity: -20 };
    at_top.apply_gravity_and_move(&c);
    assert_eq!(at_top.y, 0);

    let mut near_cap = Dragon { x: 0, y: 0, velocity: 19 };
    near_cap.apply_gravity_and_move(&c);
    assert_eq!(near_cap.velocity, 20);
    assert_eq!(near_cap.y, 2);
}

#[test]
fn flap_never_goes_below_floor() {
    let c = Config::classic();
    let mut d = Dragon::new(5, 25);
    d.flap_wings(&c);
    assert_eq!(d.velocity, -9);
    d.flap_wings(&c);
    assert_eq!(d.velocity, -18);
    d.flap_wings(&c);
    assert_eq!(d.velocity, -20);
    d.flap_wings(&c);
    assert_eq!(d.velocity, -20);
    let mut near = Dragon { x: 0, y: 3, velocity: -15 };
    near.flap_wings(&c);
    assert_eq!(near.velocity, -20);
    assert_eq!((near.x, near.y), (0, 3));
}

#[test]
fn collision_only_in_the_wall_column_outside_the_gap() {
    let w = Wall { x: 10, gap_y: 20, half_size: 5 };
    assert!(w.collision_detected(&Dragon { x: 10, y: 14, velocity: 0 }));
    assert!(!w.collision_detected(&Dragon { x: 10, y: 15, velocity: 0 }));
    assert!(!w.collision_detected(&Dragon { x: 10, y: 20, velocity: 0 }));
    assert!(!w.collision_detected(&Dragon { x: 10, y: 25, velocity: 0 }));
    assert!(w.collision_detected(&Dragon { x: 10, y: 26, velocity: 0 }));
    assert!(!w.collision_detected(&Dragon { x: 9, y: 0, velocity: 0 }));
    assert!(!w.collision_detected(&Dragon { x: 11, y: 49, velocity: 0 }));
}

#[test]
fn wall_drawn_rows_skip_the_inside_of_the_gap() {
    let w = Wall { x: 10, gap_y: 20, half_size: 5 };
    let rows = w.drawn_rows(50);
    let expected: Vec<i32> = (0..=15).chain(25..50).collect();
    assert_eq!(rows, expected);
    assert!(w.drawn_rows(0).is_empty());
}

#[test]
fn new_walls_draw_gaps_from_the_band() {
    let c = Config::classic();
    let mut rng = RandomNumberGenerator::seeded(7);
    let mut seen = Vec::new();
    for _ in 0..100 {
        let w = Wall::new(80, 4, &c, &mut rng);
        assert!(w.gap_y >= 10 && w.gap_y < 40);
        assert_eq!(w.half_size, 8);
        assert_eq!(w.x, 80);
        seen.push(w.gap_y);
    }
    seen.sort();
    seen.dedup();
    assert!(seen.len() > 1);
}

#[test]
fn new_session_starts_in_menu() {
    let mut rng = RandomNumberGenerator::seeded(1);
    let s = State::new(Config::classic(), &mut rng);
    assert_eq!(s.game_mode, GameMode::Menu);
    assert_eq!(s.score, 0);
    assert_eq!(s.frame_time, 0);
    assert_eq!(s.player, Dragon { x: 5, y: 25, velocity: 0 });
    assert_eq!(s.wall.x, 80);
    assert_eq!(s.wall.half_size, 10);
}

#[test]
fn start_from_menu_resets_the_game() {
    let mut rng = RandomNumberGenerator::seeded(2);
    let mut s = State::new(Config::classic(), &mut rng);
    s.score = 12;
    s.player = Dragon { x: 300, y: 3, velocity: -7 };
    let a = s.tick(Some(Key::Play), 16_000, &mut rng);
    assert_eq!(a, Action::Continue);
    assert_eq!(s.game_mode, GameMode::Playing);
    assert_eq!(s.score, 0);
    assert_eq!(s.player, Dragon { x: 5, y: 25, velocity: 0 });
    assert_eq!(s.wall.x, 80);
    assert_eq!(s.wall.half_size, 10);
    assert!(s.wall.gap_y >= 10 && s.wall.gap_y < 40);
}

#[test]
fn restart_places_the_given_gap() {
    let mut rng = RandomNumberGenerator::seeded(3);
    let mut s = State::new(Config::classic(), &mut rng);
    s.restart(33);
    assert_eq!(s.wall, Wall { x: 80, gap_y: 33, half_size: 10 });
    assert_eq!(s.game_mode, GameMode::Playing);
}

#[test]
fn quit_from_menu_asks_the_driver() {
    let mut rng = RandomNumberGenerator::seeded(4);
    let mut s = State::new(Config::classic(), &mut rng);
    let before = s;
    assert_eq!(s.tick(Some(Key::Quit), 0, &mut rng), Action::Quit);
    assert_eq!(s, before);
    assert_eq!(s.tick(Some(Key::Flap), 0, &mut rng), Action::Continue);
    assert_eq!(s.tick(None, 0, &mut rng), Action::Continue);
    assert_eq!(s, before);
}

#[test]
fn falling_below_the_screen_ends_the_game() {
    let wall = Wall { x: 80, gap_y: 20, half_size: 10 };
    let mut s = playing_state(Dragon { x: 5, y: 51, velocity: 0 }, wall, 0);
    s.advance(None, 0, 20);
    assert_eq!(s.game_mode, GameMode::End);
    let mut at_edge = playing_state(Dragon { x: 5, y: 50, velocity: 0 }, wall, 0);
    at_edge.advance(None, 0, 20);
    assert_eq!(at_edge.game_mode, GameMode::Playing);
}

#[test]
fn hitting_the_wall_ends_the_game() {
    let wall = Wall { x: 6, gap_y: 20, half_size: 2 };
    let mut s = playing_state(Dragon { x: 5, y: 30, velocity: 0 }, wall, 0);
    s.advance(None, 80_000, 11);
    assert_eq!(s.player.x, 6);
    assert_eq!(s.game_mode, GameMode::End);
    assert_eq!(s.score, 0);
}

#[test]
fn passing_the_wall_scores_once() {
    let wall = Wall { x: 100, gap_y: 20, half_size: 5 };
    let mut s = playing_state(Dragon { x: 100, y: 20, velocity: 0 }, wall, 3);
    s.advance(None, 80_000, 12);
    assert_eq!(s.player.x, 101);
    assert_eq!(s.game_mode, GameMode::Playing);
    assert_eq!(s.score, 4);
    assert_eq!(s.wall, Wall { x: 181, gap_y: 12, half_size: 8 });
    assert_eq!(s.wall_screen_x(), 80);
    s.advance(None, 10_000, 30);
    assert_eq!(s.score, 4);
    assert_eq!(s.wall.x, 181);
}

#[test]
fn physics_steps_wait_for_the_step_time() {
    let wall = Wall { x: 80, gap_y: 20, half_size: 10 };
    let mut s = playing_state(Dragon { x: 5, y: 25, velocity: 0 }, wall, 0);
    s.advance(None, 75_000, 20);
    assert_eq!(s.frame_time, 75_000);
    assert_eq!(s.player.x, 5);
    s.advance(None, 1, 20);
    assert_eq!(s.frame_time, 0);
    assert_eq!(s.player.x, 6);
    assert_eq!(s.player.velocity, 2);
}

#[test]
fn flap_applies_on_every_frame() {
    let wall = Wall { x: 80, gap_y: 20, half_size: 10 };
    let mut s = playing_state(Dragon { x: 5, y: 25, velocity: 0 }, wall, 0);
    s.advance(Some(Key::Flap), 1_000, 20);
    assert_eq!(s.player.velocity, -9);
    assert_eq!(s.player.x, 5);
    s.advance(Some(Key::Other), 1_000, 20);
    assert_eq!(s.player.velocity, -9);
}

#[test]
fn dead_leaves_for_the_menu_once() {
    let wall = Wall { x: 80, gap_y: 20, half_size: 10 };
    let mut s = playing_state(Dragon { x: 5, y: 51, velocity: 0 }, wall, 6);
    s.game_mode = GameMode::End;
    s.advance(None, 0, 20);
    assert_eq!(s.game_mode, GameMode::End);
    s.advance(Some(Key::Other), 0, 20);
    assert_eq!(s.game_mode, GameMode::Menu);
    assert_eq!(s.score, 6);
    let after_exit = s;
    s.advance(Some(Key::Other), 0, 20);
    assert_eq!(s, after_exit);
    s.advance(Some(Key::Flap), 0, 20);
    assert_eq!(s, after_exit);
}

#[test]
fn room_left_tracks_the_world_limit() {
    let wall = Wall { x: 80, gap_y: 20, half_size: 10 };
    let s = playing_state(Dragon { x: 5, y: 25, velocity: 0 }, wall, 0);
    assert!(s.room_left());
    let far = playing_state(Dragon { x: 2_000_000_000, y: 25, velocity: 0 }, wall, 0);
    assert!(!far.room_left());
}
