use vstd::prelude::*;
use bracket_lib::prelude::RandomNumberGenerator;
use crate::config::{Config, CONFIG_MAX, WORLD_LIMIT};
use crate::dragon::Dragon;
use crate::random::random_in_range;
use crate::wall::Wall;

verus! {

/// The mode of a game session.
#[derive(Clone, Copy, Debug, PartialEq, Eq, Structural)]
pub enum GameMode {
    Menu,
    Playing,
    End,
}

/// A key event of one frame, as the driver reports it.
#[derive(Clone, Copy, Debug, PartialEq, Eq, Structural)]
pub enum Key {
    /// Start a game (from the menu).
    Play,
    /// Leave the program (from the menu).
    Quit,
    /// Flap the wings (while playing).
    Flap,
    /// Any other key.
    Other,
}

/// What the session asks of the driver after a frame.
#[derive(Clone, Copy, Debug, PartialEq, Eq, Structural)]
pub enum Action {
    Continue,
    Quit,
}

/// A game session: its mode, the dragon, the wall ahead, the score, the time
/// gathered towards the next physics step (in microseconds), and its tuning.
#[derive(Clone, Copy, Debug, PartialEq, Eq)]
pub struct State {
    pub game_mode: GameMode,
    pub player: Dragon,
    pub frame_time: u64,
    pub score: i32,
    pub wall: Wall,
    pub config: Config,
}

impl State {
    /// The session is consistent: a usable tuning, a dragon within its bounds
    /// (on screen while playing), a frame time below one step, a wall near
    /// the dragon, and a score that is not negative.
    pub open spec fn inv(&self) -> bool {
        &&& self.config.wf()
        &&& self.player.inv(self.config)
        &&& self.player.y <= 2 * CONFIG_MAX
        &&& self.game_mode == GameMode::Playing ==> self.player.y <= CONFIG_MAX
        &&& self.frame_time <= self.config.step_micros
        &&& self.wall.inv()
        &&& self.player.x - CONFIG_MAX <= self.wall.x <= self.player.x + CONFIG_MAX
        &&& self.score >= 0
    }

    /// The dragon's column and the score leave room for another frame.
    pub open spec fn has_room(&self) -> bool {
        &&& self.player.x < WORLD_LIMIT
        &&& self.score < WORLD_LIMIT
    }

    /// A gap center from the configured band.
    pub open spec fn gap_in_band(&self, gap_y: i32) -> bool {
        self.config.gap_low <= gap_y < self.config.gap_high
    }

    /// A fresh game: the dragon at rest at its spawn point, the first wall one
    /// screen width into the world with the gap of score zero, score zero,
    /// mode playing.
    pub open spec fn restarted(self, gap_y: i32) -> State {
        State {
            game_mode: GameMode::Playing,
            player: Dragon { x: self.config.spawn_x, y: self.config.spawn_y, velocity: 0 },
            score: 0,
            wall: Wall::placed(self.config.screen_width, 0, gap_y, self.config),
            ..self
        }
    }

    /// A menu frame: the play key starts a game; every other input leaves the
    /// session as it is.
    pub open spec fn after_menu(self, key: Option<Key>, gap_y: i32) -> State {
        if key == Some(Key::Play) {
            self.restarted(gap_y)
        } else {
            self
        }
    }

    /// A frame while playing. Time is gathered; once it exceeds one step it is
    /// reset and the dragon takes a physics step. A flap key flaps the wings.
    /// The game ends if the dragon is below the screen or hits the wall. If
    /// the dragon is past the wall, the score grows by one and a new wall
    /// stands one screen width ahead of it.
    pub open spec fn after_play(self, key: Option<Key>, dt: u64, gap_y: i32) -> State {
        let c = self.config;
        let stepped = self.frame_time + dt > c.step_micros;
        let moved = if stepped { self.player.fallen(c) } else { self.player };
        let player = if key == Some(Key::Flap) {
            Dragon {
                velocity: Dragon::velocity_after_flap(moved.velocity as int, c) as i32,
                ..moved
            }
        } else {
            moved
        };
        let dies = player.y > c.screen_height || self.wall.hits(player);
        let passed = player.x > self.wall.x;
        let score = if passed { self.score + 1 } else { self.score as int };
        State {
            game_mode: if dies { GameMode::End } else { self.game_mode },
            player,
            frame_time: if stepped { 0 } else { (self.frame_time + dt) as u64 },
            score: score as i32,
            wall: if passed {
                Wall::placed((player.x + c.screen_width) as i32, score, gap_y, c)
            } else {
                self.wall
            },
            config: c,
        }
    }

    /// A frame after the game has ended: any key goes back to the menu.
    pub open spec fn after_dead(self, key: Option<Key>) -> State {
        if key.is_some() {
            State { game_mode: GameMode::Menu, ..self }
        } else {
            self
        }
    }

    /// The session after one frame, by mode.
    pub open spec fn next(self, key: Option<Key>, dt: u64, gap_y: i32) -> State {
        match self.game_mode {
            GameMode::Menu => self.after_menu(key, gap_y),
            GameMode::Playing => self.after_play(key, dt, gap_y),
            GameMode::End => self.after_dead(key),
        }
    }

    /// Keys after the end of a game: the first returns to the menu and changes
    /// nothing else; a second key other than the play key then leaves the
    /// session exactly as it is, so the end is left only once.
    pub proof fn lemma_dead_exits_once(
        self,
        k1: Key,
        k2: Key,
        dt1: u64,
        dt2: u64,
        g1: i32,
        g2: i32,
    )
        requires
            self.game_mode == GameMode::End,
            k2 != Key::Play,
        ensures
            self.next(Some(k1), dt1, g1) == (State { game_mode: GameMode::Menu, ..self }),
            self.next(Some(k1), dt1, g1).next(Some(k2), dt2, g2) == self.next(Some(k1), dt1, g1),
    {
    }

    /// The driver is asked to quit exactly on the quit key in the menu.
    pub open spec fn quits(self, key: Option<Key>) -> bool {
        self.game_mode == GameMode::Menu && key == Some(Key::Quit)
    }
}

impl State {
    /// A session in the menu, the dragon at rest at its spawn point, score
    /// zero, and a first wall one screen width into the world.
    pub fn new(config: Config, rng: &mut RandomNumberGenerator) -> (s: State)
        requires
            config.wf(),
        ensures
            s.inv(),
            s.game_mode == GameMode::Menu,
            s.player == (Dragon { x: config.spawn_x, y: config.spawn_y, velocity: 0 }),
            s.frame_time == 0,
            s.score == 0,
            s.gap_in_band(s.wall.gap_y),
            s.wall == Wall::placed(config.screen_width, 0, s.wall.gap_y, config),
            s.config == config,
    {
        State {
            game_mode: GameMode::Menu,
            player: Dragon::new(config.spawn_x, config.spawn_y),
            frame_time: 0,
            score: 0,
            wall: Wall::new(config.screen_width, 0, &config, rng),
            config,
        }
    }

    /// Whether the session leaves room for another frame, as
    /// [`State::has_room`] states.
    pub fn room_left(&self) -> (r: bool)
        ensures
            r == self.has_room(),
    {
        self.player.x < WORLD_LIMIT && self.score < WORLD_LIMIT
    }

    /// The wall's column on screen, where the dragon stands in column 0.
    pub fn wall_screen_x(&self) -> (sx: i32)
        requires
            self.inv(),
        ensures
            sx == self.wall.x - self.player.x,
    {
        self.wall.x - self.player.x
    }

    fn transition_to_menu(&mut self)
        ensures
            *final(self) == (State { game_mode: GameMode::Menu, ..*old(self) }),
    {
        self.game_mode = GameMode::Menu;
    }

    fn transition_to_playing(&mut self)
        ensures
            *final(self) == (State { game_mode: GameMode::Playing, ..*old(self) }),
    {
        self.game_mode = GameMode::Playing;
    }

    fn transition_to_end(&mut self)
        ensures
            *final(self) == (State { game_mode: GameMode::End, ..*old(self) }),
    {
        self.game_mode = GameMode::End;
    }

    /// Starts a fresh game, its first wall's gap around `gap_y`.
    pub fn restart(&mut self, gap_y: i32)
        requires
            old(self).inv(),
            old(self).gap_in_band(gap_y),
        ensures
            *final(self) == old(self).restarted(gap_y),
            final(self).inv(),
    {
        self.player = Dragon::new(self.config.spawn_x, self.config.spawn_y);
        self.wall = Wall::with_gap(self.config.screen_width, 0, gap_y, &self.config);
        self.score = 0;
        self.transition_to_playing();
    }

    /// A menu frame: the play key starts a game around `gap_y`, the quit key
    /// asks the driver to quit, and every other input does nothing.
    pub fn main_menu(&mut self, key: Option<Key>, gap_y: i32) -> (a: Action)
        requires
            old(self).inv(),
            old(self).game_mode == GameMode::Menu,
            old(self).gap_in_band(gap_y),
        ensures
            *final(self) == old(self).after_menu(key, gap_y),
            a == (if old(self).quits(key) { Action::Quit } else { Action::Continue }),
            final(self).inv(),
    {
        match key {
            Some(Key::Play) => {
                self.restart(gap_y);
                Action::Continue
            },
            Some(Key::Quit) => Action::Quit,
            _ => Action::Continue,
        }
    }

    /// A frame while playing, `dt` microseconds after the last one; a wall
    /// placed in this frame has its gap around `gap_y`.
    pub fn play(&mut self, key: Option<Key>, dt: u64, gap_y: i32)
        requires
            old(self).inv(),
            old(self).has_room(),
            old(self).game_mode == GameMode::Playing,
            old(self).gap_in_band(gap_y),
        ensures
            *final(self) == old(self).after_play(key, dt, gap_y),
            final(self).inv(),
    {
        if dt > self.config.step_micros - self.frame_time {
            self.frame_time = 0;
            let c = self.config;
            self.player.apply_gravity_and_move(&c);
        } else {
            self.frame_time = self.frame_time + dt;
        }

        match key {
            Some(Key::Flap) => {
                let c = self.config;
                self.player.flap_wings(&c);
            },
            _ => {},
        }

        if self.player.y > self.config.screen_height || self.wall.collision_detected(&self.player) {
            self.transition_to_end();
        }

        if self.player.x > self.wall.x {
            self.score = self.score + 1;
            self.wall = Wall::with_gap(
                self.player.x + self.config.screen_width,
                self.score,
                gap_y,
                &self.config,
            );
        }
    }

    /// A frame after the game has ended: any key returns to the menu.
    pub fn dead(&mut self, key: Option<Key>)
        requires
            old(self).inv(),
            old(self).game_mode == GameMode::End,
        ensures
            *final(self) == old(self).after_dead(key),
            final(self).inv(),
    {
        if key.is_some() {
            self.transition_to_menu();
        }
    }

    /// One frame, `dt` microseconds after the last, with the frame's key; a
    /// wall placed in this frame has its gap around `gap_y`.
    pub fn advance(&mut self, key: Option<Key>, dt: u64, gap_y: i32) -> (a: Action)
        requires
            old(self).inv(),
            old(self).has_room(),
            old(self).gap_in_band(gap_y),
        ensures
            *final(self) == old(self).next(key, dt, gap_y),
            a == (if old(self).quits(key) { Action::Quit } else { Action::Continue }),
            final(self).inv(),
    {
        match self.game_mode {
            GameMode::Menu => self.main_menu(key, gap_y),
            GameMode::Playing => {
                self.play(key, dt, gap_y);
                Action::Continue
            },
            GameMode::End => {
                self.dead(key);
                Action::Continue
            },
        }
    }

    /// One frame, `dt` microseconds after the last, with the frame's key; a
    /// wall placed in this frame has its gap center drawn from `rng`.
    pub fn tick(&mut self, key: Option<Key>, dt: u64, rng: &mut RandomNumberGenerator) -> (a: Action)
        requires
            old(self).inv(),
            old(self).has_room(),
        ensures
            exists|gap_y: i32|
                old(self).gap_in_band(gap_y) && *final(self) == old(self).next(key, dt, gap_y),
            a == (if old(self).quits(key) { Action::Quit } else { Action::Continue }),
            final(self).inv(),
    {
        let ghost before = *self;
        let gap_y = random_in_range(rng, self.config.gap_low, self.config.gap_high);
        let a = self.advance(key, dt, gap_y);
        assert(before.gap_in_band(gap_y) && *self == before.next(key, dt, gap_y));
        a
    }
}

} // verus!
