use vstd::prelude::*;

verus! {

/// Velocities are counted in tenths of a row per physics step.
pub const VELOCITY_SCALE: i32 = 10;

/// Every tuning value of a [`Config`] lies in `[0, CONFIG_MAX]`.
pub const CONFIG_MAX: i32 = 1_000_000;

/// Horizontal world positions and scores stay below this bound, so that the
/// arithmetic of a frame cannot overflow.
pub const WORLD_LIMIT: i32 = 2_000_000_000;

/// The tuning values of a game: screen size, timing and physics.
///
/// Velocities (`gravity`, `terminal_velocity`, `flap_impulse`, `flap_floor`)
/// are in tenths of a row per physics step; `step_micros` is in microseconds.
#[derive(Clone, Copy, Debug, PartialEq, Eq)]
pub struct Config {
    /// Width of the screen in columns; a new wall stands this far ahead.
    pub screen_width: i32,
    /// Height of the screen in rows; below it the dragon is lost.
    pub screen_height: i32,
    /// Length of one physics step, in microseconds.
    pub step_micros: u64,
    /// Column at which the dragon starts.
    pub spawn_x: i32,
    /// Row at which the dragon starts.
    pub spawn_y: i32,
    /// Velocity gained per physics step.
    pub gravity: i32,
    /// Largest downward velocity.
    pub terminal_velocity: i32,
    /// Velocity removed by one flap.
    pub flap_impulse: i32,
    /// A flap never takes the velocity below `-flap_floor`.
    pub flap_floor: i32,
    /// Smallest gap height before halving.
    pub gap_min: i32,
    /// Gap height before halving at score zero.
    pub gap_base: i32,
    /// Lowest gap center (inclusive).
    pub gap_low: i32,
    /// Highest gap center (exclusive).
    pub gap_high: i32,
}

pub open spec fn in_config_range(v: int) -> bool {
    0 <= v <= CONFIG_MAX
}

impl Config {
    /// The values are in range, the screen is not empty, gaps never close,
    /// and the band of gap centers is not empty.
    pub open spec fn wf(&self) -> bool {
        &&& in_config_range(self.screen_width as int)
        &&& in_config_range(self.screen_height as int)
        &&& in_config_range(self.step_micros as int)
        &&& in_config_range(self.spawn_x as int)
        &&& in_config_range(self.spawn_y as int)
        &&& in_config_range(self.gravity as int)
        &&& in_config_range(self.terminal_velocity as int)
        &&& in_config_range(self.flap_impulse as int)
        &&& in_config_range(self.flap_floor as int)
        &&& in_config_range(self.gap_min as int)
        &&& in_config_range(self.gap_base as int)
        &&& in_config_range(self.gap_low as int)
        &&& in_config_range(self.gap_high as int)
        &&& self.screen_width > 0
        &&& self.gap_min >= 2
        &&& self.gap_low < self.gap_high
    }

    /// The classic tuning: an 80 by 50 screen, a physics step of 75 ms,
    /// gravity 0.2, terminal velocity 2.0, flap impulse 0.9 with a floor of
    /// -2.0, gaps of `max(2, 20 - score) / 2` rows each way around a center
    /// drawn from `[10, 40)`.
    pub fn classic() -> (c: Config)
        ensures
            c.wf(),
            c.screen_width == 80,
            c.screen_height == 50,
            c.step_micros == 75_000,
            c.spawn_x == 5,
            c.spawn_y == 25,
            c.gravity == 2,
            c.terminal_velocity == 20,
            c.flap_impulse == 9,
            c.flap_floor == 20,
            c.gap_min == 2,
            c.gap_base == 20,
            c.gap_low == 10,
            c.gap_high == 40,
    {
        Config {
            screen_width: 80,
            screen_height: 50,
            step_micros: 75_000,
            spawn_x: 5,
            spawn_y: 25,
            gravity: 2,
            terminal_velocity: 20,
            flap_impulse: 9,
            flap_floor: 20,
            gap_min: 2,
            gap_base: 20,
            gap_low: 10,
            gap_high: 40,
        }
    }

    /// Whether the values are usable, as [`Config::wf`] states.
    pub fn is_valid(&self) -> (r: bool)
        ensures
            r == self.wf(),
    {
        0 <= self.screen_width && self.screen_width <= CONFIG_MAX
            && 0 <= self.screen_height && self.screen_height <= CONFIG_MAX
            && self.step_micros <= CONFIG_MAX as u64
            && 0 <= self.spawn_x && self.spawn_x <= CONFIG_MAX
            && 0 <= self.spawn_y && self.spawn_y <= CONFIG_MAX
            && 0 <= self.gravity && self.gravity <= CONFIG_MAX
            && 0 <= self.terminal_velocity && self.terminal_velocity <= CONFIG_MAX
            && 0 <= self.flap_impulse && self.flap_impulse <= CONFIG_MAX
            && 0 <= self.flap_floor && self.flap_floor <= CONFIG_MAX
            && 0 <= self.gap_min && self.gap_min <= CONFIG_MAX
            && 0 <= self.gap_base && self.gap_base <= CONFIG_MAX
            && 0 <= self.gap_low && self.gap_low <= CONFIG_MAX
            && 0 <= self.gap_high && self.gap_high <= CONFIG_MAX
            && self.screen_width > 0
            && self.gap_min >= 2
            && self.gap_low < self.gap_high
    }
}

} // verus!
