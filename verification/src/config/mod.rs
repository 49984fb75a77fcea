use vstd::prelude::*;

verus! {

/// The settings of a game. Lengths and forces are in fixed-point steps.
pub struct Config {
    pub target_update_fps: u32,
    pub gravity_force: i32,
    pub world_width: i32,
    pub world_height: i32,
    pub world_unit_width: i32,
    pub world_unit_height: i32,
    pub player_start_x: i32,
    pub player_start_y: i32,
    pub player_width: i32,
    pub player_height: i32,
}

impl Default for Config {
    /// Fifty ticks a second, a hundredth of a unit of gravity per tick, a
    /// world of 5000 by 5000 units in cells of 50 by 50, and a player of 50
    /// by 100 units that starts at (50, 50).
    fn default() -> (config: Self)
        ensures
            config.target_update_fps == 50,
            config.gravity_force == 10,
            config.world_width == 5_000_000,
            config.world_height == 5_000_000,
            config.world_unit_width == 50_000,
            config.world_unit_height == 50_000,
            config.player_start_x == 50_000,
            config.player_start_y == 50_000,
            config.player_width == 50_000,
            config.player_height == 100_000,
    {
        let target_update_fps: u32 = 50;
        let gravity_force: i32 = 10;
        let world_width: i32 = 5_000_000;
        let world_height: i32 = 5_000_000;
        let world_unit_width: i32 = 50_000;
        let world_unit_height: i32 = 50_000;

        Config {
            target_update_fps,
            gravity_force,
            world_width,
            world_height,
            world_unit_width,
            world_unit_height,
            player_start_x: 50_000,
            player_start_y: 50_000,
            player_width: 50_000,
            player_height: 100_000,
        }
    }
}

} // verus!
