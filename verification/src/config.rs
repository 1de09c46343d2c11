//! The whole-number game parameters that the rules read: lives, tank
//! sizes, enemy limits, map dimensions and the number of levels.
use vstd::prelude::*;

verus! {

/// Player parameters.
#[derive(Debug, Clone, Copy, PartialEq, Eq, Structural)]
pub struct PlayerConfig {
    /// Initial number of lives
    pub initial_lives: i8,
    /// Tank size in pixels
    pub tank_size: u32,
}

impl Default for PlayerConfig {
    fn default() -> (c: Self)
        ensures
            c.initial_lives == 3,
            c.tank_size == 28,
    {
        PlayerConfig { initial_lives: 3, tank_size: 28 }
    }
}

/// Enemy parameters.
#[derive(Debug, Clone, Copy, PartialEq, Eq, Structural)]
pub struct EnemyConfig {
    /// Maximum number of enemies that can coexist simultaneously
    pub max_live_enemies: i32,
    /// Number of enemies per level
    pub enemies_per_level: i32,
    /// Tank size in pixels
    pub tank_size: u32,
}

impl Default for EnemyConfig {
    fn default() -> (c: Self)
        ensures
            c.max_live_enemies == 5,
            c.enemies_per_level == 12,
            c.tank_size == 28,
    {
        EnemyConfig { max_live_enemies: 5, enemies_per_level: 12, tank_size: 28 }
    }
}

/// Level parameters.
#[derive(Debug, Clone, Copy, PartialEq, Eq, Structural)]
pub struct LevelConfig {
    /// Number of rows in the level map
    pub rows: i32,
    /// Number of columns in the level map
    pub columns: i32,
    /// Maximum number of levels
    pub max_levels: i32,
}

impl Default for LevelConfig {
    fn default() -> (c: Self)
        ensures
            c.rows == 18,
            c.columns == 27,
            c.max_levels == 2,
    {
        LevelConfig { rows: 18, columns: 27, max_levels: 2 }
    }
}

/// All game parameters that the rules read.
#[derive(Debug, Clone, Copy, PartialEq, Eq, Structural)]
pub struct GameConfig {
    pub player: PlayerConfig,
    pub enemy: EnemyConfig,
    pub level: LevelConfig,
}

impl Default for GameConfig {
    fn default() -> (c: Self)
        ensures
            c.player.initial_lives == 3,
            c.player.tank_size == 28,
            c.enemy.max_live_enemies == 5,
            c.enemy.enemies_per_level == 12,
            c.enemy.tank_size == 28,
            c.level.rows == 18,
            c.level.columns == 27,
            c.level.max_levels == 2,
    {
        GameConfig {
            player: PlayerConfig::default(),
            enemy: EnemyConfig::default(),
            level: LevelConfig::default(),
        }
    }
}

} // verus!
