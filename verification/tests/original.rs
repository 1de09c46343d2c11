use battle_city::bullet::{Bullet, ExplosionType};
use battle_city::common::{AnimationIndices, AppState, Direction, MultiplayerMode, ScheduledDespawn};
use battle_city::config::GameConfig;
use battle_city::enemy::{enemies_sprite_index_sets, LevelSpawnedEnemies};
use battle_city::level::LevelItem;
use battle_city::player::{reset_player_lives, PlayerLives, PlayerNo};

#[test]
fn test_bullet_variants() {
    assert_eq!(Bullet::Player, Bullet::Player);
    assert_eq!(Bullet::Enemy, Bullet::Enemy);
    assert_ne!(Bullet::Player, Bullet::Enemy);
}

#[test]
fn test_explosion_type_variants() {
    assert_eq!(ExplosionType::BigExplosion, ExplosionType::BigExplosion);
    assert_eq!(
        ExplosionType::BulletExplosion,
        ExplosionType::BulletExplosion
    );
    assert_ne!(ExplosionType::BigExplosion, ExplosionType::BulletExplosion);
}

#[test]
fn test_app_state_default() {
    let state = AppState::default();
    assert_eq!(state, AppState::StartMenu);
}

#[test]
fn test_app_state_equality() {
    assert_eq!(AppState::StartMenu, AppState::StartMenu);
    assert_ne!(AppState::StartMenu, AppState::Playing);
    assert_ne!(AppState::Playing, AppState::Paused);
    assert_ne!(AppState::Paused, AppState::GameOver);
}

#[test]
fn test_multiplayer_mode() {
    assert_eq!(MultiplayerMode::SinglePlayer, MultiplayerMode::SinglePlayer);
    assert_ne!(MultiplayerMode::SinglePlayer, MultiplayerMode::TwoPlayers);
}

#[test]
fn test_direction_equality() {
    assert_eq!(Direction::Up, Direction::Up);
    assert_ne!(Direction::Up, Direction::Down);
    assert_ne!(Direction::Left, Direction::Right);
}

#[test]
fn test_scheduled_despawn_default() {
    let despawn = ScheduledDespawn::default();
    assert!(despawn.0.is_empty());
}

#[test]
fn test_animation_indices() {
    let indices = AnimationIndices { first: 0, last: 3 };
    assert_eq!(indices.first, 0);
    assert_eq!(indices.last, 3);
}

#[test]
fn test_level_spawned_enemies_default() {
    let spawned = LevelSpawnedEnemies::default();
    assert_eq!(spawned.0, 0);
}

#[test]
fn test_level_spawned_enemies_increment() {
    let mut spawned = LevelSpawnedEnemies(5);
    spawned.0 += 1;
    assert_eq!(spawned.0, 6);
}

#[test]
fn test_enemy_sprite_index_sets() {
    let sets = enemies_sprite_index_sets();
    assert!(!sets.is_empty());

    // Each set should have 8 elements (Up, Right, Down, Left + variations)
    for set in &sets {
        assert!(!set.is_empty());
    }
}

#[test]
fn test_level_item_from_entity_instance() {
    assert_eq!(LevelItem::StoneWall, LevelItem::StoneWall);
    assert_ne!(LevelItem::StoneWall, LevelItem::IronWall);
    assert_ne!(LevelItem::Tree, LevelItem::Water);
    assert_eq!(LevelItem::Empty, LevelItem::default());
}

#[test]
fn test_level_item_variants() {
    assert_eq!(LevelItem::Empty, LevelItem::default());
    assert_ne!(LevelItem::StoneWall, LevelItem::default());
    assert_ne!(LevelItem::IronWall, LevelItem::default());
    assert_ne!(LevelItem::Tree, LevelItem::default());
    assert_ne!(LevelItem::Water, LevelItem::default());
    assert_ne!(LevelItem::Home, LevelItem::default());
}

#[test]
fn test_player_no() {
    let player1 = PlayerNo(1);
    let player2 = PlayerNo(2);

    assert_eq!(player1.0, 1);
    assert_eq!(player2.0, 2);
    assert_ne!(player1, player2);
}

#[test]
fn test_player_lives_default() {
    let lives = PlayerLives::default();
    assert_eq!(lives.player1, 3);
    assert_eq!(lives.player2, 3);
}

#[test]
fn test_reset_player_lives_with_config() {
    let config = GameConfig::default();
    let mut lives = PlayerLives::default();

    // Set custom lives
    lives.player1 = 0;
    lives.player2 = 0;

    reset_player_lives(&mut lives, &config);

    assert_eq!(lives.player1, 3);
    assert_eq!(lives.player2, 3);
}
