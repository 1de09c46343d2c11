use battle_city::bullet::{
    animate_explosion, bullet_sprite_index, explosion_animation_indices, handle_bullet_collision,
    Bullet, BulletCollision, CollisionEffect, ExplosionEvent, ExplosionSite, ExplosionType,
    PlayerTarget,
};
use battle_city::common::{
    animate_sprite_sheet, pick_side, AnimationIndices, Direction, MultiplayerMode,
    ScheduledDespawn, Side,
};
use battle_city::config::GameConfig;
use battle_city::enemy::{
    auto_spawn_enemies, choose_enemy_direction, choose_enemy_sprite, color_sprite_index,
    direction_for_roll, enemy_turn_direction, new_sprite_index, reset_level_spawned_enemies,
    turn_enemy, LevelSpawnedEnemies, Openings,
};
use battle_city::level::{animate_home, auto_switch_level, LevelItem, LevelSwitch, HOME_DESTROYED_FRAME};
use battle_city::player::{
    animate_born, auto_spawn_players, handle_tank_collisions, player_spawned, players_attack,
    players_move, tank_animation_indices, KeyState, Keyboard, MoveCommand, PlayerLives,
    PlayerNo, SpawnState, TankKind,
};

fn idle() -> KeyState {
    KeyState { pressed: false, just_pressed: false, just_released: false }
}

fn held() -> KeyState {
    KeyState { pressed: true, just_pressed: false, just_released: false }
}

fn tapped() -> KeyState {
    KeyState { pressed: true, just_pressed: true, just_released: false }
}

fn released() -> KeyState {
    KeyState { pressed: false, just_pressed: false, just_released: true }
}

fn keyboard() -> Keyboard {
    Keyboard {
        w: idle(),
        s: idle(),
        a: idle(),
        d: idle(),
        arrow_up: idle(),
        arrow_down: idle(),
        arrow_left: idle(),
        arrow_right: idle(),
        space: idle(),
        enter: idle(),
    }
}

fn collision(bullet: Bullet) -> BulletCollision {
    BulletCollision {
        bullet_entity: 10,
        bullet,
        other_entity: 20,
        level_item: None,
        hits_area_wall: false,
        hits_enemy: false,
        player: None,
    }
}

fn small_at(bullet: u64) -> CollisionEffect {
    CollisionEffect::Explode(ExplosionEvent {
        site: ExplosionSite::Bullet(bullet),
        explosion_type: ExplosionType::BulletExplosion,
    })
}

#[test]
fn sprite_sheet_loops() {
    let indices = AnimationIndices { first: 0, last: 3 };
    assert_eq!(animate_sprite_sheet(0, indices), 1);
    assert_eq!(animate_sprite_sheet(2, indices), 3);
    assert_eq!(animate_sprite_sheet(3, indices), 0);
    let water = LevelItem::Water.animation_indices();
    assert_eq!(animate_sprite_sheet(3, water), 4);
    assert_eq!(animate_sprite_sheet(4, water), 3);
    let mut frame = 5;
    let range = AnimationIndices { first: 5, last: 8 };
    for _ in 0..4 {
        frame = animate_sprite_sheet(frame, range);
    }
    assert_eq!(frame, 5);
}

#[test]
fn side_of_collision_pair() {
    assert_eq!(pick_side(true, true), Some(Side::First));
    assert_eq!(pick_side(false, true), Some(Side::Second));
    assert_eq!(pick_side(false, false), None);
}

#[test]
fn despawn_schedule_dedups() {
    let mut scheduled = ScheduledDespawn::new();
    assert!(scheduled.schedule(6));
    assert!(!scheduled.schedule(6));
    let fresh = scheduled.schedule_all(&vec![5, 6, 5, 7]);
    assert_eq!(fresh, vec![5, 7]);
    assert!(scheduled.contains(5) && scheduled.contains(6) && scheduled.contains(7));
    assert!(scheduled.schedule_all(&vec![7, 5]).is_empty());
}

#[test]
fn default_configuration() {
    let config = GameConfig::default();
    assert_eq!(config.player.initial_lives, 3);
    assert_eq!(config.player.tank_size, 28);
    assert_eq!(config.enemy.max_live_enemies, 5);
    assert_eq!(config.enemy.enemies_per_level, 12);
    assert_eq!(config.enemy.tank_size, 28);
    assert_eq!(config.level.rows, 18);
    assert_eq!(config.level.columns, 27);
    assert_eq!(config.level.max_levels, 2);
}

#[test]
fn level_items_from_identifiers() {
    assert_eq!(LevelItem::from_identifier("StoneWall"), LevelItem::StoneWall);
    assert_eq!(LevelItem::from_identifier("IronWall"), LevelItem::IronWall);
    assert_eq!(LevelItem::from_identifier("Tree"), LevelItem::Tree);
    assert_eq!(LevelItem::from_identifier("Water"), LevelItem::Water);
    assert_eq!(LevelItem::from_identifier("Home"), LevelItem::Home);
    assert_eq!(LevelItem::from_identifier("Player1"), LevelItem::Empty);
    assert_eq!(LevelItem::from_identifier("Stone"), LevelItem::Empty);
    assert_eq!(LevelItem::from_identifier(""), LevelItem::Empty);
}

#[test]
fn level_item_properties() {
    assert!(LevelItem::StoneWall.is_solid());
    assert!(LevelItem::IronWall.is_solid());
    assert!(LevelItem::Water.is_solid());
    assert!(LevelItem::Home.is_solid());
    assert!(!LevelItem::Tree.is_solid());
    assert!(!LevelItem::Empty.is_solid());
    assert_eq!(LevelItem::Water.animation_indices(), AnimationIndices { first: 3, last: 4 });
    assert_eq!(LevelItem::Tree.animation_indices(), AnimationIndices { first: 0, last: 0 });
    assert!(!LevelItem::Tree.blocks_enemies());
    assert!(LevelItem::Water.blocks_enemies());
}

#[test]
fn players_respawn_with_lives() {
    let mut state = SpawnState::default();
    let lives = PlayerLives::default();
    let plan = auto_spawn_players(&vec![], true, true, MultiplayerMode::SinglePlayer, &lives, &mut state);
    assert!(plan.player1);
    assert!(!plan.player2);
    assert!(state.spawning_player1);
    // the animation runs: no second one
    let again = auto_spawn_players(&vec![], true, true, MultiplayerMode::SinglePlayer, &lives, &mut state);
    assert!(!again.player1);

    let mut lives = lives;
    player_spawned(PlayerNo(1), &mut lives, &mut state);
    assert_eq!(lives.player1, 2);
    assert_eq!(lives.player2, 3);
    assert!(!state.spawning_player1);

    // a tank on the map is not respawned
    let on_map = auto_spawn_players(&vec![PlayerNo(1)], true, true, MultiplayerMode::SinglePlayer, &lives, &mut state);
    assert!(!on_map.player1);
}

#[test]
fn second_player_and_empty_lives() {
    let mut state = SpawnState::default();
    let lives = PlayerLives { player1: 0, player2: 1 };
    let plan = auto_spawn_players(&vec![], true, true, MultiplayerMode::TwoPlayers, &lives, &mut state);
    assert!(!plan.player1);
    assert!(plan.player2);
    assert!(!state.spawning_player1);
    assert!(state.spawning_player2);
    let no_marker = auto_spawn_players(&vec![], false, false, MultiplayerMode::TwoPlayers, &PlayerLives::default(), &mut SpawnState::default());
    assert!(!no_marker.player1 && !no_marker.player2);
}

#[test]
fn born_animation_finishes_once() {
    let mut scheduled = ScheduledDespawn::new();
    let running = animate_born(4, false, &mut scheduled);
    assert!(!running.despawn && !running.spawn_player);
    let done = animate_born(4, true, &mut scheduled);
    assert!(done.despawn && done.spawn_player);
    let again = animate_born(4, true, &mut scheduled);
    assert!(!again.despawn && again.spawn_player);
}

#[test]
fn player_controls() {
    let mut kb = keyboard();
    assert_eq!(players_move(PlayerNo(1), &kb), MoveCommand::Keep);
    kb.w = held();
    kb.a = held();
    assert_eq!(players_move(PlayerNo(1), &kb), MoveCommand::Drive(Direction::Up));
    assert_eq!(players_move(PlayerNo(2), &kb), MoveCommand::Keep);
    kb.w = idle();
    assert_eq!(players_move(PlayerNo(1), &kb), MoveCommand::Drive(Direction::Left));
    kb.d = released();
    assert_eq!(players_move(PlayerNo(1), &kb), MoveCommand::Stop);
    kb.arrow_down = held();
    kb.arrow_right = held();
    assert_eq!(players_move(PlayerNo(2), &kb), MoveCommand::Drive(Direction::Down));
    assert_eq!(players_move(PlayerNo(3), &kb), MoveCommand::Keep);
    assert_eq!(tank_animation_indices(Direction::Up), AnimationIndices { first: 0, last: 1 });
    assert_eq!(tank_animation_indices(Direction::Right), AnimationIndices { first: 8, last: 9 });
    assert_eq!(tank_animation_indices(Direction::Down), AnimationIndices { first: 16, last: 17 });
    assert_eq!(tank_animation_indices(Direction::Left), AnimationIndices { first: 24, last: 25 });
}

#[test]
fn players_fire_when_reloaded() {
    let mut kb = keyboard();
    kb.space = tapped();
    assert!(players_attack(PlayerNo(1), &kb, true));
    assert!(!players_attack(PlayerNo(1), &kb, false));
    assert!(!players_attack(PlayerNo(2), &kb, true));
    kb.enter = tapped();
    assert!(players_attack(PlayerNo(2), &kb, true));
    kb.space = held();
    assert!(!players_attack(PlayerNo(1), &kb, true));
}

#[test]
fn tanks_slow_down_on_contact() {
    assert!(handle_tank_collisions(true, Some(TankKind::Player), Some(TankKind::Enemy)));
    assert!(!handle_tank_collisions(false, Some(TankKind::Player), Some(TankKind::Enemy)));
    assert!(!handle_tank_collisions(true, Some(TankKind::Enemy), None));
}

#[test]
fn bullet_hits_walls() {
    let mut lives = PlayerLives::default();
    let mut scheduled = ScheduledDespawn::new();
    let mut stone = collision(Bullet::Player);
    stone.level_item = Some(LevelItem::StoneWall);
    let effects = handle_bullet_collision(&vec![stone], &mut lives, MultiplayerMode::SinglePlayer, &mut scheduled);
    assert_eq!(
        effects,
        vec![CollisionEffect::Despawn(10), CollisionEffect::Despawn(20), small_at(10)]
    );

    let mut scheduled = ScheduledDespawn::new();
    let mut iron = collision(Bullet::Enemy);
    iron.level_item = Some(LevelItem::IronWall);
    let effects = handle_bullet_collision(&vec![iron], &mut lives, MultiplayerMode::SinglePlayer, &mut scheduled);
    assert_eq!(effects, vec![CollisionEffect::Despawn(10), small_at(10)]);

    let mut scheduled = ScheduledDespawn::new();
    let mut water = collision(Bullet::Enemy);
    water.level_item = Some(LevelItem::Water);
    let effects = handle_bullet_collision(&vec![water], &mut lives, MultiplayerMode::SinglePlayer, &mut scheduled);
    assert!(effects.is_empty());

    let mut area = collision(Bullet::Player);
    area.hits_area_wall = true;
    let effects = handle_bullet_collision(&vec![area], &mut lives, MultiplayerMode::SinglePlayer, &mut scheduled);
    assert_eq!(effects, vec![CollisionEffect::Despawn(10), small_at(10)]);
    assert_eq!(lives, PlayerLives::default());
}

#[test]
fn bullet_hits_home() {
    let mut lives = PlayerLives::default();
    let mut scheduled = ScheduledDespawn::new();
    let mut home = collision(Bullet::Enemy);
    home.level_item = Some(LevelItem::Home);
    let effects = handle_bullet_collision(&vec![home], &mut lives, MultiplayerMode::SinglePlayer, &mut scheduled);
    assert_eq!(
        effects,
        vec![
            CollisionEffect::Despawn(10),
            CollisionEffect::Explode(ExplosionEvent {
                site: ExplosionSite::LevelItem(20),
                explosion_type: ExplosionType::BigExplosion
            }),
            CollisionEffect::HomeDying,
        ]
    );
    assert!(animate_home(1, &vec![LevelItem::Tree, LevelItem::Home]));
    assert!(!animate_home(0, &vec![LevelItem::Home]));
    assert!(!animate_home(2, &vec![LevelItem::Tree]));
    assert_eq!(HOME_DESTROYED_FRAME, 6);
}

#[test]
fn bullets_and_enemies() {
    let mut lives = PlayerLives::default();
    let mut scheduled = ScheduledDespawn::new();
    let mut hit = collision(Bullet::Player);
    hit.hits_enemy = true;
    let effects = handle_bullet_collision(&vec![hit], &mut lives, MultiplayerMode::SinglePlayer, &mut scheduled);
    assert_eq!(
        effects,
        vec![
            CollisionEffect::Despawn(10),
            CollisionEffect::Despawn(20),
            CollisionEffect::Explode(ExplosionEvent {
                site: ExplosionSite::Enemy(20),
                explosion_type: ExplosionType::BigExplosion
            }),
        ]
    );
    let mut friendly = collision(Bullet::Enemy);
    friendly.bullet_entity = 11;
    friendly.hits_enemy = true;
    let effects = handle_bullet_collision(&vec![friendly], &mut lives, MultiplayerMode::SinglePlayer, &mut scheduled);
    assert!(effects.is_empty());
}

#[test]
fn enemy_bullet_and_shield() {
    let mut lives = PlayerLives::default();
    let mut scheduled = ScheduledDespawn::new();
    let mut hit = collision(Bullet::Enemy);
    hit.player = Some(PlayerTarget { entity: 30, player_no: PlayerNo(1), has_shield: true });
    let effects = handle_bullet_collision(&vec![hit], &mut lives, MultiplayerMode::SinglePlayer, &mut scheduled);
    assert_eq!(
        effects,
        vec![
            CollisionEffect::Despawn(10),
            CollisionEffect::Explode(ExplosionEvent {
                site: ExplosionSite::Player(30),
                explosion_type: ExplosionType::BulletExplosion
            }),
        ]
    );
    assert_eq!(lives, PlayerLives::default());
}

#[test]
fn enemy_bullet_destroys_player() {
    let big_at_player = CollisionEffect::Explode(ExplosionEvent {
        site: ExplosionSite::Player(30),
        explosion_type: ExplosionType::BigExplosion,
    });
    let mut lives = PlayerLives { player1: 2, player2: 3 };
    let mut scheduled = ScheduledDespawn::new();
    let mut hit = collision(Bullet::Enemy);
    hit.player = Some(PlayerTarget { entity: 30, player_no: PlayerNo(1), has_shield: false });
    let effects = handle_bullet_collision(&vec![hit], &mut lives, MultiplayerMode::SinglePlayer, &mut scheduled);
    assert_eq!(
        effects,
        vec![CollisionEffect::Despawn(10), CollisionEffect::Despawn(30), big_at_player]
    );
    assert_eq!(lives, PlayerLives { player1: 1, player2: 3 });

    // the last life in single player mode ends the game
    let mut scheduled = ScheduledDespawn::new();
    let effects = handle_bullet_collision(&vec![hit], &mut lives, MultiplayerMode::SinglePlayer, &mut scheduled);
    assert_eq!(
        effects,
        vec![
            CollisionEffect::Despawn(10),
            CollisionEffect::Despawn(30),
            big_at_player,
            CollisionEffect::GameOver
        ]
    );
    assert_eq!(lives.player1, 0);

    // with two players the game goes on while player 2 has lives
    let mut lives = PlayerLives { player1: 1, player2: 2 };
    let mut scheduled = ScheduledDespawn::new();
    let effects = handle_bullet_collision(&vec![hit], &mut lives, MultiplayerMode::TwoPlayers, &mut scheduled);
    assert_eq!(effects.len(), 3);
    let mut second = hit;
    second.bullet_entity = 12;
    second.player = Some(PlayerTarget { entity: 31, player_no: PlayerNo(2), has_shield: false });
    let mut lives = PlayerLives { player1: 0, player2: 1 };
    let effects = handle_bullet_collision(&vec![second], &mut lives, MultiplayerMode::TwoPlayers, &mut scheduled);
    assert_eq!(effects[3], CollisionEffect::GameOver);
    assert_eq!(lives, PlayerLives { player1: 0, player2: 0 });
}

#[test]
fn one_frame_despawns_each_entity_once() {
    let mut lives = PlayerLives::default();
    let mut scheduled = ScheduledDespawn::new();
    let mut first = collision(Bullet::Player);
    first.level_item = Some(LevelItem::StoneWall);
    // the same bullet also reports touching the area wall
    let mut second = collision(Bullet::Player);
    second.other_entity = 40;
    second.hits_area_wall = true;
    // another bullet hits the same stone wall
    let mut third = collision(Bullet::Player);
    third.bullet_entity = 50;
    third.level_item = Some(LevelItem::StoneWall);
    let effects = handle_bullet_collision(
        &vec![first, second, third],
        &mut lives,
        MultiplayerMode::SinglePlayer,
        &mut scheduled,
    );
    assert_eq!(
        effects,
        vec![
            CollisionEffect::Despawn(10),
            CollisionEffect::Despawn(20),
            small_at(10),
            small_at(10),
            CollisionEffect::Despawn(50),
            small_at(50),
        ]
    );
    assert!(scheduled.contains(10) && scheduled.contains(20) && scheduled.contains(50));
}

#[test]
fn bullet_and_explosion_sprites() {
    assert_eq!(bullet_sprite_index(Direction::Up), 0);
    assert_eq!(bullet_sprite_index(Direction::Right), 1);
    assert_eq!(bullet_sprite_index(Direction::Down), 2);
    assert_eq!(bullet_sprite_index(Direction::Left), 3);
    assert_eq!(
        explosion_animation_indices(ExplosionType::BigExplosion),
        AnimationIndices { first: 0, last: 4 }
    );
    assert_eq!(
        explosion_animation_indices(ExplosionType::BulletExplosion),
        AnimationIndices { first: 0, last: 2 }
    );
    let indices = AnimationIndices { first: 0, last: 2 };
    let mut scheduled = ScheduledDespawn::new();
    assert_eq!(animate_explosion(8, 1, indices, &mut scheduled), (2, false));
    assert_eq!(animate_explosion(8, 2, indices, &mut scheduled), (3, true));
    assert_eq!(animate_explosion(8, 3, indices, &mut scheduled), (4, false));
}

#[test]
fn enemy_spawn_limits() {
    let config = GameConfig::default().enemy;
    let fresh = LevelSpawnedEnemies::default();
    assert_eq!(auto_spawn_enemies(5, &fresh, &config, 3), None);
    assert_eq!(auto_spawn_enemies(0, &LevelSpawnedEnemies(12), &config, 3), None);
    assert_eq!(auto_spawn_enemies(0, &fresh, &config, 0), None);
    for _ in 0..50 {
        let marker = auto_spawn_enemies(4, &LevelSpawnedEnemies(11), &config, 3);
        assert!(matches!(marker, Some(m) if m < 3));
    }
    let mut spawned = LevelSpawnedEnemies(11);
    spawned.record_spawn();
    assert_eq!(spawned.0, 12);
    reset_level_spawned_enemies(&mut spawned);
    assert_eq!(spawned.0, 0);
}

#[test]
fn enemy_sprites_turn() {
    assert_eq!(new_sprite_index(0, Direction::Up), 0);
    assert_eq!(new_sprite_index(0, Direction::Right), 8);
    assert_eq!(new_sprite_index(9, Direction::Left), 24);
    assert_eq!(new_sprite_index(33, Direction::Right), 40);
    assert_eq!(new_sprite_index(63, Direction::Down), 54);
    assert_eq!(new_sprite_index(27, Direction::Up), 2);
    assert_eq!(new_sprite_index(64, Direction::Up), 0);
    assert_eq!(new_sprite_index(-1, Direction::Down), 0);
    assert_eq!(turn_enemy(41, Direction::Down), AnimationIndices { first: 48, last: 49 });
    assert_eq!(turn_enemy(1000, Direction::Left), AnimationIndices { first: 0, last: 1 });
    assert_eq!(color_sprite_index(0), 0);
    assert_eq!(color_sprite_index(5), 34);
    let ups = [0, 2, 4, 6, 32, 34, 36, 38];
    for _ in 0..50 {
        let indices = choose_enemy_sprite();
        assert!(ups.contains(&indices.first));
        assert_eq!(indices.last, indices.first + 1);
    }
}

#[test]
fn enemy_direction_choice() {
    assert_eq!(direction_for_roll(0), Direction::Up);
    assert_eq!(direction_for_roll(2), Direction::Left);
    assert_eq!(direction_for_roll(3), Direction::Right);
    assert_eq!(direction_for_roll(8), Direction::Down);
    let all = Openings { up: true, down: true, left: true, right: true };
    assert_eq!(enemy_turn_direction(&all, 0), Some(Direction::Up));
    assert_eq!(enemy_turn_direction(&all, 4), Some(Direction::Right));
    assert_eq!(enemy_turn_direction(&all, 5), Some(Direction::Down));
    assert_eq!(enemy_turn_direction(&all, 9), None);
    let sideways = Openings { up: false, down: false, left: true, right: true };
    assert_eq!(enemy_turn_direction(&sideways, 1), Some(Direction::Left));
    assert_eq!(enemy_turn_direction(&sideways, 2), Some(Direction::Right));
    assert_eq!(enemy_turn_direction(&sideways, 4), None);
    let closed = Openings { up: false, down: false, left: false, right: false };
    assert_eq!(choose_enemy_direction(&closed), None);
    let only_up = Openings { up: true, down: false, left: false, right: false };
    for _ in 0..20 {
        assert_eq!(choose_enemy_direction(&only_up), Some(Direction::Up));
        let d = choose_enemy_direction(&sideways);
        assert!(d == Some(Direction::Left) || d == Some(Direction::Right));
        assert!(choose_enemy_direction(&all).is_some());
    }
}

#[test]
fn level_switching() {
    let config = GameConfig::default();
    let mut spawned = LevelSpawnedEnemies(12);
    assert_eq!(auto_switch_level(&mut spawned, 1, Some(0), &config), LevelSwitch::Stay);
    assert_eq!(spawned.0, 12);
    assert_eq!(auto_switch_level(&mut spawned, 0, None, &config), LevelSwitch::Stay);
    assert_eq!(auto_switch_level(&mut spawned, 0, Some(0), &config), LevelSwitch::NextLevel(1));
    assert_eq!(spawned.0, 0);
    assert_eq!(auto_switch_level(&mut spawned, 0, Some(1), &config), LevelSwitch::Stay);
    let mut done = LevelSpawnedEnemies(12);
    assert_eq!(auto_switch_level(&mut done, 0, Some(1), &config), LevelSwitch::Victory);
    assert_eq!(done.0, 12);
}
