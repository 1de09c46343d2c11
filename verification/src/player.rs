//! Player tanks: numbers, lives, respawning, controls.
use vstd::prelude::*;

use crate::common::{AnimationIndices, Direction, MultiplayerMode, ScheduledDespawn};
use crate::config::GameConfig;

verus! {

/// Identifies which player a tank belongs to (1 or 2).
#[derive(Debug, Clone, Copy, PartialEq, Eq, Structural, Hash)]
pub struct PlayerNo(pub u32);

impl Default for PlayerNo {
    fn default() -> (p: Self)
        ensures
            p.0 == 0,
    {
        PlayerNo(0)
    }
}

/// Lives left to each player.
#[derive(Debug, Clone, Copy, PartialEq, Eq, Structural)]
pub struct PlayerLives {
    /// Number of lives remaining for player 1
    pub player1: i8,
    /// Number of lives remaining for player 2
    pub player2: i8,
}

impl Default for PlayerLives {
    fn default() -> (l: Self)
        ensures
            l.player1 == 3,
            l.player2 == 3,
    {
        PlayerLives { player1: 3, player2: 3 }
    }
}

/// The lives after `player_no` loses one; other player numbers lose nothing.
pub open spec fn lives_after_loss(lives: PlayerLives, player_no: PlayerNo) -> PlayerLives {
    if player_no.0 == 1 {
        PlayerLives { player1: (lives.player1 - 1) as i8, ..lives }
    } else if player_no.0 == 2 {
        PlayerLives { player2: (lives.player2 - 1) as i8, ..lives }
    } else {
        lives
    }
}

/// Whether `player_no` losing a life stays within the range of the counter.
pub open spec fn can_lose_life(lives: PlayerLives, player_no: PlayerNo) -> bool {
    &&& player_no.0 == 1 ==> lives.player1 > i8::MIN
    &&& player_no.0 == 2 ==> lives.player2 > i8::MIN
}

impl PlayerLives {
    /// Takes one life from `player_no`.
    pub fn lose_life(&mut self, player_no: PlayerNo)
        requires
            can_lose_life(*old(self), player_no),
        ensures
            *final(self) == lives_after_loss(*old(self), player_no),
    {
        if player_no.0 == 1 {
            self.player1 = self.player1 - 1;
        } else if player_no.0 == 2 {
            self.player2 = self.player2 - 1;
        }
    }
}

/// Gives both players the configured initial number of lives.
pub fn reset_player_lives(lives: &mut PlayerLives, config: &GameConfig)
    ensures
        final(lives).player1 == config.player.initial_lives,
        final(lives).player2 == config.player.initial_lives,
{
    let initial_lives = config.player.initial_lives;
    lives.player1 = initial_lives;
    lives.player2 = initial_lives;
}

/// Whether a tank of `player_no` is on the map.
pub open spec fn player_exists(players: Seq<PlayerNo>, n: u32) -> bool {
    exists|i: int| 0 <= i < players.len() && #[trigger] players[i].0 == n
}

/// Whether each player's spawn animation is running.
#[derive(Debug, Clone, Copy, PartialEq, Eq, Structural)]
pub struct SpawnState {
    pub spawning_player1: bool,
    pub spawning_player2: bool,
}

impl Default for SpawnState {
    fn default() -> (s: Self)
        ensures
            !s.spawning_player1,
            !s.spawning_player2,
    {
        SpawnState { spawning_player1: false, spawning_player2: false }
    }
}

/// Which players get a spawn animation at their first marker this frame.
#[derive(Debug, Clone, Copy, PartialEq, Eq, Structural)]
pub struct BornPlan {
    pub player1: bool,
    pub player2: bool,
}

/// Player 1 starts to respawn: no tank of it on the map, a marker to spawn
/// at, no spawn animation running yet and lives left.
pub open spec fn starts_player1(
    players: Seq<PlayerNo>,
    has_marker: bool,
    lives: PlayerLives,
    state: SpawnState,
) -> bool {
    !player_exists(players, 1) && has_marker && !state.spawning_player1 && lives.player1 > 0
}

/// Player 2 starts to respawn: as player 1, and only with two players.
pub open spec fn starts_player2(
    players: Seq<PlayerNo>,
    has_marker: bool,
    mode: MultiplayerMode,
    lives: PlayerLives,
    state: SpawnState,
) -> bool {
    &&& !player_exists(players, 2)
    &&& mode == MultiplayerMode::TwoPlayers
    &&& has_marker
    &&& !state.spawning_player2
    &&& lives.player2 > 0
}

/// Whether any tank on the map belongs to player `n`.
fn any_player(players: &Vec<PlayerNo>, n: u32) -> (found: bool)
    ensures
        found == player_exists(players@, n),
{
    let mut i: usize = 0;
    while i < players.len()
        invariant
            i <= players.len(),
            forall|k: int| 0 <= k < i ==> players@[k].0 != n,
        decreases players.len() - i,
    {
        if players[i].0 == n {
            assert(players@[i as int].0 == n);
            return true;
        }
        i = i + 1;
    }
    false
}

/// Decides which players begin their spawn animation: a player whose tank
/// is gone, who has lives left and a spawn marker, and whose animation is
/// not already running; player 2 only with two players. Marks the started
/// animations as running.
pub fn auto_spawn_players(
    players: &Vec<PlayerNo>,
    player1_marker: bool,
    player2_marker: bool,
    mode: MultiplayerMode,
    lives: &PlayerLives,
    state: &mut SpawnState,
) -> (plan: BornPlan)
    ensures
        plan.player1 == starts_player1(players@, player1_marker, *lives, *old(state)),
        plan.player2 == starts_player2(players@, player2_marker, mode, *lives, *old(state)),
        final(state).spawning_player1 == (old(state).spawning_player1 || plan.player1),
        final(state).spawning_player2 == (old(state).spawning_player2 || plan.player2),
{
    let player1_exists = any_player(players, 1);
    let player2_exists = any_player(players, 2);
    let mut plan = BornPlan { player1: false, player2: false };
    if !player1_exists && player1_marker && !state.spawning_player1 && lives.player1 > 0 {
        plan.player1 = true;
        state.spawning_player1 = true;
    }
    if !player2_exists && mode == MultiplayerMode::TwoPlayers && player2_marker
        && !state.spawning_player2 && lives.player2 > 0 {
        plan.player2 = true;
        state.spawning_player2 = true;
    }
    plan
}

/// A spawn animation has finished and the tank of `player_no` enters the
/// map: it costs that player a life and ends its spawn animation.
pub fn player_spawned(player_no: PlayerNo, lives: &mut PlayerLives, state: &mut SpawnState)
    requires
        can_lose_life(*old(lives), player_no),
    ensures
        *final(lives) == lives_after_loss(*old(lives), player_no),
        final(state).spawning_player1 == (old(state).spawning_player1 && player_no.0 != 1),
        final(state).spawning_player2 == (old(state).spawning_player2 && player_no.0 != 2),
{
    lives.lose_life(player_no);
    if player_no.0 == 1 {
        state.spawning_player1 = false;
    } else if player_no.0 == 2 {
        state.spawning_player2 = false;
    }
}

/// What happens to a spawn animation this frame.
#[derive(Debug, Clone, Copy, PartialEq, Eq, Structural)]
pub struct BornStep {
    /// Despawn the animation entity now
    pub despawn: bool,
    /// Announce that the player's tank is to be created
    pub spawn_player: bool,
}

/// Once its timer has run out, a spawn animation is despawned (once) and
/// announces the player's tank, every frame until it is gone.
pub fn animate_born(entity: u64, finished: bool, scheduled: &mut ScheduledDespawn) -> (step:
    BornStep)
    ensures
        step.spawn_player == finished,
        step.despawn == (finished && !old(scheduled).0@.contains(entity)),
        final(scheduled).0@ == (if finished {
            old(scheduled).0@.insert(entity)
        } else {
            old(scheduled).0@
        }),
{
    if finished {
        let first = scheduled.schedule(entity);
        BornStep { despawn: first, spawn_player: true }
    } else {
        BornStep { despawn: false, spawn_player: false }
    }
}

/// State of one key this frame.
#[derive(Debug, Clone, Copy, PartialEq, Eq, Structural)]
pub struct KeyState {
    pub pressed: bool,
    pub just_pressed: bool,
    pub just_released: bool,
}

/// The keys that the game reads.
#[derive(Debug, Clone, Copy, PartialEq, Eq, Structural)]
pub struct Keyboard {
    pub w: KeyState,
    pub s: KeyState,
    pub a: KeyState,
    pub d: KeyState,
    pub arrow_up: KeyState,
    pub arrow_down: KeyState,
    pub arrow_left: KeyState,
    pub arrow_right: KeyState,
    pub space: KeyState,
    pub enter: KeyState,
}

/// The keys of one player.
#[derive(Debug, Clone, Copy, PartialEq, Eq, Structural)]
pub struct PlayerControls {
    pub up: KeyState,
    pub down: KeyState,
    pub left: KeyState,
    pub right: KeyState,
    pub fire: KeyState,
}

/// Player 1 steers with W, S, A, D and fires with space; player 2 steers
/// with the arrow keys and fires with enter.
pub open spec fn controls_of(keyboard: Keyboard, player_no: PlayerNo) -> PlayerControls {
    if player_no.0 == 1 {
        PlayerControls {
            up: keyboard.w,
            down: keyboard.s,
            left: keyboard.a,
            right: keyboard.d,
            fire: keyboard.space,
        }
    } else {
        PlayerControls {
            up: keyboard.arrow_up,
            down: keyboard.arrow_down,
            left: keyboard.arrow_left,
            right: keyboard.arrow_right,
            fire: keyboard.enter,
        }
    }
}

/// What a player's input does to the tank this frame.
#[derive(Debug, Clone, Copy, PartialEq, Eq, Structural)]
pub enum MoveCommand {
    /// Stand still
    Stop,
    /// Face this direction and drive
    Drive(Direction),
    /// Leave velocity and direction as they are
    Keep,
}

/// Releasing any steering key stops the tank; otherwise the first pressed
/// key among up, down, left and right sets the direction; with none
/// pressed nothing changes. Only players 1 and 2 have keys.
pub open spec fn move_command(player_no: PlayerNo, keyboard: Keyboard) -> MoveCommand {
    let c = controls_of(keyboard, player_no);
    if player_no.0 != 1 && player_no.0 != 2 {
        MoveCommand::Keep
    } else if c.up.just_released || c.down.just_released || c.left.just_released
        || c.right.just_released {
        MoveCommand::Stop
    } else if c.up.pressed {
        MoveCommand::Drive(Direction::Up)
    } else if c.down.pressed {
        MoveCommand::Drive(Direction::Down)
    } else if c.left.pressed {
        MoveCommand::Drive(Direction::Left)
    } else if c.right.pressed {
        MoveCommand::Drive(Direction::Right)
    } else {
        MoveCommand::Keep
    }
}

fn controls(keyboard: &Keyboard, player_no: PlayerNo) -> (c: PlayerControls)
    ensures
        c == controls_of(*keyboard, player_no),
{
    if player_no.0 == 1 {
        PlayerControls {
            up: keyboard.w,
            down: keyboard.s,
            left: keyboard.a,
            right: keyboard.d,
            fire: keyboard.space,
        }
    } else {
        PlayerControls {
            up: keyboard.arrow_up,
            down: keyboard.arrow_down,
            left: keyboard.arrow_left,
            right: keyboard.arrow_right,
            fire: keyboard.enter,
        }
    }
}

/// Turns a player's keys into a movement command.
pub fn players_move(player_no: PlayerNo, keyboard: &Keyboard) -> (command: MoveCommand)
    ensures
        command == move_command(player_no, *keyboard),
{
    let c = controls(keyboard, player_no);
    if player_no.0 != 1 && player_no.0 != 2 {
        MoveCommand::Keep
    } else if c.up.just_released || c.down.just_released || c.left.just_released
        || c.right.just_released {
        MoveCommand::Stop
    } else if c.up.pressed {
        MoveCommand::Drive(Direction::Up)
    } else if c.down.pressed {
        MoveCommand::Drive(Direction::Down)
    } else if c.left.pressed {
        MoveCommand::Drive(Direction::Left)
    } else if c.right.pressed {
        MoveCommand::Drive(Direction::Right)
    } else {
        MoveCommand::Keep
    }
}

/// Animation frames of a player tank facing `direction`.
pub open spec fn tank_frames(direction: Direction) -> AnimationIndices {
    match direction {
        Direction::Up => AnimationIndices { first: 0, last: 1 },
        Direction::Right => AnimationIndices { first: 8, last: 9 },
        Direction::Down => AnimationIndices { first: 16, last: 17 },
        Direction::Left => AnimationIndices { first: 24, last: 25 },
    }
}

/// Animation frames of a player tank facing `direction`.
pub fn tank_animation_indices(direction: Direction) -> (indices: AnimationIndices)
    ensures
        indices == tank_frames(direction),
{
    match direction {
        Direction::Up => AnimationIndices { first: 0, last: 1 },
        Direction::Right => AnimationIndices { first: 8, last: 9 },
        Direction::Down => AnimationIndices { first: 16, last: 17 },
        Direction::Left => AnimationIndices { first: 24, last: 25 },
    }
}

/// A player fires when its fire key was just pressed and its gun has
/// reloaded.
pub fn players_attack(player_no: PlayerNo, keyboard: &Keyboard, reloaded: bool) -> (fire: bool)
    ensures
        fire == (((player_no.0 == 1 && keyboard.space.just_pressed) || (player_no.0 == 2
            && keyboard.enter.just_pressed)) && reloaded),
{
    ((player_no.0 == 1 && keyboard.space.just_pressed) || (player_no.0 == 2
        && keyboard.enter.just_pressed)) && reloaded
}

/// The kind of tank an entity of a collision is.
#[derive(Debug, Clone, Copy, PartialEq, Eq, Structural)]
pub enum TankKind {
    Player,
    Enemy,
}

/// Two tanks that start to touch both slow down; anything else is left to
/// the physics engine.
pub fn handle_tank_collisions(started: bool, first: Option<TankKind>, second: Option<TankKind>) -> (slow_both: bool)
    ensures
        slow_both == (started && first is Some && second is Some),
{
    started && first.is_some() && second.is_some()
}

} // verus!

verus! {

/// A player without lives left never starts to respawn.
pub proof fn lemma_no_lives_no_respawn(
    players: Seq<PlayerNo>,
    player1_marker: bool,
    player2_marker: bool,
    mode: MultiplayerMode,
    lives: PlayerLives,
    state: SpawnState,
)
    ensures
        lives.player1 <= 0 ==> !starts_player1(players, player1_marker, lives, state),
        lives.player2 <= 0 ==> !starts_player2(players, player2_marker, mode, lives, state),
{
}

/// While a player's spawn animation runs, or its tank is on the map, no
/// second one starts: each player has at most one tank coming.
pub proof fn lemma_one_tank_at_a_time(
    players: Seq<PlayerNo>,
    player1_marker: bool,
    player2_marker: bool,
    mode: MultiplayerMode,
    lives: PlayerLives,
    state: SpawnState,
)
    ensures
        state.spawning_player1 || player_exists(players, 1) ==> !starts_player1(
            players,
            player1_marker,
            lives,
            state,
        ),
        state.spawning_player2 || player_exists(players, 2) ==> !starts_player2(
            players,
            player2_marker,
            mode,
            lives,
            state,
        ),
{
}

/// In single player mode player 2 never spawns.
pub proof fn lemma_single_player_alone(
    players: Seq<PlayerNo>,
    player2_marker: bool,
    lives: PlayerLives,
    state: SpawnState,
)
    ensures
        !starts_player2(players, player2_marker, MultiplayerMode::SinglePlayer, lives, state),
{
}

/// A tank entering the map costs its player exactly one life and leaves
/// the other player's lives alone.
pub proof fn lemma_spawn_costs_one_life(lives: PlayerLives, player_no: PlayerNo)
    requires
        player_no.0 == 1 || player_no.0 == 2,
        can_lose_life(lives, player_no),
    ensures
        player_no.0 == 1 ==> lives_after_loss(lives, player_no).player1 == lives.player1 - 1
            && lives_after_loss(lives, player_no).player2 == lives.player2,
        player_no.0 == 2 ==> lives_after_loss(lives, player_no).player2 == lives.player2 - 1
            && lives_after_loss(lives, player_no).player1 == lives.player1,
{
}

} // verus!

verus! {

/// A player whose tank is gone, who has a spawn marker, no spawn animation
/// running and at least one life left does start to respawn; player 2 only
/// with two players. Nothing else starts a respawn.
pub proof fn lemma_respawn_when_able(
    players: Seq<PlayerNo>,
    player1_marker: bool,
    player2_marker: bool,
    mode: MultiplayerMode,
    lives: PlayerLives,
    state: SpawnState,
)
    ensures
        starts_player1(players, player1_marker, lives, state) <==> ((forall|i: int|
            0 <= i < players.len() ==> players[i].0 != 1) && player1_marker
            && !state.spawning_player1 && lives.player1 >= 1),
        starts_player2(players, player2_marker, mode, lives, state) <==> ((forall|i: int|
            0 <= i < players.len() ==> players[i].0 != 2) && mode == MultiplayerMode::TwoPlayers
            && player2_marker && !state.spawning_player2 && lives.player2 >= 1),
{
}

/// Player 1 steers with W, A, S, D and player 2 with the arrow keys:
/// releasing a steering key stops the tank; with none released, a single
/// pressed steering key drives the tank its way (up wins over the others
/// when several are held), and with none pressed the tank keeps going.
/// A drive always goes the way of a pressed key of that player.
pub proof fn lemma_steering_keys(player_no: PlayerNo, kb: Keyboard)
    ensures
        player_no.0 == 1 ==> ((kb.w.just_released || kb.s.just_released || kb.a.just_released
            || kb.d.just_released) <==> move_command(player_no, kb) == MoveCommand::Stop),
        player_no.0 == 2 ==> ((kb.arrow_up.just_released || kb.arrow_down.just_released
            || kb.arrow_left.just_released || kb.arrow_right.just_released) <==> move_command(
            player_no,
            kb,
        ) == MoveCommand::Stop),
        player_no.0 == 1 && !(kb.w.just_released || kb.s.just_released || kb.a.just_released
            || kb.d.just_released) ==> {
            &&& kb.w.pressed ==> move_command(player_no, kb) == MoveCommand::Drive(Direction::Up)
            &&& kb.s.pressed && !kb.w.pressed ==> move_command(player_no, kb) == MoveCommand::Drive(
                Direction::Down,
            )
            &&& kb.a.pressed && !kb.w.pressed && !kb.s.pressed ==> move_command(player_no, kb)
                == MoveCommand::Drive(Direction::Left)
            &&& kb.d.pressed && !kb.w.pressed && !kb.s.pressed && !kb.a.pressed ==> move_command(
                player_no,
                kb,
            ) == MoveCommand::Drive(Direction::Right)
            &&& !kb.w.pressed && !kb.s.pressed && !kb.a.pressed && !kb.d.pressed ==> move_command(
                player_no,
                kb,
            ) == MoveCommand::Keep
        },
        player_no.0 == 2 && !(kb.arrow_up.just_released || kb.arrow_down.just_released
            || kb.arrow_left.just_released || kb.arrow_right.just_released) ==> {
            &&& kb.arrow_up.pressed ==> move_command(player_no, kb) == MoveCommand::Drive(
                Direction::Up,
            )
            &&& kb.arrow_down.pressed && !kb.arrow_up.pressed ==> move_command(player_no, kb)
                == MoveCommand::Drive(Direction::Down)
            &&& kb.arrow_left.pressed && !kb.arrow_up.pressed && !kb.arrow_down.pressed
                ==> move_command(player_no, kb) == MoveCommand::Drive(Direction::Left)
            &&& kb.arrow_right.pressed && !kb.arrow_up.pressed && !kb.arrow_down.pressed
                && !kb.arrow_left.pressed ==> move_command(player_no, kb) == MoveCommand::Drive(
                Direction::Right,
            )
            &&& !kb.arrow_up.pressed && !kb.arrow_down.pressed && !kb.arrow_left.pressed
                && !kb.arrow_right.pressed ==> move_command(player_no, kb) == MoveCommand::Keep
        },
        move_command(player_no, kb) == MoveCommand::Drive(Direction::Up) ==> (player_no.0 == 1
            && kb.w.pressed) || (player_no.0 == 2 && kb.arrow_up.pressed),
        move_command(player_no, kb) == MoveCommand::Drive(Direction::Down) ==> (player_no.0 == 1
            && kb.s.pressed) || (player_no.0 == 2 && kb.arrow_down.pressed),
        move_command(player_no, kb) == MoveCommand::Drive(Direction::Left) ==> (player_no.0 == 1
            && kb.a.pressed) || (player_no.0 == 2 && kb.arrow_left.pressed),
        move_command(player_no, kb) == MoveCommand::Drive(Direction::Right) ==> (player_no.0 == 1
            && kb.d.pressed) || (player_no.0 == 2 && kb.arrow_right.pressed),
        player_no.0 != 1 && player_no.0 != 2 ==> move_command(player_no, kb) == MoveCommand::Keep,
{
}

} // verus!

verus! {

/// A player tank has two animation frames per direction, one after the
/// other, and the directions lie eight frames apart on the sheet: up,
/// right, down, left.
pub proof fn lemma_tank_frames(direction: Direction)
    ensures
        tank_frames(direction).last == tank_frames(direction).first + 1,
        direction == Direction::Up ==> tank_frames(direction).first == 0,
        direction == Direction::Right ==> tank_frames(direction).first == 8,
        direction == Direction::Down ==> tank_frames(direction).first == 16,
        direction == Direction::Left ==> tank_frames(direction).first == 24,
{
}

} // verus!
