//! Bullets: what a bullet hitting something does, and bullet and explosion
//! sprites.
use vstd::prelude::*;

use crate::common::{AnimationIndices, Direction, MultiplayerMode, ScheduledDespawn};
use crate::level::LevelItem;
use crate::player::{can_lose_life, lives_after_loss, PlayerLives, PlayerNo};

verus! {

broadcast use vstd::std_specs::hash::group_hash_axioms;

/// Whether a bullet belongs to a player or to an enemy.
#[derive(Debug, Clone, Copy, PartialEq, Eq, Structural, Hash)]
pub enum Bullet {
    /// Player bullet
    Player,
    /// Enemy bullet
    Enemy,
}

/// Type of explosion effect.
#[derive(Debug, Clone, Copy, PartialEq, Eq, Structural, Hash)]
pub enum ExplosionType {
    /// Large explosion (for tanks, home base)
    BigExplosion,
    /// Small explosion (for bullets hitting walls)
    BulletExplosion,
}

/// Whose position an explosion of a bullet collision takes, with that
/// entity.
#[derive(Debug, Clone, Copy, PartialEq, Eq, Structural, Hash)]
pub enum ExplosionSite {
    /// The bullet's
    Bullet(u64),
    /// The level item's that was hit
    LevelItem(u64),
    /// The enemy's that was hit
    Enemy(u64),
    /// The player tank's that was hit
    Player(u64),
}

/// An explosion to spawn.
#[derive(Debug, Clone, Copy, PartialEq, Eq, Structural, Hash)]
pub struct ExplosionEvent {
    /// Where the explosion occurs
    pub site: ExplosionSite,
    /// Type of explosion to spawn
    pub explosion_type: ExplosionType,
}

/// A player tank that a bullet hit, directly or through one of its children.
#[derive(Debug, Clone, Copy, PartialEq, Eq, Structural)]
pub struct PlayerTarget {
    pub entity: u64,
    pub player_no: PlayerNo,
    /// Whether one of the tank's children is a protection shield
    pub has_shield: bool,
}

/// A collision between a bullet and another entity, with what that other
/// entity is.
#[derive(Debug, Clone, Copy, PartialEq, Eq, Structural)]
pub struct BulletCollision {
    pub bullet_entity: u64,
    pub bullet: Bullet,
    pub other_entity: u64,
    /// The kind of level item the other entity is, if it is one
    pub level_item: Option<LevelItem>,
    /// Whether the other entity is a wall around the play area
    pub hits_area_wall: bool,
    /// Whether the other entity is an enemy tank
    pub hits_enemy: bool,
    /// The player tank that the other entity is, or a child of
    pub player: Option<PlayerTarget>,
}

/// One consequence of bullet collisions.
#[derive(Debug, Clone, Copy, PartialEq, Eq, Structural)]
pub enum CollisionEffect {
    /// Despawn this entity
    Despawn(u64),
    /// Spawn an explosion
    Explode(ExplosionEvent),
    /// The home base is being destroyed
    HomeDying,
    /// The game is over
    GameOver,
}

pub open spec fn explode(site: ExplosionSite, explosion_type: ExplosionType) -> CollisionEffect {
    CollisionEffect::Explode(ExplosionEvent { site, explosion_type })
}

/// What hitting a level item asks for: the home base blows up and starts
/// dying, a stone wall is destroyed with the bullet, trees and iron walls
/// stop the bullet; empty items and water let it pass.
pub open spec fn level_item_requests(c: BulletCollision) -> Seq<CollisionEffect> {
    match c.level_item {
        Some(LevelItem::Home) => seq![
            CollisionEffect::Despawn(c.bullet_entity),
            explode(ExplosionSite::LevelItem(c.other_entity), ExplosionType::BigExplosion),
            CollisionEffect::HomeDying,
        ],
        Some(LevelItem::StoneWall) => seq![
            CollisionEffect::Despawn(c.bullet_entity),
            CollisionEffect::Despawn(c.other_entity),
            explode(ExplosionSite::Bullet(c.bullet_entity), ExplosionType::BulletExplosion),
        ],
        Some(LevelItem::Tree) => seq![
            CollisionEffect::Despawn(c.bullet_entity),
            explode(ExplosionSite::Bullet(c.bullet_entity), ExplosionType::BulletExplosion),
        ],
        Some(LevelItem::IronWall) => seq![
            CollisionEffect::Despawn(c.bullet_entity),
            explode(ExplosionSite::Bullet(c.bullet_entity), ExplosionType::BulletExplosion),
        ],
        _ => seq![],
    }
}

/// A wall around the play area stops the bullet.
pub open spec fn area_wall_requests(c: BulletCollision) -> Seq<CollisionEffect> {
    if c.hits_area_wall {
        seq![
            CollisionEffect::Despawn(c.bullet_entity),
            explode(ExplosionSite::Bullet(c.bullet_entity), ExplosionType::BulletExplosion),
        ]
    } else {
        seq![]
    }
}

/// A player's bullet destroys the enemy it hits, and itself.
pub open spec fn enemy_requests(c: BulletCollision) -> Seq<CollisionEffect> {
    if c.bullet == Bullet::Player && c.hits_enemy {
        seq![
            CollisionEffect::Despawn(c.bullet_entity),
            CollisionEffect::Despawn(c.other_entity),
            explode(ExplosionSite::Enemy(c.other_entity), ExplosionType::BigExplosion),
        ]
    } else {
        seq![]
    }
}

/// Whether a collision is an enemy bullet hitting an unshielded player.
pub open spec fn hurts_player(c: BulletCollision) -> bool {
    c.bullet == Bullet::Enemy && c.player is Some && !c.player->0.has_shield
}

/// The lives after a collision: an enemy bullet hitting an unshielded
/// player costs that player a life.
pub open spec fn lives_after_hit(c: BulletCollision, lives: PlayerLives) -> PlayerLives {
    if hurts_player(c) {
        lives_after_loss(lives, c.player->0.player_no)
    } else {
        lives
    }
}

/// The game is over when both players are out of lives, or player 1 is
/// in single player mode.
pub open spec fn game_lost(lives: PlayerLives, mode: MultiplayerMode) -> bool {
    (lives.player1 <= 0 && lives.player2 <= 0) || (lives.player1 <= 0 && mode
        == MultiplayerMode::SinglePlayer)
}

/// An enemy bullet that hits a player: a shield takes the hit; otherwise
/// the tank is destroyed, and the game may be lost.
pub open spec fn player_requests(
    c: BulletCollision,
    lives: PlayerLives,
    mode: MultiplayerMode,
) -> Seq<CollisionEffect> {
    if c.bullet == Bullet::Enemy && c.player is Some {
        let p = c.player->0;
        if p.has_shield {
            seq![
                CollisionEffect::Despawn(c.bullet_entity),
                explode(ExplosionSite::Player(p.entity), ExplosionType::BulletExplosion),
            ]
        } else {
            let hit = seq![
                CollisionEffect::Despawn(c.bullet_entity),
                CollisionEffect::Despawn(p.entity),
                explode(ExplosionSite::Player(p.entity), ExplosionType::BigExplosion),
            ];
            if game_lost(lives_after_hit(c, lives), mode) {
                hit.push(CollisionEffect::GameOver)
            } else {
                hit
            }
        }
    } else {
        seq![]
    }
}

/// Everything one collision asks for, in order, given the lives before it.
pub open spec fn event_requests(
    c: BulletCollision,
    lives: PlayerLives,
    mode: MultiplayerMode,
) -> Seq<CollisionEffect> {
    level_item_requests(c) + area_wall_requests(c) + enemy_requests(c) + player_requests(
        c,
        lives,
        mode,
    )
}

/// The lives after a sequence of collisions.
pub open spec fn lives_after_all(cs: Seq<BulletCollision>, lives: PlayerLives) -> PlayerLives
    decreases cs.len(),
{
    if cs.len() == 0 {
        lives
    } else {
        lives_after_hit(cs.last(), lives_after_all(cs.drop_last(), lives))
    }
}

/// Everything a sequence of collisions asks for, in order.
pub open spec fn all_requests(
    cs: Seq<BulletCollision>,
    lives: PlayerLives,
    mode: MultiplayerMode,
) -> Seq<CollisionEffect>
    decreases cs.len(),
{
    if cs.len() == 0 {
        seq![]
    } else {
        all_requests(cs.drop_last(), lives, mode) + event_requests(
            cs.last(),
            lives_after_all(cs.drop_last(), lives),
            mode,
        )
    }
}

/// Whether no collision of the sequence takes a life below the range of
/// the lives counter.
pub open spec fn hits_fit(cs: Seq<BulletCollision>, lives: PlayerLives) -> bool
    decreases cs.len(),
{
    if cs.len() == 0 {
        true
    } else {
        let before = lives_after_all(cs.drop_last(), lives);
        hits_fit(cs.drop_last(), lives) && (hurts_player(cs.last()) ==> can_lose_life(
            before,
            cs.last().player->0.player_no,
        ))
    }
}

/// The entities whose despawn a sequence of requests asks for.
pub open spec fn despawn_targets(reqs: Seq<CollisionEffect>) -> Set<u64> {
    Set::new(|e: u64| reqs.contains(CollisionEffect::Despawn(e)))
}

/// The requests that are carried out: all of them, except a despawn of
/// an entity that is already scheduled or was asked for earlier.
pub open spec fn carried_out(reqs: Seq<CollisionEffect>, scheduled: Set<u64>) -> Seq<
    CollisionEffect,
>
    decreases reqs.len(),
{
    if reqs.len() == 0 {
        seq![]
    } else {
        let before = reqs.drop_last();
        let prev = carried_out(before, scheduled);
        match reqs.last() {
            CollisionEffect::Despawn(e) => if scheduled.contains(e) || despawn_targets(
                before,
            ).contains(e) {
                prev
            } else {
                prev.push(reqs.last())
            },
            _ => prev.push(reqs.last()),
        }
    }
}

proof fn lemma_targets_push(reqs: Seq<CollisionEffect>, x: CollisionEffect)
    ensures
        despawn_targets(reqs.push(x)) == (match x {
            CollisionEffect::Despawn(e) => despawn_targets(reqs).insert(e),
            _ => despawn_targets(reqs),
        }),
{
    let after = reqs.push(x);
    assert forall|y: CollisionEffect| #[trigger] after.contains(y) <==> (reqs.contains(y) || y
        == x) by {
        if after.contains(y) {
            let k = choose|k: int| 0 <= k < after.len() && after[k] == y;
            if k < reqs.len() {
                assert(reqs[k] == y);
            }
        }
        if reqs.contains(y) {
            let k = choose|k: int| 0 <= k < reqs.len() && reqs[k] == y;
            assert(after[k] == y);
        }
        if y == x {
            assert(after[reqs.len() as int] == y);
        }
    }
    match x {
        CollisionEffect::Despawn(e) => {
            assert(despawn_targets(after) =~= despawn_targets(reqs).insert(e));
        },
        _ => {
            assert(despawn_targets(after) =~= despawn_targets(reqs));
        },
    }
}

/// Carries out one request: a despawn goes through the schedule, anything
/// else is passed on.
fn request(
    effect: CollisionEffect,
    out: &mut Vec<CollisionEffect>,
    scheduled: &mut ScheduledDespawn,
    Ghost(reqs): Ghost<Seq<CollisionEffect>>,
    Ghost(start): Ghost<Set<u64>>,
)
    requires
        old(out)@ == carried_out(reqs, start),
        old(scheduled).0@ == start + despawn_targets(reqs),
    ensures
        final(out)@ == carried_out(reqs.push(effect), start),
        final(scheduled).0@ == start + despawn_targets(reqs.push(effect)),
{
    proof {
        lemma_targets_push(reqs, effect);
        assert(reqs.push(effect).drop_last() =~= reqs);
    }
    match effect {
        CollisionEffect::Despawn(e) => {
            if scheduled.schedule(e) {
                out.push(effect);
            }
            assert(scheduled.0@ =~= start + despawn_targets(reqs.push(effect)));
        },
        _ => {
            out.push(effect);
        },
    }
}

} // verus!

verus! {

/// Carries out `effects` in order.
fn request_all(
    effects: Vec<CollisionEffect>,
    out: &mut Vec<CollisionEffect>,
    scheduled: &mut ScheduledDespawn,
    Ghost(reqs): Ghost<Seq<CollisionEffect>>,
    Ghost(start): Ghost<Set<u64>>,
)
    requires
        old(out)@ == carried_out(reqs, start),
        old(scheduled).0@ == start + despawn_targets(reqs),
    ensures
        final(out)@ == carried_out(reqs + effects@, start),
        final(scheduled).0@ == start + despawn_targets(reqs + effects@),
{
    let mut i: usize = 0;
    while i < effects.len()
        invariant
            i <= effects.len(),
            out@ == carried_out(reqs + effects@.take(i as int), start),
            scheduled.0@ == start + despawn_targets(reqs + effects@.take(i as int)),
        decreases effects.len() - i,
    {
        let ghost done = reqs + effects@.take(i as int);
        request(effects[i], out, scheduled, Ghost(done), Ghost(start));
        assert(done.push(effects@[i as int]) =~= reqs + effects@.take(i as int + 1));
        i = i + 1;
    }
    assert(effects@.take(effects.len() as int) =~= effects@);
}

fn level_item_effects(c: &BulletCollision) -> (v: Vec<CollisionEffect>)
    ensures
        v@ == level_item_requests(*c),
{
    let bullet = CollisionEffect::Despawn(c.bullet_entity);
    let small = CollisionEffect::Explode(
        ExplosionEvent { site: ExplosionSite::Bullet(c.bullet_entity), explosion_type: ExplosionType::BulletExplosion },
    );
    let v = match c.level_item {
        Some(LevelItem::Home) => vec![
            bullet,
            CollisionEffect::Explode(
                ExplosionEvent {
                    site: ExplosionSite::LevelItem(c.other_entity),
                    explosion_type: ExplosionType::BigExplosion,
                },
            ),
            CollisionEffect::HomeDying,
        ],
        Some(LevelItem::StoneWall) => vec![bullet, CollisionEffect::Despawn(c.other_entity), small],
        Some(LevelItem::Tree) => vec![bullet, small],
        Some(LevelItem::IronWall) => vec![bullet, small],
        _ => Vec::new(),
    };
    assert(v@ =~= level_item_requests(*c));
    v
}

fn area_wall_effects(c: &BulletCollision) -> (v: Vec<CollisionEffect>)
    ensures
        v@ == area_wall_requests(*c),
{
    let v = if c.hits_area_wall {
        vec![
            CollisionEffect::Despawn(c.bullet_entity),
            CollisionEffect::Explode(
                ExplosionEvent {
                    site: ExplosionSite::Bullet(c.bullet_entity),
                    explosion_type: ExplosionType::BulletExplosion,
                },
            ),
        ]
    } else {
        Vec::new()
    };
    assert(v@ =~= area_wall_requests(*c));
    v
}

fn enemy_effects(c: &BulletCollision) -> (v: Vec<CollisionEffect>)
    ensures
        v@ == enemy_requests(*c),
{
    let v = if c.bullet == Bullet::Player && c.hits_enemy {
        vec![
            CollisionEffect::Despawn(c.bullet_entity),
            CollisionEffect::Despawn(c.other_entity),
            CollisionEffect::Explode(
                ExplosionEvent {
                    site: ExplosionSite::Enemy(c.other_entity),
                    explosion_type: ExplosionType::BigExplosion,
                },
            ),
        ]
    } else {
        Vec::new()
    };
    assert(v@ =~= enemy_requests(*c));
    v
}

fn is_lost(lives: &PlayerLives, mode: MultiplayerMode) -> (lost: bool)
    ensures
        lost == game_lost(*lives, mode),
{
    (lives.player1 <= 0 && lives.player2 <= 0) || (lives.player1 <= 0 && mode
        == MultiplayerMode::SinglePlayer)
}

/// Applies a player hit to the lives and returns what it asks for.
fn player_effects(c: &BulletCollision, lives: &mut PlayerLives, mode: MultiplayerMode) -> (v: Vec<
    CollisionEffect,
>)
    requires
        hurts_player(*c) ==> can_lose_life(*old(lives), c.player->0.player_no),
    ensures
        v@ == player_requests(*c, *old(lives), mode),
        *final(lives) == lives_after_hit(*c, *old(lives)),
{
    let ghost before = *lives;
    if c.bullet == Bullet::Enemy && c.player.is_some() {
        let p = c.player.unwrap();
        {
            if p.has_shield {
                let v = vec![
                    CollisionEffect::Despawn(c.bullet_entity),
                    CollisionEffect::Explode(
                        ExplosionEvent {
                            site: ExplosionSite::Player(p.entity),
                            explosion_type: ExplosionType::BulletExplosion,
                        },
                    ),
                ];
                assert(v@ =~= player_requests(*c, before, mode));
                v
            } else {
                lives.lose_life(p.player_no);
                let mut v = vec![
                    CollisionEffect::Despawn(c.bullet_entity),
                    CollisionEffect::Despawn(p.entity),
                    CollisionEffect::Explode(
                        ExplosionEvent {
                            site: ExplosionSite::Player(p.entity),
                            explosion_type: ExplosionType::BigExplosion,
                        },
                    ),
                ];
                if is_lost(lives, mode) {
                    v.push(CollisionEffect::GameOver);
                }
                assert(v@ =~= player_requests(*c, before, mode));
                v
            }
        }
    } else {
        let v = Vec::new();
        assert(v@ =~= player_requests(*c, before, mode));
        v
    }
}

/// Carries out everything one collision asks for.
fn handle_one(
    c: &BulletCollision,
    lives: &mut PlayerLives,
    mode: MultiplayerMode,
    out: &mut Vec<CollisionEffect>,
    scheduled: &mut ScheduledDespawn,
    Ghost(prefix): Ghost<Seq<CollisionEffect>>,
    Ghost(start): Ghost<Set<u64>>,
)
    requires
        old(out)@ == carried_out(prefix, start),
        old(scheduled).0@ == start + despawn_targets(prefix),
        hurts_player(*c) ==> can_lose_life(*old(lives), c.player->0.player_no),
    ensures
        final(out)@ == carried_out(prefix + event_requests(*c, *old(lives), mode), start),
        final(scheduled).0@ == start + despawn_targets(
            prefix + event_requests(*c, *old(lives), mode),
        ),
        *final(lives) == lives_after_hit(*c, *old(lives)),
{
    let ghost before = *lives;
    let a = level_item_effects(c);
    let ghost r1 = prefix + a@;
    request_all(a, out, scheduled, Ghost(prefix), Ghost(start));
    let b = area_wall_effects(c);
    let ghost r2 = r1 + b@;
    request_all(b, out, scheduled, Ghost(r1), Ghost(start));
    let d = enemy_effects(c);
    let ghost r3 = r2 + d@;
    request_all(d, out, scheduled, Ghost(r2), Ghost(start));
    let e = player_effects(c, lives, mode);
    request_all(e, out, scheduled, Ghost(r3), Ghost(start));
    assert(r3 + e@ =~= prefix + event_requests(*c, before, mode));
}

} // verus!

verus! {

proof fn lemma_hits_fit_prefix(cs: Seq<BulletCollision>, lives: PlayerLives, i: int)
    requires
        hits_fit(cs, lives),
        0 <= i <= cs.len(),
    ensures
        hits_fit(cs.take(i), lives),
    decreases cs.len(),
{
    if i == cs.len() {
        assert(cs.take(i) =~= cs);
    } else {
        lemma_hits_fit_prefix(cs.drop_last(), lives, i);
        assert(cs.drop_last().take(i) =~= cs.take(i));
    }
}

/// Handles the bullet collisions of one frame, in order: destroys walls,
/// enemies and players, takes lives, raises explosions, the dying of the
/// home base and the end of the game, and despawns each entity at most once
/// through the schedule.
pub fn handle_bullet_collision(
    collisions: &Vec<BulletCollision>,
    lives: &mut PlayerLives,
    mode: MultiplayerMode,
    scheduled: &mut ScheduledDespawn,
) -> (effects: Vec<CollisionEffect>)
    requires
        hits_fit(collisions@, *old(lives)),
    ensures
        effects@ == carried_out(
            all_requests(collisions@, *old(lives), mode),
            old(scheduled).0@,
        ),
        *final(lives) == lives_after_all(collisions@, *old(lives)),
        final(scheduled).0@ == old(scheduled).0@ + despawn_targets(
            all_requests(collisions@, *old(lives), mode),
        ),
{
    let ghost start = scheduled.0@;
    let ghost lives0 = *lives;
    let mut effects: Vec<CollisionEffect> = Vec::new();
    let mut i: usize = 0;
    proof {
        assert(collisions@.take(0) =~= Seq::<BulletCollision>::empty());
        assert(despawn_targets(seq![]) =~= Set::<u64>::empty());
        assert(scheduled.0@ =~= start + Set::<u64>::empty());
    }
    while i < collisions.len()
        invariant
            i <= collisions.len(),
            hits_fit(collisions@, lives0),
            effects@ == carried_out(all_requests(collisions@.take(i as int), lives0, mode), start),
            scheduled.0@ == start + despawn_targets(
                all_requests(collisions@.take(i as int), lives0, mode),
            ),
            *lives == lives_after_all(collisions@.take(i as int), lives0),
        decreases collisions.len() - i,
    {
        let ghost done = collisions@.take(i as int);
        let ghost next = collisions@.take(i as int + 1);
        proof {
            lemma_hits_fit_prefix(collisions@, lives0, i as int + 1);
            assert(next.drop_last() =~= done);
            assert(next.last() == collisions@[i as int]);
        }
        handle_one(
            &collisions[i],
            lives,
            mode,
            &mut effects,
            scheduled,
            Ghost(all_requests(done, lives0, mode)),
            Ghost(start),
        );
        i = i + 1;
    }
    assert(collisions@.take(collisions.len() as int) =~= collisions@);
    effects
}

} // verus!

verus! {

/// Within a frame, bullet collisions despawn each entity at most once: a
/// carried out despawn names an entity that was not scheduled before, no
/// entity is despawned twice, and every requested entity that was not
/// scheduled is despawned.
pub proof fn lemma_collisions_despawn_at_most_once(
    reqs: Seq<CollisionEffect>,
    scheduled: Set<u64>,
)
    ensures
        forall|e: u64| #[trigger]
            carried_out(reqs, scheduled).contains(CollisionEffect::Despawn(e)) <==> (reqs.contains(
                CollisionEffect::Despawn(e),
            ) && !scheduled.contains(e)),
        forall|i: int, j: int|
            0 <= i < j < carried_out(reqs, scheduled).len() && (carried_out(
                reqs,
                scheduled,
            )[i] is Despawn) ==> #[trigger] carried_out(reqs, scheduled)[i] != #[trigger] carried_out(
                reqs,
                scheduled,
            )[j],
    decreases reqs.len(),
{
    if reqs.len() > 0 {
        let before = reqs.drop_last();
        let x = reqs.last();
        lemma_collisions_despawn_at_most_once(before, scheduled);
        let prev = carried_out(before, scheduled);
        let cur = carried_out(reqs, scheduled);
        assert(reqs =~= before.push(x));
        assert forall|y: CollisionEffect| #[trigger] reqs.contains(y) <==> (before.contains(y) || y
            == x) by {
            if reqs.contains(y) {
                let k = choose|k: int| 0 <= k < reqs.len() && reqs[k] == y;
                if k < before.len() {
                    assert(before[k] == y);
                }
            }
            if before.contains(y) {
                let k = choose|k: int| 0 <= k < before.len() && before[k] == y;
                assert(reqs[k] == y);
            }
            if y == x {
                assert(reqs[reqs.len() - 1] == y);
            }
        }
        if cur != prev {
            assert(cur == prev.push(x));
            assert forall|y: CollisionEffect| #[trigger] cur.contains(y) <==> (prev.contains(y) || y
                == x) by {
                if cur.contains(y) {
                    let k = choose|k: int| 0 <= k < cur.len() && cur[k] == y;
                    if k < prev.len() {
                        assert(prev[k] == y);
                    }
                }
                if prev.contains(y) {
                    let k = choose|k: int| 0 <= k < prev.len() && prev[k] == y;
                    assert(cur[k] == y);
                }
                if y == x {
                    assert(cur[prev.len() as int] == y);
                }
            }
            assert forall|i: int, j: int|
                0 <= i < j < cur.len() && (cur[i] is Despawn) implies #[trigger] cur[i]
                != #[trigger] cur[j] by {
                if j < prev.len() {
                    assert(prev[i] != prev[j]);
                } else {
                    assert(prev.contains(cur[i]));
                    if cur[i] == x {
                        let e = x->Despawn_0;
                        assert(despawn_targets(before).contains(e));
                    }
                }
            }
        }
    }
}

/// A player's bullet never costs a life and never ends the game.
pub proof fn lemma_player_bullet_spares_players(
    c: BulletCollision,
    lives: PlayerLives,
    mode: MultiplayerMode,
)
    requires
        c.bullet == Bullet::Player,
    ensures
        lives_after_hit(c, lives) == lives,
        !event_requests(c, lives, mode).contains(CollisionEffect::GameOver),
{
    lemma_game_over_only_from_lost_lives(c, lives, mode);
}

/// An enemy's bullet that hits nothing but an enemy tank does nothing.
pub proof fn lemma_enemy_bullet_spares_enemies(
    c: BulletCollision,
    lives: PlayerLives,
    mode: MultiplayerMode,
)
    requires
        c.bullet == Bullet::Enemy,
        c.level_item is None,
        !c.hits_area_wall,
        c.player is None,
    ensures
        event_requests(c, lives, mode) == Seq::<CollisionEffect>::empty(),
        lives_after_hit(c, lives) == lives,
{
    assert(event_requests(c, lives, mode) =~= Seq::<CollisionEffect>::empty());
}

/// A shield takes the hit of an enemy bullet: the player keeps its lives
/// and its tank, and the game goes on.
pub proof fn lemma_shield_absorbs_hit(c: BulletCollision, lives: PlayerLives, mode: MultiplayerMode)
    requires
        c.bullet == Bullet::Enemy,
        c.player is Some,
        c.player->0.has_shield,
        c.player->0.entity != c.bullet_entity,
    ensures
        lives_after_hit(c, lives) == lives,
        !player_requests(c, lives, mode).contains(CollisionEffect::Despawn(c.player->0.entity)),
        !event_requests(c, lives, mode).contains(CollisionEffect::GameOver),
{
    let r = player_requests(c, lives, mode);
    if r.contains(CollisionEffect::Despawn(c.player->0.entity)) {
        let k = choose|k: int| 0 <= k < r.len() && r[k] == CollisionEffect::Despawn(
            c.player->0.entity,
        );
        assert(k == 0 || k == 1);
    }
    lemma_game_over_only_from_lost_lives(c, lives, mode);
}

/// An enemy bullet that hits an unshielded player costs that player
/// exactly one life, leaves the other player's lives alone, and destroys
/// the tank in a big explosion.
pub proof fn lemma_hit_costs_one_life(c: BulletCollision, lives: PlayerLives, mode: MultiplayerMode)
    requires
        hurts_player(c),
        c.player->0.player_no.0 == 1 || c.player->0.player_no.0 == 2,
        can_lose_life(lives, c.player->0.player_no),
    ensures
        c.player->0.player_no.0 == 1 ==> lives_after_hit(c, lives).player1 == lives.player1 - 1
            && lives_after_hit(c, lives).player2 == lives.player2,
        c.player->0.player_no.0 == 2 ==> lives_after_hit(c, lives).player2 == lives.player2 - 1
            && lives_after_hit(c, lives).player1 == lives.player1,
        event_requests(c, lives, mode).contains(CollisionEffect::Despawn(c.player->0.entity)),
        event_requests(c, lives, mode).contains(
            explode(ExplosionSite::Player(c.player->0.entity), ExplosionType::BigExplosion),
        ),
{
    let p = player_requests(c, lives, mode);
    let before = level_item_requests(c) + area_wall_requests(c) + enemy_requests(c);
    let all = event_requests(c, lives, mode);
    assert(all == before + p);
    assert(p[1] == CollisionEffect::Despawn(c.player->0.entity));
    assert(p[2] == explode(ExplosionSite::Player(c.player->0.entity), ExplosionType::BigExplosion));
    assert(all[before.len() as int + 1] == p[1]);
    assert(all[before.len() as int + 2] == p[2]);
}

/// The game ends through a bullet exactly when an enemy bullet hits an
/// unshielded player and that leaves both players, or in single player
/// mode player 1, without lives.
pub proof fn lemma_game_over_only_from_lost_lives(
    c: BulletCollision,
    lives: PlayerLives,
    mode: MultiplayerMode,
)
    ensures
        event_requests(c, lives, mode).contains(CollisionEffect::GameOver) <==> (hurts_player(c)
            && game_lost(lives_after_hit(c, lives), mode)),
{
    let a = level_item_requests(c);
    let b = area_wall_requests(c);
    let d = enemy_requests(c);
    let p = player_requests(c, lives, mode);
    let all = event_requests(c, lives, mode);
    assert(all == a + b + d + p);
    let g = CollisionEffect::GameOver;
    assert(!a.contains(g));
    assert(!b.contains(g));
    assert(!d.contains(g));
    if all.contains(g) {
        let k = choose|k: int| 0 <= k < all.len() && all[k] == g;
        if k < a.len() {
            assert(a[k] == g);
        } else if k < a.len() + b.len() {
            assert(b[k - a.len()] == g);
        } else if k < a.len() + b.len() + d.len() {
            assert(d[k - a.len() - b.len()] == g);
        } else {
            assert(p[k - a.len() - b.len() - d.len()] == g);
            assert(hurts_player(c) && game_lost(lives_after_hit(c, lives), mode));
        }
    }
    if hurts_player(c) && game_lost(lives_after_hit(c, lives), mode) {
        assert(p[3] == g);
        assert(all[(a.len() + b.len() + d.len()) as int + 3] == g);
    }
}

/// Hitting the home base makes it blow up and start dying.
pub proof fn lemma_home_hit(c: BulletCollision, lives: PlayerLives, mode: MultiplayerMode)
    requires
        c.level_item == Some(LevelItem::Home),
    ensures
        event_requests(c, lives, mode).contains(CollisionEffect::HomeDying),
        event_requests(c, lives, mode).contains(
            explode(ExplosionSite::LevelItem(c.other_entity), ExplosionType::BigExplosion),
        ),
{
    let all = event_requests(c, lives, mode);
    assert(all[1] == explode(ExplosionSite::LevelItem(c.other_entity), ExplosionType::BigExplosion));
    assert(all[2] == CollisionEffect::HomeDying);
}

/// A bullet destroys a stone wall it hits; an iron wall it hits stands.
pub proof fn lemma_walls(c: BulletCollision, lives: PlayerLives, mode: MultiplayerMode)
    requires
        c.other_entity != c.bullet_entity,
        !(c.bullet == Bullet::Player && c.hits_enemy),
        c.player is None,
    ensures
        c.level_item == Some(LevelItem::StoneWall) ==> event_requests(c, lives, mode).contains(
            CollisionEffect::Despawn(c.other_entity),
        ),
        c.level_item == Some(LevelItem::IronWall) ==> !event_requests(c, lives, mode).contains(
            CollisionEffect::Despawn(c.other_entity),
        ),
{
    let all = event_requests(c, lives, mode);
    let x = CollisionEffect::Despawn(c.other_entity);
    if c.level_item == Some(LevelItem::StoneWall) {
        assert(all[1] == x);
    }
    if c.level_item == Some(LevelItem::IronWall) && all.contains(x) {
        let k = choose|k: int| 0 <= k < all.len() && all[k] == x;
        assert(all =~= level_item_requests(c) + area_wall_requests(c));
    }
}

/// A tree gives cover: a bullet that hits it stops there in a small
/// explosion, and the tree stays.
pub proof fn lemma_tree_stops_bullet(c: BulletCollision, lives: PlayerLives, mode: MultiplayerMode)
    requires
        c.level_item == Some(LevelItem::Tree),
        c.other_entity != c.bullet_entity,
        !(c.bullet == Bullet::Player && c.hits_enemy),
        c.player is None,
    ensures
        event_requests(c, lives, mode).contains(CollisionEffect::Despawn(c.bullet_entity)),
        event_requests(c, lives, mode).contains(
            CollisionEffect::Explode(
                ExplosionEvent {
                    site: ExplosionSite::Bullet(c.bullet_entity),
                    explosion_type: ExplosionType::BulletExplosion,
                },
            ),
        ),
        !event_requests(c, lives, mode).contains(CollisionEffect::Despawn(c.other_entity)),
{
    let all = event_requests(c, lives, mode);
    let x = CollisionEffect::Despawn(c.other_entity);
    assert(all[0] == CollisionEffect::Despawn(c.bullet_entity));
    assert(all[1] == CollisionEffect::Explode(
        ExplosionEvent {
            site: ExplosionSite::Bullet(c.bullet_entity),
            explosion_type: ExplosionType::BulletExplosion,
        },
    ));
    if all.contains(x) {
        let k = choose|k: int| 0 <= k < all.len() && all[k] == x;
        assert(all =~= level_item_requests(c) + area_wall_requests(c));
    }
}

/// What a bullet does to the level: it passes over water and empty
/// ground; it stops at a tree or an iron wall, which stay, in a small
/// explosion; it destroys a stone wall together with itself in a small
/// explosion; and it blows up the home base, which starts dying. A wall
/// around the play area stops it like an iron wall, and a player's bullet
/// destroys the enemy it hits in a big explosion.
pub proof fn lemma_bullet_outcomes(c: BulletCollision, lives: PlayerLives, mode: MultiplayerMode)
    requires
        c.player is None,
    ensures
        !c.hits_area_wall && !(c.bullet == Bullet::Player && c.hits_enemy) ==> {
            let r = event_requests(c, lives, mode);
            let stop = CollisionEffect::Despawn(c.bullet_entity);
            let small = CollisionEffect::Explode(
                ExplosionEvent {
                    site: ExplosionSite::Bullet(c.bullet_entity),
                    explosion_type: ExplosionType::BulletExplosion,
                },
            );
            &&& (c.level_item is None || c.level_item == Some(LevelItem::Empty) || c.level_item
                == Some(LevelItem::Water)) ==> r.len() == 0
            &&& (c.level_item == Some(LevelItem::Tree) || c.level_item == Some(
                LevelItem::IronWall,
            )) ==> r == seq![stop, small]
            &&& c.level_item == Some(LevelItem::StoneWall) ==> r == seq![
                stop,
                CollisionEffect::Despawn(c.other_entity),
                small,
            ]
            &&& c.level_item == Some(LevelItem::Home) ==> r == seq![
                stop,
                CollisionEffect::Explode(
                    ExplosionEvent {
                        site: ExplosionSite::LevelItem(c.other_entity),
                        explosion_type: ExplosionType::BigExplosion,
                    },
                ),
                CollisionEffect::HomeDying,
            ]
        },
        c.level_item is None && c.hits_area_wall && !(c.bullet == Bullet::Player && c.hits_enemy)
            ==> event_requests(c, lives, mode) == seq![
            CollisionEffect::Despawn(c.bullet_entity),
            CollisionEffect::Explode(
                ExplosionEvent {
                    site: ExplosionSite::Bullet(c.bullet_entity),
                    explosion_type: ExplosionType::BulletExplosion,
                },
            ),
        ],
        c.level_item is None && !c.hits_area_wall && c.bullet == Bullet::Player && c.hits_enemy
            ==> event_requests(c, lives, mode) == seq![
            CollisionEffect::Despawn(c.bullet_entity),
            CollisionEffect::Despawn(c.other_entity),
            CollisionEffect::Explode(
                ExplosionEvent {
                    site: ExplosionSite::Enemy(c.other_entity),
                    explosion_type: ExplosionType::BigExplosion,
                },
            ),
        ],
{
    let r = event_requests(c, lives, mode);
    assert(player_requests(c, lives, mode) =~= seq![]);
    if !c.hits_area_wall && !(c.bullet == Bullet::Player && c.hits_enemy) {
        assert(r =~= level_item_requests(c));
    }
    if c.level_item is None {
        assert(r =~= area_wall_requests(c) + enemy_requests(c));
    }
}

/// Whatever a bullet's collision does, it consumes the bullet first.
pub proof fn lemma_bullet_consumed(c: BulletCollision, lives: PlayerLives, mode: MultiplayerMode)
    ensures
        event_requests(c, lives, mode).len() > 0 ==> event_requests(c, lives, mode)[0]
            == CollisionEffect::Despawn(c.bullet_entity),
{
    let a = level_item_requests(c);
    let b = area_wall_requests(c);
    let d = enemy_requests(c);
    let p = player_requests(c, lives, mode);
    assert(event_requests(c, lives, mode) == a + b + d + p);
    if a.len() == 0 && b.len() == 0 && d.len() == 0 {
        assert(event_requests(c, lives, mode) =~= p);
    } else if a.len() == 0 && b.len() == 0 {
        assert((a + b + d + p)[0] == d[0]);
    } else if a.len() == 0 {
        assert((a + b + d + p)[0] == b[0]);
    }
}

/// Over a frame of collisions no player gains a life.
pub proof fn lemma_lives_never_grow(cs: Seq<BulletCollision>, lives: PlayerLives)
    requires
        hits_fit(cs, lives),
    ensures
        lives_after_all(cs, lives).player1 <= lives.player1,
        lives_after_all(cs, lives).player2 <= lives.player2,
    decreases cs.len(),
{
    if cs.len() > 0 {
        lemma_lives_never_grow(cs.drop_last(), lives);
    }
}

} // verus!

verus! {

/// The bullet sprite frame for a direction: up, right, down, left are
/// frames 0 to 3.
pub fn bullet_sprite_index(direction: Direction) -> (index: usize)
    ensures
        index == (match direction {
            Direction::Up => 0usize,
            Direction::Right => 1usize,
            Direction::Down => 2usize,
            Direction::Left => 3usize,
        }),
{
    match direction {
        Direction::Up => 0,
        Direction::Right => 1,
        Direction::Down => 2,
        Direction::Left => 3,
    }
}

/// Animation frames of an explosion: a big explosion has five frames, a
/// bullet explosion three.
pub fn explosion_animation_indices(explosion_type: ExplosionType) -> (indices: AnimationIndices)
    ensures
        indices.first == 0,
        explosion_type == ExplosionType::BigExplosion ==> indices.last == 4,
        explosion_type == ExplosionType::BulletExplosion ==> indices.last == 2,
{
    AnimationIndices {
        first: 0,
        last: if explosion_type == ExplosionType::BigExplosion {
            4
        } else {
            2
        },
    }
}

/// One tick of an explosion: it shows the next frame, and once it has run
/// past its last frame it is despawned (once).
pub fn animate_explosion(
    entity: u64,
    current: usize,
    indices: AnimationIndices,
    scheduled: &mut ScheduledDespawn,
) -> (step: (usize, bool))
    requires
        current < usize::MAX,
    ensures
        step.0 == current + 1,
        step.1 == (step.0 > indices.last && !old(scheduled).0@.contains(entity)),
        final(scheduled).0@ == (if step.0 > indices.last {
            old(scheduled).0@.insert(entity)
        } else {
            old(scheduled).0@
        }),
{
    let next = current + 1;
    let despawn = if next > indices.last {
        scheduled.schedule(entity)
    } else {
        false
    };
    (next, despawn)
}

} // verus!
