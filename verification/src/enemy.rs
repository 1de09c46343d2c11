//! Enemy tanks: spawn limits, sprite colors and directions, and the choice
//! of a new direction.
use rand::Rng;
use vstd::prelude::*;

use crate::common::{AnimationIndices, Direction};
use crate::config::EnemyConfig;

verus! {

/// Calls `rand::thread_rng().gen_range(0..n)`. rand documents that
/// `gen_range` over an exclusive range returns a value inside it and
/// panics when the range is empty; so `n` must be positive and the result
/// lies below `n`. Which value comes back is chance; nothing more is stated.
#[verifier::external_body]
fn random_below(n: usize) -> (r: usize)
    requires
        n > 0,
    ensures
        r < n,
{
    rand::thread_rng().gen_range(0..n)
}

/// Number of enemies spawned in the current level.
#[derive(Debug, Clone, Copy, PartialEq, Eq, Structural)]
pub struct LevelSpawnedEnemies(pub i32);

impl Default for LevelSpawnedEnemies {
    fn default() -> (s: Self)
        ensures
            s.0 == 0,
    {
        LevelSpawnedEnemies(0)
    }
}

impl LevelSpawnedEnemies {
    /// Counts one more spawned enemy.
    pub fn record_spawn(&mut self)
        requires
            old(self).0 < i32::MAX,
        ensures
            final(self).0 == old(self).0 + 1,
    {
        self.0 = self.0 + 1;
    }
}

/// Starts the count of spawned enemies over.
pub fn reset_level_spawned_enemies(level_spawned_enemies: &mut LevelSpawnedEnemies)
    ensures
        final(level_spawned_enemies).0 == 0,
{
    level_spawned_enemies.0 = 0;
}

/// Another enemy may enter: fewer than the maximum are alive, and fewer
/// than the level's share have been spawned.
pub open spec fn enemy_may_spawn(
    alive: usize,
    spawned: LevelSpawnedEnemies,
    config: EnemyConfig,
) -> bool {
    !(alive >= config.max_live_enemies as usize) && !(spawned.0 >= config.enemies_per_level)
}

/// Decides whether an enemy spawns this frame and at which of `markers`
/// spawn markers, chosen at random; none when the limits forbid it or
/// there is no marker. The caller still cancels the spawn when the marker
/// is too close to a tank, and counts it otherwise.
pub fn auto_spawn_enemies(
    alive: usize,
    spawned: &LevelSpawnedEnemies,
    config: &EnemyConfig,
    markers: usize,
) -> (marker: Option<usize>)
    ensures
        marker is Some <==> (enemy_may_spawn(alive, *spawned, *config) && markers > 0),
        marker matches Some(m) ==> m < markers,
{
    if alive >= config.max_live_enemies as usize {
        return None;
    }
    if spawned.0 >= config.enemies_per_level {
        return None;
    }
    if markers == 0 {
        return None;
    }
    Some(random_below(markers))
}

/// The enemy sprite sheet, one set per tank color: the up, right, down and
/// left frames, then their second animation frames.
pub open spec fn sprite_sets() -> Seq<Seq<i32>> {
    seq![
        seq![0i32, 8, 16, 24, 1, 9, 17, 25],
        seq![2i32, 10, 18, 26, 3, 11, 19, 27],
        seq![4i32, 12, 20, 28, 5, 13, 21, 29],
        seq![6i32, 14, 22, 30, 7, 15, 23, 31],
        seq![32i32, 40, 48, 56, 33, 41, 49, 57],
        seq![34i32, 42, 50, 58, 35, 43, 51, 59],
        seq![36i32, 44, 52, 60, 37, 45, 53, 61],
        seq![38i32, 46, 54, 62, 39, 47, 55, 63],
    ]
}

/// The enemy sprite frame sets, one per tank color.
pub fn enemies_sprite_index_sets() -> (sets: Vec<Vec<i32>>)
    ensures
        sets@.len() == 8,
        forall|k: int| 0 <= k < 8 ==> #[trigger] sets@[k]@ == sprite_sets()[k],
{
    let sets = vec![
        vec![0, 8, 16, 24, 1, 9, 17, 25],
        vec![2, 10, 18, 26, 3, 11, 19, 27],
        vec![4, 12, 20, 28, 5, 13, 21, 29],
        vec![6, 14, 22, 30, 7, 15, 23, 31],
        vec![32, 40, 48, 56, 33, 41, 49, 57],
        vec![34, 42, 50, 58, 35, 43, 51, 59],
        vec![36, 44, 52, 60, 37, 45, 53, 61],
        vec![38, 46, 54, 62, 39, 47, 55, 63],
    ];
    assert forall|k: int| 0 <= k < 8 implies #[trigger] sets@[k]@ == sprite_sets()[k] by {
        assert(sets@[0]@ =~= sprite_sets()[0]);
        assert(sets@[1]@ =~= sprite_sets()[1]);
        assert(sets@[2]@ =~= sprite_sets()[2]);
        assert(sets@[3]@ =~= sprite_sets()[3]);
        assert(sets@[4]@ =~= sprite_sets()[4]);
        assert(sets@[5]@ =~= sprite_sets()[5]);
        assert(sets@[6]@ =~= sprite_sets()[6]);
        assert(sets@[7]@ =~= sprite_sets()[7]);
    }
    sets
}

/// Position of a direction's frame within a sprite set.
pub open spec fn direction_slot(direction: Direction) -> int {
    match direction {
        Direction::Up => 0,
        Direction::Right => 1,
        Direction::Down => 2,
        Direction::Left => 3,
    }
}

/// The first sprite set, from `k` on, that holds `index`; 8 when none does.
pub open spec fn set_holding(index: i32, k: int) -> int
    decreases 8 - k,
{
    if k >= 8 {
        8
    } else if sprite_sets()[k].contains(index) {
        k
    } else {
        set_holding(index, k + 1)
    }
}

/// The frame of the same color as `index` facing `direction`; 0 when
/// `index` is no enemy frame.
pub open spec fn turned_sprite(index: i32, direction: Direction) -> i32 {
    let k = set_holding(index, 0);
    if k < 8 {
        sprite_sets()[k][direction_slot(direction)]
    } else {
        0
    }
}

fn holds(set: &Vec<i32>, index: i32) -> (found: bool)
    ensures
        found == set@.contains(index),
{
    let mut i: usize = 0;
    while i < set.len()
        invariant
            i <= set.len(),
            forall|j: int| 0 <= j < i ==> set@[j] != index,
        decreases set.len() - i,
    {
        if set[i] == index {
            assert(set@[i as int] == index);
            return true;
        }
        i = i + 1;
    }
    false
}

/// The sprite frame of the same tank color as `current_index` that faces
/// `direction`; 0 when `current_index` is no enemy frame.
pub fn new_sprite_index(current_index: i32, direction: Direction) -> (index: i32)
    ensures
        index == turned_sprite(current_index, direction),
{
    let index_sets = enemies_sprite_index_sets();
    let mut k: usize = 0;
    while k < index_sets.len()
        invariant
            index_sets@.len() == 8,
            forall|m: int| 0 <= m < 8 ==> #[trigger] index_sets@[m]@ == sprite_sets()[m],
            k <= 8,
            set_holding(current_index, 0) == set_holding(current_index, k as int),
        decreases 8 - k,
    {
        let index_set = &index_sets[k];
        if holds(index_set, current_index) {
            assert(index_set@ == sprite_sets()[k as int]);
            return match direction {
                Direction::Up => index_set[0],
                Direction::Right => index_set[1],
                Direction::Down => index_set[2],
                Direction::Left => index_set[3],
            };
        }
        k = k + 1;
    }
    0
}

} // verus!

verus! {

/// The directions in which an enemy tank has room to drive.
#[derive(Debug, Clone, Copy, PartialEq, Eq, Structural)]
pub struct Openings {
    pub up: bool,
    pub down: bool,
    pub left: bool,
    pub right: bool,
}

pub open spec fn is_open(open: Openings, direction: Direction) -> bool {
    match direction {
        Direction::Up => open.up,
        Direction::Down => open.down,
        Direction::Left => open.left,
        Direction::Right => open.right,
    }
}

/// An enemy picks its direction with a roll of 0 to 8, weighted toward
/// the player's base: 0 goes up, 1 and 2 left, 3 and 4 right, 5 to 8 down.
pub open spec fn roll_direction(roll: int) -> Direction {
    if roll == 0 {
        Direction::Up
    } else if roll <= 2 {
        Direction::Left
    } else if roll <= 4 {
        Direction::Right
    } else {
        Direction::Down
    }
}

/// The rolls below `n` whose direction is open, in increasing order.
pub open spec fn open_rolls(open: Openings, n: int) -> Seq<u32>
    decreases n,
{
    if n <= 0 {
        seq![]
    } else if is_open(open, roll_direction(n - 1)) {
        open_rolls(open, n - 1).push((n - 1) as u32)
    } else {
        open_rolls(open, n - 1)
    }
}

/// The direction of a roll.
pub fn direction_for_roll(roll: u32) -> (direction: Direction)
    ensures
        direction == roll_direction(roll as int),
{
    if roll == 0 {
        Direction::Up
    } else if roll <= 2 {
        Direction::Left
    } else if roll <= 4 {
        Direction::Right
    } else {
        Direction::Down
    }
}

fn open_in(open: &Openings, direction: Direction) -> (b: bool)
    ensures
        b == is_open(*open, direction),
{
    match direction {
        Direction::Up => open.up,
        Direction::Down => open.down,
        Direction::Left => open.left,
        Direction::Right => open.right,
    }
}

/// The rolls of 0 to 8 that lead into an open direction, in order.
fn allowed_rolls(open: &Openings) -> (rolls: Vec<u32>)
    ensures
        rolls@ == open_rolls(*open, 9),
{
    let mut rolls: Vec<u32> = Vec::new();
    let mut roll: u32 = 0;
    while roll < 9
        invariant
            roll <= 9,
            rolls@ == open_rolls(*open, roll as int),
        decreases 9 - roll,
    {
        if open_in(open, direction_for_roll(roll)) {
            rolls.push(roll);
        }
        roll = roll + 1;
    }
    rolls
}

proof fn lemma_open_rolls_in_range(open: Openings, n: int)
    requires
        n <= 9,
    ensures
        forall|i: int| 0 <= i < open_rolls(open, n).len() ==> (#[trigger] open_rolls(open, n)[i]) < n
            && is_open(open, roll_direction(open_rolls(open, n)[i] as int)),
    decreases n,
{
    if n > 0 {
        lemma_open_rolls_in_range(open, n - 1);
        let prev = open_rolls(open, n - 1);
        let cur = open_rolls(open, n);
        assert forall|i: int| 0 <= i < cur.len() implies (#[trigger] cur[i]) < n && is_open(
            open,
            roll_direction(cur[i] as int),
        ) by {
            if i < prev.len() {
                assert(cur[i] == prev[i]);
            } else {
                assert(cur[i] == (n - 1) as u32);
            }
        }
    }
}

proof fn lemma_open_rolls_empty(open: Openings)
    ensures
        open_rolls(open, 9).len() == 0 <==> !(open.up || open.down || open.left || open.right),
{
    reveal_with_fuel(open_rolls, 10);
}

/// The direction that the `pick`-th open roll leads to; none when `pick`
/// is not below the number of open rolls.
pub fn enemy_turn_direction(open: &Openings, pick: usize) -> (direction: Option<Direction>)
    ensures
        direction == (if pick < open_rolls(*open, 9).len() {
            Some(roll_direction(open_rolls(*open, 9)[pick as int] as int))
        } else {
            None
        }),
{
    let rolls = allowed_rolls(open);
    if pick < rolls.len() {
        Some(direction_for_roll(rolls[pick]))
    } else {
        None
    }
}

/// The roll table weighs directions toward the player's base: of the rolls
/// 0 to 8, exactly roll 0 goes up, rolls 1 and 2 go left, 3 and 4 right,
/// and 5 to 8 down.
pub proof fn lemma_roll_weights(roll: int)
    requires
        0 <= roll < 9,
    ensures
        roll_direction(roll) == Direction::Up <==> roll == 0,
        roll_direction(roll) == Direction::Left <==> (roll == 1 || roll == 2),
        roll_direction(roll) == Direction::Right <==> (roll == 3 || roll == 4),
        roll_direction(roll) == Direction::Down <==> (5 <= roll && roll <= 8),
{
}

/// With every direction open, each roll of 0 to 8 stays in play: the
/// `pick`-th open roll is `pick` itself.
pub proof fn lemma_all_open_rolls(open: Openings)
    requires
        open.up && open.down && open.left && open.right,
    ensures
        open_rolls(open, 9).len() == 9,
        forall|pick: int| 0 <= pick < 9 ==> #[trigger] open_rolls(open, 9)[pick] == pick,
{
    reveal_with_fuel(open_rolls, 10);
    assert(open_rolls(open, 9) =~= seq![0u32, 1, 2, 3, 4, 5, 6, 7, 8]);
}

/// The rolls that stay in play are exactly those below 9 whose direction
/// is open, each once and in increasing order.
pub proof fn lemma_open_rolls_exact(open: Openings, roll: int)
    requires
        0 <= roll < 9,
    ensures
        open_rolls(open, 9).contains(roll as u32) <==> is_open(open, roll_direction(roll)),
        forall|i: int, j: int|
            0 <= i < j < open_rolls(open, 9).len() ==> #[trigger] open_rolls(open, 9)[i]
                < #[trigger] open_rolls(open, 9)[j],
{
    lemma_open_rolls_sorted(open, 9);
    lemma_open_rolls_in_range(open, 9);
    lemma_open_rolls_has(open, 9, roll);
}

proof fn lemma_open_rolls_sorted(open: Openings, n: int)
    requires
        n <= 9,
    ensures
        forall|i: int, j: int|
            0 <= i < j < open_rolls(open, n).len() ==> #[trigger] open_rolls(open, n)[i]
                < #[trigger] open_rolls(open, n)[j],
    decreases n,
{
    if n > 0 {
        lemma_open_rolls_sorted(open, n - 1);
        lemma_open_rolls_in_range(open, n - 1);
        let prev = open_rolls(open, n - 1);
        let cur = open_rolls(open, n);
        assert forall|i: int, j: int| 0 <= i < j < cur.len() implies #[trigger] cur[i]
            < #[trigger] cur[j] by {
            if j < prev.len() {
                assert(cur[i] == prev[i] && cur[j] == prev[j]);
            } else {
                assert(cur[i] == prev[i]);
                assert(prev[i] < n - 1);
            }
        }
    }
}

proof fn lemma_open_rolls_has(open: Openings, n: int, roll: int)
    requires
        0 <= roll < n <= 9,
    ensures
        open_rolls(open, n).contains(roll as u32) <==> is_open(open, roll_direction(roll)),
    decreases n,
{
    lemma_open_rolls_in_range(open, n);
    let cur = open_rolls(open, n);
    if roll < n - 1 {
        lemma_open_rolls_has(open, n - 1, roll);
        lemma_open_rolls_in_range(open, n - 1);
        let prev = open_rolls(open, n - 1);
        if prev.contains(roll as u32) {
            let k = choose|k: int| 0 <= k < prev.len() && prev[k] == roll as u32;
            assert(cur[k] == roll as u32);
        }
        if cur.contains(roll as u32) {
            let k = choose|k: int| 0 <= k < cur.len() && cur[k] == roll as u32;
            if k < prev.len() {
                assert(prev[k] == roll as u32);
            }
        }
    } else {
        if is_open(open, roll_direction(roll)) {
            assert(cur[cur.len() - 1] == roll as u32);
        }
        if cur.contains(roll as u32) {
            let k = choose|k: int| 0 <= k < cur.len() && cur[k] == roll as u32;
            assert(is_open(open, roll_direction(cur[k] as int)));
        }
    }
}

/// Picks a new direction for an enemy tank at random: a roll of 0 to 8 as
/// `roll_direction` weighs it, rolled again until it leads into an open
/// direction, which amounts to a uniform pick among the open rolls. None
/// when every direction is blocked.
pub fn choose_enemy_direction(open: &Openings) -> (direction: Option<Direction>)
    ensures
        direction is None <==> !(open.up || open.down || open.left || open.right),
        direction matches Some(d) ==> is_open(*open, d),
{
    proof {
        lemma_open_rolls_empty(*open);
        lemma_open_rolls_in_range(*open, 9);
    }
    let rolls = allowed_rolls(open);
    if rolls.len() == 0 {
        return None;
    }
    let pick = random_below(rolls.len());
    enemy_turn_direction(open, pick)
}

} // verus!

verus! {

/// Where a frame sits on the enemy sprite sheet: color `k` and slot `j`.
pub open spec fn sprite_layout(k: int, j: int) -> int {
    32 * (k / 4) + 2 * (k % 4) + 8 * (j % 4) + j / 4
}

proof fn lemma_sprite_sets_layout()
    ensures
        sprite_sets().len() == 8,
        forall|k: int| 0 <= k < 8 ==> (#[trigger] sprite_sets()[k]).len() == 8,
        forall|k: int, j: int|
            0 <= k < 8 && 0 <= j < 8 ==> #[trigger] sprite_sets()[k][j] == sprite_layout(k, j),
{
    let s = sprite_sets();
    assert(s[0].len() == 8);
    assert(s[0][0] == 0i32);
    assert(s[0][1] == 8i32);
    assert(s[0][2] == 16i32);
    assert(s[0][3] == 24i32);
    assert(s[0][4] == 1i32);
    assert(s[0][5] == 9i32);
    assert(s[0][6] == 17i32);
    assert(s[0][7] == 25i32);
    assert(s[1].len() == 8);
    assert(s[1][0] == 2i32);
    assert(s[1][1] == 10i32);
    assert(s[1][2] == 18i32);
    assert(s[1][3] == 26i32);
    assert(s[1][4] == 3i32);
    assert(s[1][5] == 11i32);
    assert(s[1][6] == 19i32);
    assert(s[1][7] == 27i32);
    assert(s[2].len() == 8);
    assert(s[2][0] == 4i32);
    assert(s[2][1] == 12i32);
    assert(s[2][2] == 20i32);
    assert(s[2][3] == 28i32);
    assert(s[2][4] == 5i32);
    assert(s[2][5] == 13i32);
    assert(s[2][6] == 21i32);
    assert(s[2][7] == 29i32);
    assert(s[3].len() == 8);
    assert(s[3][0] == 6i32);
    assert(s[3][1] == 14i32);
    assert(s[3][2] == 22i32);
    assert(s[3][3] == 30i32);
    assert(s[3][4] == 7i32);
    assert(s[3][5] == 15i32);
    assert(s[3][6] == 23i32);
    assert(s[3][7] == 31i32);
    assert(s[4].len() == 8);
    assert(s[4][0] == 32i32);
    assert(s[4][1] == 40i32);
    assert(s[4][2] == 48i32);
    assert(s[4][3] == 56i32);
    assert(s[4][4] == 33i32);
    assert(s[4][5] == 41i32);
    assert(s[4][6] == 49i32);
    assert(s[4][7] == 57i32);
    assert(s[5].len() == 8);
    assert(s[5][0] == 34i32);
    assert(s[5][1] == 42i32);
    assert(s[5][2] == 50i32);
    assert(s[5][3] == 58i32);
    assert(s[5][4] == 35i32);
    assert(s[5][5] == 43i32);
    assert(s[5][6] == 51i32);
    assert(s[5][7] == 59i32);
    assert(s[6].len() == 8);
    assert(s[6][0] == 36i32);
    assert(s[6][1] == 44i32);
    assert(s[6][2] == 52i32);
    assert(s[6][3] == 60i32);
    assert(s[6][4] == 37i32);
    assert(s[6][5] == 45i32);
    assert(s[6][6] == 53i32);
    assert(s[6][7] == 61i32);
    assert(s[7].len() == 8);
    assert(s[7][0] == 38i32);
    assert(s[7][1] == 46i32);
    assert(s[7][2] == 54i32);
    assert(s[7][3] == 62i32);
    assert(s[7][4] == 39i32);
    assert(s[7][5] == 47i32);
    assert(s[7][6] == 55i32);
    assert(s[7][7] == 63i32);
    assert forall|k: int, j: int| 0 <= k < 8 && 0 <= j < 8 implies #[trigger] s[k][j]
        == sprite_layout(k, j) by {
        if k == 0 {
            if j == 0 {
                assert(s[0][0] == sprite_layout(0, 0));
            } else if j == 1 {
                assert(s[0][1] == sprite_layout(0, 1));
            } else if j == 2 {
                assert(s[0][2] == sprite_layout(0, 2));
            } else if j == 3 {
                assert(s[0][3] == sprite_layout(0, 3));
            } else if j == 4 {
                assert(s[0][4] == sprite_layout(0, 4));
            } else if j == 5 {
                assert(s[0][5] == sprite_layout(0, 5));
            } else if j == 6 {
                assert(s[0][6] == sprite_layout(0, 6));
            } else if j == 7 {
                assert(s[0][7] == sprite_layout(0, 7));
            }
        } else if k == 1 {
            if j == 0 {
                assert(s[1][0] == sprite_layout(1, 0));
            } else if j == 1 {
                assert(s[1][1] == sprite_layout(1, 1));
            } else if j == 2 {
                assert(s[1][2] == sprite_layout(1, 2));
            } else if j == 3 {
                assert(s[1][3] == sprite_layout(1, 3));
            } else if j == 4 {
                assert(s[1][4] == sprite_layout(1, 4));
            } else if j == 5 {
                assert(s[1][5] == sprite_layout(1, 5));
            } else if j == 6 {
                assert(s[1][6] == sprite_layout(1, 6));
            } else if j == 7 {
                assert(s[1][7] == sprite_layout(1, 7));
            }
        } else if k == 2 {
            if j == 0 {
                assert(s[2][0] == sprite_layout(2, 0));
            } else if j == 1 {
                assert(s[2][1] == sprite_layout(2, 1));
            } else if j == 2 {
                assert(s[2][2] == sprite_layout(2, 2));
            } else if j == 3 {
                assert(s[2][3] == sprite_layout(2, 3));
            } else if j == 4 {
                assert(s[2][4] == sprite_layout(2, 4));
            } else if j == 5 {
                assert(s[2][5] == sprite_layout(2, 5));
            } else if j == 6 {
                assert(s[2][6] == sprite_layout(2, 6));
            } else if j == 7 {
                assert(s[2][7] == sprite_layout(2, 7));
            }
        } else if k == 3 {
            if j == 0 {
                assert(s[3][0] == sprite_layout(3, 0));
            } else if j == 1 {
                assert(s[3][1] == sprite_layout(3, 1));
            } else if j == 2 {
                assert(s[3][2] == sprite_layout(3, 2));
            } else if j == 3 {
                assert(s[3][3] == sprite_layout(3, 3));
            } else if j == 4 {
                assert(s[3][4] == sprite_layout(3, 4));
            } else if j == 5 {
                assert(s[3][5] == sprite_layout(3, 5));
            } else if j == 6 {
                assert(s[3][6] == sprite_layout(3, 6));
            } else if j == 7 {
                assert(s[3][7] == sprite_layout(3, 7));
            }
        } else if k == 4 {
            if j == 0 {
                assert(s[4][0] == sprite_layout(4, 0));
            } else if j == 1 {
                assert(s[4][1] == sprite_layout(4, 1));
            } else if j == 2 {
                assert(s[4][2] == sprite_layout(4, 2));
            } else if j == 3 {
                assert(s[4][3] == sprite_layout(4, 3));
            } else if j == 4 {
                assert(s[4][4] == sprite_layout(4, 4));
            } else if j == 5 {
                assert(s[4][5] == sprite_layout(4, 5));
            } else if j == 6 {
                assert(s[4][6] == sprite_layout(4, 6));
            } else if j == 7 {
                assert(s[4][7] == sprite_layout(4, 7));
            }
        } else if k == 5 {
            if j == 0 {
                assert(s[5][0] == sprite_layout(5, 0));
            } else if j == 1 {
                assert(s[5][1] == sprite_layout(5, 1));
            } else if j == 2 {
                assert(s[5][2] == sprite_layout(5, 2));
            } else if j == 3 {
                assert(s[5][3] == sprite_layout(5, 3));
            } else if j == 4 {
                assert(s[5][4] == sprite_layout(5, 4));
            } else if j == 5 {
                assert(s[5][5] == sprite_layout(5, 5));
            } else if j == 6 {
                assert(s[5][6] == sprite_layout(5, 6));
            } else if j == 7 {
                assert(s[5][7] == sprite_layout(5, 7));
            }
        } else if k == 6 {
            if j == 0 {
                assert(s[6][0] == sprite_layout(6, 0));
            } else if j == 1 {
                assert(s[6][1] == sprite_layout(6, 1));
            } else if j == 2 {
                assert(s[6][2] == sprite_layout(6, 2));
            } else if j == 3 {
                assert(s[6][3] == sprite_layout(6, 3));
            } else if j == 4 {
                assert(s[6][4] == sprite_layout(6, 4));
            } else if j == 5 {
                assert(s[6][5] == sprite_layout(6, 5));
            } else if j == 6 {
                assert(s[6][6] == sprite_layout(6, 6));
            } else if j == 7 {
                assert(s[6][7] == sprite_layout(6, 7));
            }
        } else if k == 7 {
            if j == 0 {
                assert(s[7][0] == sprite_layout(7, 0));
            } else if j == 1 {
                assert(s[7][1] == sprite_layout(7, 1));
            } else if j == 2 {
                assert(s[7][2] == sprite_layout(7, 2));
            } else if j == 3 {
                assert(s[7][3] == sprite_layout(7, 3));
            } else if j == 4 {
                assert(s[7][4] == sprite_layout(7, 4));
            } else if j == 5 {
                assert(s[7][5] == sprite_layout(7, 5));
            } else if j == 6 {
                assert(s[7][6] == sprite_layout(7, 6));
            } else if j == 7 {
                assert(s[7][7] == sprite_layout(7, 7));
            }
        }
    }
    assert forall|k: int| 0 <= k < 8 implies (#[trigger] s[k]).len() == 8 by {
        if k == 0 {
        } else if k == 1 {
        } else if k == 2 {
        } else if k == 3 {
        } else if k == 4 {
        } else if k == 5 {
        } else if k == 6 {
        } else {
        }
    }
}

} // verus!

verus! {

proof fn lemma_layout_injective(k1: int, j1: int, k2: int, j2: int)
    requires
        0 <= k1 < 8,
        0 <= j1 < 8,
        0 <= k2 < 8,
        0 <= j2 < 8,
        sprite_layout(k1, j1) == sprite_layout(k2, j2),
    ensures
        k1 == k2,
        j1 == j2,
{
    let v = sprite_layout(k1, j1);
    assert(v / 32 == k1 / 4 && v / 32 == k2 / 4);
    assert(v % 8 == 2 * (k1 % 4) + j1 / 4);
    assert(v % 8 == 2 * (k2 % 4) + j2 / 4);
    assert((v % 32) / 8 == j1 % 4);
    assert((v % 32) / 8 == j2 % 4);
}

proof fn lemma_layout_range(k: int, j: int)
    requires
        0 <= k < 8,
        0 <= j < 8,
    ensures
        0 <= sprite_layout(k, j) <= 63,
{
}

proof fn lemma_set_holding(k: int, j: int)
    requires
        0 <= k < 8,
        0 <= j < 8,
    ensures
        set_holding(sprite_sets()[k][j], 0) == k,
{
    lemma_sprite_sets_layout();
    let index = sprite_sets()[k][j];
    assert(sprite_sets()[k].contains(index));
    assert forall|m: int| 0 <= m < k implies !(#[trigger] sprite_sets()[m]).contains(index) by {
        if sprite_sets()[m].contains(index) {
            let jm = choose|jm: int| 0 <= jm < sprite_sets()[m].len() && sprite_sets()[m][jm]
                == index;
            lemma_layout_injective(m, jm, k, j);
        }
    }
    lemma_set_holding_from(index, k, 0);
}

proof fn lemma_set_holding_from(index: i32, k: int, m: int)
    requires
        0 <= m <= k < 8,
        sprite_sets()[k].contains(index),
        forall|n: int| 0 <= n < k ==> !(#[trigger] sprite_sets()[n]).contains(index),
    ensures
        set_holding(index, m) == k,
    decreases k - m,
{
    if m < k {
        lemma_set_holding_from(index, k, m + 1);
    }
}

proof fn lemma_set_holding_none(index: i32, m: int)
    requires
        0 <= m <= 8,
        index < 0 || index > 63,
    ensures
        set_holding(index, m) == 8,
    decreases 8 - m,
{
    lemma_sprite_sets_layout();
    if m < 8 {
        if sprite_sets()[m].contains(index) {
            let j = choose|j: int| 0 <= j < sprite_sets()[m].len() && sprite_sets()[m][j] == index;
            lemma_layout_range(m, j);
        }
        lemma_set_holding_none(index, m + 1);
    }
}

/// An enemy keeps its color when it turns: the frame of color `k` turned
/// to face `direction` is that color's frame for the direction.
pub proof fn lemma_turn_keeps_color(k: int, j: int, direction: Direction)
    requires
        0 <= k < 8,
        0 <= j < 8,
    ensures
        turned_sprite(sprite_sets()[k][j], direction) == sprite_sets()[k][direction_slot(
            direction,
        )],
{
    lemma_set_holding(k, j);
}

/// Turning twice is turning once: only the last direction counts, and the
/// color stays.
pub proof fn lemma_turn_twice(k: int, j: int, first: Direction, second: Direction)
    requires
        0 <= k < 8,
        0 <= j < 8,
    ensures
        turned_sprite(turned_sprite(sprite_sets()[k][j], first), second) == turned_sprite(
            sprite_sets()[k][j],
            second,
        ),
{
    lemma_set_holding(k, j);
    lemma_set_holding(k, direction_slot(first));
}

/// The second animation frame of a turned enemy, one past the first, is
/// of the same color and faces the same way.
pub proof fn lemma_turned_frame_pair(k: int, j: int, direction: Direction)
    requires
        0 <= k < 8,
        0 <= j < 8,
    ensures
        turned_sprite(sprite_sets()[k][j], direction) + 1 == sprite_sets()[k][direction_slot(
            direction,
        ) + 4],
{
    lemma_sprite_sets_layout();
    lemma_set_holding(k, j);
}

/// A frame that is not on the enemy sprite sheet turns to frame 0.
pub proof fn lemma_unknown_frame_turns_to_zero(index: i32, direction: Direction)
    requires
        index < 0 || index > 63,
    ensures
        turned_sprite(index, direction) == 0,
{
    lemma_set_holding_none(index, 0);
}

proof fn lemma_turned_range(index: i32, direction: Direction)
    ensures
        0 <= turned_sprite(index, direction) <= 63,
{
    lemma_sprite_sets_layout();
    let k = set_holding(index, 0);
    lemma_set_holding_bound(index, 0);
    if k < 8 {
        lemma_layout_range(k, direction_slot(direction));
    }
}

proof fn lemma_set_holding_bound(index: i32, m: int)
    requires
        0 <= m,
    ensures
        m <= set_holding(index, m) <= 8 || m > 8,
    decreases 8 - m,
{
    if m < 8 {
        lemma_set_holding_bound(index, m + 1);
    }
}

/// Turns an enemy tank: the frames of its color that face `direction`.
pub fn turn_enemy(sprite_index: usize, direction: Direction) -> (indices: AnimationIndices)
    ensures
        indices.first == turned_sprite(sprite_index as i32, direction) as usize,
        indices.last == indices.first + 1,
{
    let new_index = new_sprite_index(sprite_index as i32, direction);
    proof {
        lemma_turned_range(sprite_index as i32, direction);
    }
    let first = new_index as usize;
    AnimationIndices { first, last: first + 1 }
}

/// The up-facing frame of tank color `color`.
pub fn color_sprite_index(color: usize) -> (index: i32)
    requires
        color < 8,
    ensures
        index == sprite_sets()[color as int][0],
{
    let sets = enemies_sprite_index_sets();
    let set = &sets[color];
    assert(set@ == sprite_sets()[color as int]);
    set[0]
}

/// The frames of a new enemy: a tank color chosen at random, facing up.
pub fn choose_enemy_sprite() -> (indices: AnimationIndices)
    ensures
        exists|k: int| 0 <= k < 8 && indices.first == sprite_sets()[k][0],
        indices.last == indices.first + 1,
{
    let color = random_below(8);
    let index = color_sprite_index(color);
    proof {
        lemma_sprite_sets_layout();
        lemma_layout_range(color as int, 0);
    }
    let first = index as usize;
    AnimationIndices { first, last: first + 1 }
}

} // verus!

verus! {

/// Enemies keep coming while fewer than the maximum are alive and fewer
/// than the level's share have been spawned; at either limit none comes.
pub proof fn lemma_enemy_spawn_limits(
    alive: usize,
    spawned: LevelSpawnedEnemies,
    config: EnemyConfig,
)
    requires
        config.max_live_enemies >= 0,
    ensures
        enemy_may_spawn(alive, spawned, config) <==> (alive < config.max_live_enemies
            && spawned.0 < config.enemies_per_level),
{
}

} // verus!
