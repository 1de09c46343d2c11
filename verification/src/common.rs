//! Types shared by all game systems: states, directions, sprite sheet
//! animation stepping and the per-frame despawn schedule.
use std::collections::HashSet;
use vstd::prelude::*;

verus! {

broadcast use vstd::std_specs::hash::group_hash_axioms;

/// Application states for game flow management.
#[derive(Debug, Clone, Copy, PartialEq, Eq, Structural, Hash)]
pub enum AppState {
    /// Initial menu screen where players can start the game
    StartMenu,
    /// Main gameplay state
    Playing,
    /// Paused state (can be resumed)
    Paused,
    /// Game over state
    GameOver,
    /// Every level has been cleared
    Victory,
}

impl Default for AppState {
    fn default() -> (s: Self)
        ensures
            s == AppState::StartMenu,
    {
        AppState::StartMenu
    }
}

/// Multiplayer mode configuration.
#[derive(Debug, Clone, Copy, PartialEq, Eq, Structural, Hash)]
pub enum MultiplayerMode {
    /// Single player mode
    SinglePlayer,
    /// Two players mode
    TwoPlayers,
}

/// Movement and orientation of tanks and bullets.
#[derive(Debug, Clone, Copy, PartialEq, Eq, Structural, Hash)]
pub enum Direction {
    /// Left direction
    Left,
    /// Right direction
    Right,
    /// Up direction
    Up,
    /// Down direction
    Down,
}

/// First and last frame of a sprite sheet animation.
#[derive(Debug, Clone, Copy, PartialEq, Eq, Structural)]
pub struct AnimationIndices {
    /// First frame index in the animation sequence
    pub first: usize,
    /// Last frame index in the animation sequence
    pub last: usize,
}

/// The frame shown after `current`: the next one, or `first` again after `last`.
pub open spec fn next_frame(current: usize, indices: AnimationIndices) -> usize {
    if current == indices.last {
        indices.first
    } else {
        (current + 1) as usize
    }
}

/// The frame shown `steps` animation ticks after `current`.
pub open spec fn frame_after(current: usize, indices: AnimationIndices, steps: nat) -> usize
    decreases steps,
{
    if steps == 0 {
        current
    } else {
        next_frame(frame_after(current, indices, (steps - 1) as nat), indices)
    }
}

/// One tick of a looping sprite sheet animation: the frame that follows
/// `current`, wrapping from `last` back to `first`.
pub fn animate_sprite_sheet(current: usize, indices: AnimationIndices) -> (next: usize)
    requires
        current == indices.last || current < usize::MAX,
    ensures
        next == next_frame(current, indices),
{
    if current == indices.last {
        indices.first
    } else {
        current + 1
    }
}

proof fn lemma_frame_after_add(current: usize, indices: AnimationIndices, a: nat, b: nat)
    ensures
        frame_after(current, indices, a + b) == frame_after(
            frame_after(current, indices, a),
            indices,
            b,
        ),
    decreases b,
{
    if b > 0 {
        lemma_frame_after_add(current, indices, a, (b - 1) as nat);
        assert(frame_after(current, indices, a + b) == next_frame(
            frame_after(current, indices, (a + b - 1) as nat),
            indices,
        ));
    }
}

proof fn lemma_frame_climbs(current: usize, indices: AnimationIndices, steps: nat)
    requires
        indices.first <= current <= indices.last,
        current + steps <= indices.last,
    ensures
        frame_after(current, indices, steps) == current + steps,
    decreases steps,
{
    if steps > 0 {
        lemma_frame_climbs(current, indices, (steps - 1) as nat);
    }
}

/// A looping animation never leaves its range: started on a frame between
/// `first` and `last`, every later frame lies between them too.
pub proof fn lemma_animation_stays_in_range(
    current: usize,
    indices: AnimationIndices,
    steps: nat,
)
    requires
        indices.first <= current <= indices.last,
    ensures
        indices.first <= frame_after(current, indices, steps) <= indices.last,
    decreases steps,
{
    if steps > 0 {
        lemma_animation_stays_in_range(current, indices, (steps - 1) as nat);
    }
}

/// A looping animation is periodic: from any frame of its range it comes
/// back to that frame after exactly `last - first + 1` ticks.
pub proof fn lemma_animation_cycle(current: usize, indices: AnimationIndices)
    requires
        indices.first <= current <= indices.last,
    ensures
        frame_after(current, indices, (indices.last - indices.first + 1) as nat) == current,
{
    let up: nat = (indices.last - current) as nat;
    let back: nat = (current - indices.first) as nat;
    lemma_frame_climbs(current, indices, up);
    assert(frame_after(current, indices, up + 1) == indices.first);
    lemma_frame_climbs(indices.first, indices, back);
    lemma_frame_after_add(current, indices, up + 1, back);
    assert((up + 1 + back) as nat == (indices.last - indices.first + 1) as nat);
}

/// Which of the two entities of a collision event is the one looked for.
#[derive(Debug, Clone, Copy, PartialEq, Eq, Structural)]
pub enum Side {
    First,
    Second,
}

/// Picks the entity of a collision pair that matches: the first if it does,
/// else the second if it does, else none.
pub fn pick_side(first_matches: bool, second_matches: bool) -> (side: Option<Side>)
    ensures
        side == (if first_matches {
            Some(Side::First)
        } else if second_matches {
            Some(Side::Second)
        } else {
            None
        }),
{
    if first_matches {
        Some(Side::First)
    } else if second_matches {
        Some(Side::Second)
    } else {
        None
    }
}

/// The entities of `entities`, in order, that are neither in `scheduled`
/// nor earlier in `entities`: those that a pass over `entities` despawns.
pub open spec fn newly_scheduled(entities: Seq<u64>, scheduled: Set<u64>) -> Seq<u64>
    decreases entities.len(),
{
    if entities.len() == 0 {
        Seq::empty()
    } else {
        let before = entities.drop_last();
        let e = entities.last();
        if scheduled.contains(e) || before.contains(e) {
            newly_scheduled(before, scheduled)
        } else {
            newly_scheduled(before, scheduled).push(e)
        }
    }
}

/// Entities (by their bit representation) whose despawn has already been
/// requested this frame, so that no entity is despawned twice.
pub struct ScheduledDespawn(pub HashSet<u64>);

impl Default for ScheduledDespawn {
    fn default() -> (s: Self)
        ensures
            s.0@ == Set::<u64>::empty(),
    {
        ScheduledDespawn(HashSet::new())
    }
}

impl ScheduledDespawn {
    /// An empty schedule.
    pub fn new() -> (s: Self)
        ensures
            s.0@ == Set::<u64>::empty(),
    {
        ScheduledDespawn(HashSet::new())
    }

    /// Whether the despawn of `entity` has been requested already.
    pub fn contains(&self, entity: u64) -> (b: bool)
        ensures
            b == self.0@.contains(entity),
    {
        self.0.contains(&entity)
    }

    /// Records a despawn request for `entity`; true when it is the first
    /// one, that is when the caller is to despawn the entity.
    pub fn schedule(&mut self, entity: u64) -> (first: bool)
        ensures
            final(self).0@ == old(self).0@.insert(entity),
            first == !old(self).0@.contains(entity),
    {
        self.0.insert(entity)
    }

    /// Records despawn requests for all of `entities`, in order, and returns
    /// those that were not requested before, each once.
    pub fn schedule_all(&mut self, entities: &Vec<u64>) -> (fresh: Vec<u64>)
        ensures
            final(self).0@ == old(self).0@ + entities@.to_set(),
            fresh@ == newly_scheduled(entities@, old(self).0@),
    {
        let ghost start = self.0@;
        let mut fresh: Vec<u64> = Vec::new();
        let mut i: usize = 0;
        while i < entities.len()
            invariant
                i <= entities.len(),
                self.0@ == start + entities@.take(i as int).to_set(),
                fresh@ == newly_scheduled(entities@.take(i as int), start),
            decreases entities.len() - i,
        {
            let e = entities[i];
            let ghost before = entities@.take(i as int);
            let ghost next = entities@.take(i as int + 1);
            assert(next =~= before.push(e));
            assert(next.drop_last() =~= before);
            assert forall|x: u64| #[trigger] next.contains(x) <==> (before.contains(x) || x == e) by {
                if next.contains(x) {
                    let k = choose|k: int| 0 <= k < next.len() && next[k] == x;
                    if k < i {
                        assert(before[k] == x);
                    }
                }
                if before.contains(x) {
                    let k = choose|k: int| 0 <= k < before.len() && before[k] == x;
                    assert(next[k] == x);
                }
                if x == e {
                    assert(next[i as int] == e);
                }
            }
            if self.schedule(e) {
                fresh.push(e);
            }
            assert(self.0@ =~= start + next.to_set());
            i = i + 1;
        }
        assert(entities@.take(entities.len() as int) == entities@);
        fresh
    }
}

} // verus!

verus! {

/// The despawn schedule dedups: a pass over `entities` despawns each of
/// them at most once, never one already scheduled, and every entity of
/// `entities` that was not scheduled before.
pub proof fn lemma_despawn_at_most_once(entities: Seq<u64>, scheduled: Set<u64>)
    ensures
        newly_scheduled(entities, scheduled).no_duplicates(),
        forall|e: u64| #[trigger]
            newly_scheduled(entities, scheduled).contains(e) <==> (entities.contains(e)
                && !scheduled.contains(e)),
    decreases entities.len(),
{
    if entities.len() > 0 {
        let before = entities.drop_last();
        let last = entities.last();
        lemma_despawn_at_most_once(before, scheduled);
        assert forall|e: u64| entities.contains(e) <==> (before.contains(e) || e == last) by {
            if entities.contains(e) {
                let k = choose|k: int| 0 <= k < entities.len() && entities[k] == e;
                if k < entities.len() - 1 {
                    assert(before[k] == e);
                }
            }
            if before.contains(e) {
                let k = choose|k: int| 0 <= k < before.len() && before[k] == e;
                assert(entities[k] == e);
            }
            if e == last {
                assert(entities[entities.len() - 1] == e);
            }
        }
        let prev = newly_scheduled(before, scheduled);
        if !(scheduled.contains(last) || before.contains(last)) {
            let cur = prev.push(last);
            assert forall|e: u64| cur.contains(e) <==> (prev.contains(e) || e == last) by {
                if cur.contains(e) {
                    let k = choose|k: int| 0 <= k < cur.len() && cur[k] == e;
                    if k < prev.len() {
                        assert(prev[k] == e);
                    }
                }
                if prev.contains(e) {
                    let k = choose|k: int| 0 <= k < prev.len() && prev[k] == e;
                    assert(cur[k] == e);
                }
                if e == last {
                    assert(cur[prev.len() as int] == e);
                }
            }
            assert forall|a: int, b: int| 0 <= a < cur.len() && 0 <= b < cur.len() && a != b
                implies cur[a] != cur[b] by {
                if a < prev.len() && b < prev.len() {
                } else if a < prev.len() {
                    assert(prev.contains(cur[a]));
                } else {
                    assert(prev.contains(cur[b]));
                }
            }
        }
    }
}

/// Two passes over the same schedule within a frame never despawn the same
/// entity: what the first pass despawns, the second one skips.
pub proof fn lemma_despawn_passes_disjoint(first: Seq<u64>, second: Seq<u64>, scheduled: Set<u64>)
    ensures
        forall|e: u64|
            newly_scheduled(first, scheduled).contains(e) ==> !#[trigger] newly_scheduled(
                second,
                scheduled + first.to_set(),
            ).contains(e),
{
    lemma_despawn_at_most_once(first, scheduled);
    lemma_despawn_at_most_once(second, scheduled + first.to_set());
    assert forall|e: u64|
        newly_scheduled(first, scheduled).contains(e) implies !#[trigger] newly_scheduled(
        second,
        scheduled + first.to_set(),
    ).contains(e) by {
        assert(first.to_set().contains(e));
    }
}

} // verus!
