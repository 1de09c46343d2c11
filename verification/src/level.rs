//! Level map items, their properties, and level progression.
use vstd::prelude::*;

use crate::common::AnimationIndices;
use crate::config::GameConfig;
use crate::enemy::LevelSpawnedEnemies;

verus! {

/// Level map element types: the static objects of a level.
#[derive(Debug, Clone, Copy, PartialEq, Eq, Structural, Hash)]
pub enum LevelItem {
    /// No level item (empty space)
    Empty,
    /// Stone wall (can be destroyed)
    StoneWall,
    /// Iron wall (cannot be destroyed)
    IronWall,
    /// Tree (decorative, can be passed through)
    Tree,
    /// Water (decorative)
    Water,
    /// Home base (player must protect)
    Home,
}

impl Default for LevelItem {
    fn default() -> (item: Self)
        ensures
            item == LevelItem::Empty,
    {
        LevelItem::Empty
    }
}

/// The level item that a level editor entity identifier names.
pub open spec fn item_named(name: Seq<char>) -> LevelItem {
    if name == "StoneWall"@ {
        LevelItem::StoneWall
    } else if name == "IronWall"@ {
        LevelItem::IronWall
    } else if name == "Tree"@ {
        LevelItem::Tree
    } else if name == "Water"@ {
        LevelItem::Water
    } else if name == "Home"@ {
        LevelItem::Home
    } else {
        LevelItem::Empty
    }
}

/// Whether two strings hold the same characters.
fn same_text(a: &str, b: &str) -> (eq: bool)
    ensures
        eq == (a@ == b@),
{
    let n = a.unicode_len();
    let m = b.unicode_len();
    if n != m {
        return false;
    }
    let mut i: usize = 0;
    while i < n
        invariant
            n == a@.len(),
            m == b@.len(),
            n == m,
            i <= n,
            forall|k: int| 0 <= k < i ==> a@[k] == b@[k],
        decreases n - i,
    {
        if a.get_char(i) != b.get_char(i) {
            return false;
        }
        i = i + 1;
    }
    assert(a@ =~= b@);
    true
}

impl LevelItem {
    /// The item that a level editor entity with this identifier stands for;
    /// `Empty` for any other identifier.
    pub fn from_identifier(identifier: &str) -> (item: LevelItem)
        ensures
            item == item_named(identifier@),
    {
        if same_text(identifier, "StoneWall") {
            LevelItem::StoneWall
        } else if same_text(identifier, "IronWall") {
            LevelItem::IronWall
        } else if same_text(identifier, "Tree") {
            LevelItem::Tree
        } else if same_text(identifier, "Water") {
            LevelItem::Water
        } else if same_text(identifier, "Home") {
            LevelItem::Home
        } else {
            LevelItem::Empty
        }
    }

    /// Whether the item gets a fixed square collider: walls, water and home.
    pub fn is_solid(&self) -> (solid: bool)
        ensures
            solid == (*self == LevelItem::StoneWall || *self == LevelItem::IronWall || *self
                == LevelItem::Water || *self == LevelItem::Home),
    {
        match self {
            LevelItem::StoneWall | LevelItem::IronWall | LevelItem::Water | LevelItem::Home => true,
            _ => false,
        }
    }

    /// Animation frames of the item: water ripples between frames 3 and 4,
    /// every other item stays on frame 0.
    pub fn animation_indices(&self) -> (indices: AnimationIndices)
        ensures
            *self == LevelItem::Water ==> indices == (AnimationIndices { first: 3, last: 4 }),
            *self != LevelItem::Water ==> indices == (AnimationIndices { first: 0, last: 0 }),
    {
        match self {
            LevelItem::Water => AnimationIndices { first: 3, last: 4 },
            _ => AnimationIndices { first: 0, last: 0 },
        }
    }

    /// Whether the item closes a path to enemy tanks; trees give cover but
    /// do not block.
    pub fn blocks_enemies(&self) -> (blocks: bool)
        ensures
            blocks == (*self != LevelItem::Tree),
    {
        match self {
            LevelItem::Tree => false,
            _ => true,
        }
    }
}

} // verus!

verus! {

/// The map frame that shows the destroyed home base.
pub const HOME_DESTROYED_FRAME: usize = 6;

/// Whether the home base is destroyed this frame: a dying message came in
/// and the level has a home base. All home items then show
/// `HOME_DESTROYED_FRAME` and the game is over.
pub fn animate_home(home_dying_messages: usize, items: &Vec<LevelItem>) -> (destroyed: bool)
    ensures
        destroyed == (home_dying_messages > 0 && items@.contains(LevelItem::Home)),
{
    if home_dying_messages == 0 {
        return false;
    }
    let mut i: usize = 0;
    while i < items.len()
        invariant
            home_dying_messages > 0,
            i <= items.len(),
            forall|k: int| 0 <= k < i ==> items@[k] != LevelItem::Home,
        decreases items.len() - i,
    {
        if items[i] == LevelItem::Home {
            assert(items@[i as int] == LevelItem::Home);
            return true;
        }
        i = i + 1;
    }
    false
}

/// What becomes of the level at the end of a frame.
#[derive(Debug, Clone, Copy, PartialEq, Eq, Structural)]
pub enum LevelSwitch {
    /// The level goes on
    Stay,
    /// The last level is cleared: the game is won
    Victory,
    /// The level is cleared: go on to the level of this index, after
    /// despawning the players and the level items
    NextLevel(usize),
}

/// A level is cleared when all of its enemies have been spawned and none
/// is left alive.
pub open spec fn level_cleared(spawned: LevelSpawnedEnemies, alive: usize, config: GameConfig) -> bool {
    spawned.0 == config.enemy.enemies_per_level && alive == 0
}

/// Whether the level of index `level` is the last one.
pub open spec fn is_last_level(level: usize, config: GameConfig) -> bool {
    level as i32 == config.level.max_levels - 1
}

/// Level progression: once a level is cleared, the last one wins the game
/// and any other leads to the next level, with the count of spawned
/// enemies started over. Nothing happens while the level goes on or when
/// the selected level is not given by index.
pub fn auto_switch_level(
    spawned: &mut LevelSpawnedEnemies,
    alive: usize,
    level: Option<usize>,
    config: &GameConfig,
) -> (switch: LevelSwitch)
    requires
        level_cleared(*old(spawned), alive, *config) && level is Some ==> config.level.max_levels
            > i32::MIN,
        level matches Some(l) ==> (level_cleared(*old(spawned), alive, *config)
            && !is_last_level(l, *config) ==> l < usize::MAX),
    ensures
        !level_cleared(*old(spawned), alive, *config) || level is None ==> switch
            == LevelSwitch::Stay && *final(spawned) == *old(spawned),
        level matches Some(l) ==> (level_cleared(*old(spawned), alive, *config) && is_last_level(
            l,
            *config,
        ) ==> switch == LevelSwitch::Victory && *final(spawned) == *old(spawned)),
        level matches Some(l) ==> (level_cleared(*old(spawned), alive, *config) && !is_last_level(
            l,
            *config,
        ) ==> switch == LevelSwitch::NextLevel((l + 1) as usize) && final(spawned).0 == 0),
        switch != LevelSwitch::Stay ==> old(spawned).0 == config.enemy.enemies_per_level && alive
            == 0,
{
    let enemies_per_level = config.enemy.enemies_per_level;
    if spawned.0 == enemies_per_level && alive == 0 {
        if let Some(l) = level {
            if l as i32 == config.level.max_levels - 1 {
                LevelSwitch::Victory
            } else {
                spawned.0 = 0;
                LevelSwitch::NextLevel(l + 1)
            }
        } else {
            LevelSwitch::Stay
        }
    } else {
        LevelSwitch::Stay
    }
}

} // verus!

verus! {

/// A level ends only once every one of its enemies has been spawned and
/// none is left alive: with fewer spawned, or any alive, it goes on.
pub proof fn lemma_level_ends_when_all_enemies_fall(
    spawned: LevelSpawnedEnemies,
    alive: usize,
    config: GameConfig,
)
    ensures
        level_cleared(spawned, alive, config) <==> (spawned.0 == config.enemy.enemies_per_level
            && alive == 0),
        spawned.0 < config.enemy.enemies_per_level ==> !level_cleared(spawned, alive, config),
        alive > 0 ==> !level_cleared(spawned, alive, config),
{
}

/// The level of index `max_levels - 1` is the last one, and no other is.
pub proof fn lemma_last_level(level: usize, config: GameConfig)
    requires
        level <= i32::MAX,
    ensures
        is_last_level(level, config) <==> level + 1 == config.level.max_levels,
{
}

} // verus!

verus! {

/// Each of the five level item identifiers names its own item, and every
/// other identifier names empty ground.
pub proof fn lemma_item_names(name: Seq<char>)
    ensures
        item_named(name) == LevelItem::StoneWall <==> name == "StoneWall"@,
        item_named(name) == LevelItem::IronWall <==> name == "IronWall"@,
        item_named(name) == LevelItem::Tree <==> name == "Tree"@,
        item_named(name) == LevelItem::Water <==> name == "Water"@,
        item_named(name) == LevelItem::Home <==> name == "Home"@,
        item_named(name) == LevelItem::Empty <==> !(name == "StoneWall"@ || name == "IronWall"@
            || name == "Tree"@ || name == "Water"@ || name == "Home"@),
{
    reveal_strlit("StoneWall");
    reveal_strlit("IronWall");
    reveal_strlit("Tree");
    reveal_strlit("Water");
    reveal_strlit("Home");
    assert("StoneWall"@ != "IronWall"@) by {
        assert("StoneWall"@[0] != "IronWall"@[0]);
    }
    assert("StoneWall"@ != "Tree"@) by {
        assert("StoneWall"@[0] != "Tree"@[0]);
    }
    assert("StoneWall"@ != "Water"@) by {
        assert("StoneWall"@[0] != "Water"@[0]);
    }
    assert("StoneWall"@ != "Home"@) by {
        assert("StoneWall"@[0] != "Home"@[0]);
    }
    assert("IronWall"@ != "Tree"@) by {
        assert("IronWall"@[0] != "Tree"@[0]);
    }
    assert("IronWall"@ != "Water"@) by {
        assert("IronWall"@[0] != "Water"@[0]);
    }
    assert("IronWall"@ != "Home"@) by {
        assert("IronWall"@[0] != "Home"@[0]);
    }
    assert("Tree"@ != "Water"@) by {
        assert("Tree"@[0] != "Water"@[0]);
    }
    assert("Tree"@ != "Home"@) by {
        assert("Tree"@[0] != "Home"@[0]);
    }
    assert("Water"@ != "Home"@) by {
        assert("Water"@[0] != "Home"@[0]);
    }
}

} // verus!
