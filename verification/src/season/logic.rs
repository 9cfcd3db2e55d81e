//! What happens to the trees while a season runs: the actions that are
//! scheduled for them, and what each action does when its time has come.

use bevy_prng::WyRand;
use vstd::prelude::*;

use crate::entropy::next_u32;
use crate::game::Score;
use crate::season::state::SeasonState;
use crate::season::Season;
use crate::spawn::level::{lemma_index, Ground, Level, Tile, TilePos, TreeTile};
use crate::spawn::tree::{DespawnTree, Tree};
use crate::timer::Countdown;

verus! {

/// The shortest time, in nanoseconds, after which growing, dying or felling
/// takes place.
pub const ACTION_BASE_NANOS: u64 = 1_000_000_000;

/// The step, in nanoseconds, between two possible durations of an action.
pub const ACTION_STEP_NANOS: u64 = 100_000_000;

/// The number of possible durations of an action.
pub const ACTION_STEPS: u32 = 30;

/// What is about to happen to a tree.
#[derive(Clone, Copy, Debug, PartialEq, Eq, Hash, Structural)]
pub enum TreeActionKind {
    Growing,
    Dying,
    Burning,
    Felling,
}

impl TreeActionKind {
    /// Fire keeps burning: its countdown starts over each time it runs out.
    pub open spec fn spec_repeats(self) -> bool {
        self == TreeActionKind::Burning
    }

    /// How long an action of this kind takes when `roll` was drawn for it.
    ///
    /// Growing, dying and felling take between one second and just under
    /// four, in steps of a tenth of a second. Fire takes half as long, so
    /// that it outpaces everything else.
    pub open spec fn spec_duration(self, roll: u32) -> nat {
        let slow = (1_000_000_000 + (roll % 30) * 100_000_000) as nat;
        if self == TreeActionKind::Burning {
            slow / 2
        } else {
            slow
        }
    }

    /// The picture in the effect tile set that shows an action of this kind.
    pub open spec fn spec_effect_texture_index(self) -> nat {
        match self {
            TreeActionKind::Growing => 0,
            TreeActionKind::Dying => 1,
            TreeActionKind::Burning => 2,
            TreeActionKind::Felling => 3,
        }
    }

    /// Whether the countdown of an action of this kind starts over when it
    /// runs out.
    pub fn repeats(&self) -> (repeats: bool)
        ensures
            repeats == self.spec_repeats(),
    {
        matches!(self, TreeActionKind::Burning)
    }

    /// How long, in nanoseconds, an action of this kind takes when `roll` was
    /// drawn for it.
    pub fn duration(&self, roll: u32) -> (nanos: u64)
        ensures
            nanos == self.spec_duration(roll),
    {
        let steps: u64 = (roll % ACTION_STEPS) as u64;
        let slow: u64 = ACTION_BASE_NANOS + steps * ACTION_STEP_NANOS;
        match self {
            TreeActionKind::Burning => slow / 2,
            _ => slow,
        }
    }

    /// The picture in the effect tile set that shows an action of this kind.
    pub fn effect_texture_index(&self) -> (index: u32)
        ensures
            index == self.spec_effect_texture_index(),
    {
        match self {
            TreeActionKind::Growing => 0,
            TreeActionKind::Dying => 1,
            TreeActionKind::Burning => 2,
            TreeActionKind::Felling => 3,
        }
    }
}

/// An action scheduled for a tree: what will happen, and the countdown
/// until it does.
#[derive(Clone, Copy, Debug, PartialEq, Eq)]
pub struct TreeAction {
    pub kind: TreeActionKind,
    pub timer: Countdown,
}

impl TreeAction {
    /// The action of the given kind whose duration was decided by `roll`,
    /// with nothing of its countdown passed yet.
    pub open spec fn spec_from_roll(kind: TreeActionKind, roll: u32) -> TreeAction {
        TreeAction {
            kind,
            timer: Countdown {
                duration: kind.spec_duration(roll) as u64,
                elapsed: 0,
                repeating: kind.spec_repeats(),
            },
        }
    }

    /// Whether this is a newly scheduled action of the given kind, whatever
    /// was drawn for its duration.
    pub open spec fn is_fresh(self, kind: TreeActionKind) -> bool {
        exists|roll: u32| self == Self::spec_from_roll(kind, roll)
    }

    /// The action of the given kind whose duration was decided by `roll`,
    /// with nothing of its countdown passed yet.
    pub fn from_roll(kind: TreeActionKind, roll: u32) -> (action: Self)
        ensures
            action == Self::spec_from_roll(kind, roll),
    {
        TreeAction { kind, timer: Countdown::new(kind.duration(roll), kind.repeats()) }
    }

    /// Schedules an action of the given kind with a duration drawn from
    /// `rng`.
    pub fn random(kind: TreeActionKind, rng: &mut WyRand) -> (action: Self)
        ensures
            action.is_fresh(kind),
    {
        let roll = next_u32(rng);
        Self::from_roll(kind, roll)
    }

    /// Schedules growth, with a duration drawn from `rng`.
    pub fn growing(rng: &mut WyRand) -> (action: Self)
        ensures
            action.is_fresh(TreeActionKind::Growing),
    {
        Self::random(TreeActionKind::Growing, rng)
    }

    /// Schedules death, with a duration drawn from `rng`.
    pub fn dying(rng: &mut WyRand) -> (action: Self)
        ensures
            action.is_fresh(TreeActionKind::Dying),
    {
        Self::random(TreeActionKind::Dying, rng)
    }

    /// Schedules fire, with a duration drawn from `rng`.
    pub fn burning(rng: &mut WyRand) -> (action: Self)
        ensures
            action.is_fresh(TreeActionKind::Burning),
    {
        Self::random(TreeActionKind::Burning, rng)
    }

    /// Schedules felling, with a duration drawn from `rng`.
    pub fn felling(rng: &mut WyRand) -> (action: Self)
        ensures
            action.is_fresh(TreeActionKind::Felling),
    {
        Self::random(TreeActionKind::Felling, rng)
    }
}

/// Every newly scheduled action has its kind, an untouched countdown that
/// repeats only for fire, and a duration within the bounds of its kind.
pub proof fn lemma_fresh_action(action: TreeAction, kind: TreeActionKind)
    requires
        action.is_fresh(kind),
    ensures
        action.kind == kind,
        action.timer.elapsed == 0,
        action.timer.repeating == (kind == TreeActionKind::Burning),
        kind != TreeActionKind::Burning ==> 1_000_000_000 <= action.timer.duration
            <= 3_900_000_000,
        kind == TreeActionKind::Burning ==> 500_000_000 <= action.timer.duration
            <= 1_950_000_000,
{
    let roll = choose|roll: u32| action == TreeAction::spec_from_roll(kind, roll);
    assert(0 <= roll % 30 < 30);
}

/// For the same draw, fire takes exactly half the time of any other
/// action.
pub proof fn lemma_fire_is_faster(kind: TreeActionKind, roll: u32)
    requires
        kind != TreeActionKind::Burning,
    ensures
        2 * TreeActionKind::Burning.spec_duration(roll) == kind.spec_duration(roll),
        TreeActionKind::Burning.spec_duration(roll) < kind.spec_duration(roll),
{
    assert(0 <= roll % 30 < 30);
}

/// A sweep over the board that schedules one kind of action for the trees
/// that it applies to.
#[derive(Clone, Copy, Debug, PartialEq, Eq, Hash, Structural)]
pub enum Setup {
    /// Trees with room around them grow.
    Growing,
    /// Trees in a crowd die.
    OvercrowdDying,
    /// Seedlings do not survive the winter.
    SeedlingDying,
    /// Grown trees are felled, unless they are sheltered.
    Felling,
}

/// The densest neighbourhood in which a tree still grows.
pub const GROWING_MAX_DENSITY: u32 = 2;

/// The least dense neighbourhood in which a tree dies of the crowd.
pub const DYING_MIN_DENSITY: u32 = 5;

/// What the density around a tree calls for: growth where there is room,
/// death in a crowd, and nothing in between.
pub open spec fn spec_tree_logic(density: nat) -> Option<TreeActionKind> {
    if density <= 2 {
        Some(TreeActionKind::Growing)
    } else if density >= 5 {
        Some(TreeActionKind::Dying)
    } else {
        None
    }
}

/// What the density around a tree calls for: growth up to a density of
/// two, death from a density of five, and nothing in between.
pub fn tree_logic(density: u32) -> (call: Option<TreeActionKind>)
    ensures
        call == spec_tree_logic(density as nat),
{
    if density <= GROWING_MAX_DENSITY {
        Some(TreeActionKind::Growing)
    } else if density >= DYING_MIN_DENSITY {
        Some(TreeActionKind::Dying)
    } else {
        None
    }
}

impl Setup {
    /// The kind of action that the sweep schedules.
    pub open spec fn spec_kind(self) -> TreeActionKind {
        match self {
            Setup::Growing => TreeActionKind::Growing,
            Setup::OvercrowdDying => TreeActionKind::Dying,
            Setup::SeedlingDying => TreeActionKind::Dying,
            Setup::Felling => TreeActionKind::Felling,
        }
    }

    /// Whether the sweep schedules its action for a tree, given the density
    /// around it.
    ///
    /// Growing and dying of the crowd leave alone a tree for which
    /// something is scheduled already, and an overmature tree does not
    /// grow. The two winter sweeps go by the stage of the tree alone.
    pub open spec fn spec_applies(self, occupant: TreeTile, density: nat) -> bool {
        match self {
            Setup::Growing => {
                &&& occupant.tree != Tree::Overmature
                &&& occupant.action is None
                &&& spec_tree_logic(density) == Some(TreeActionKind::Growing)
            },
            Setup::OvercrowdDying => {
                &&& occupant.action is None
                &&& spec_tree_logic(density) == Some(TreeActionKind::Dying)
            },
            Setup::SeedlingDying => occupant.tree == Tree::Seedling,
            Setup::Felling => occupant.tree.spec_is_grown_up() && !occupant.bad_weather,
        }
    }

    /// The kind of action that the sweep schedules.
    pub fn kind(&self) -> (kind: TreeActionKind)
        ensures
            kind == self.spec_kind(),
    {
        match self {
            Setup::Growing => TreeActionKind::Growing,
            Setup::OvercrowdDying => TreeActionKind::Dying,
            Setup::SeedlingDying => TreeActionKind::Dying,
            Setup::Felling => TreeActionKind::Felling,
        }
    }

    /// Whether the sweep schedules its action for a tree, given the density
    /// around it.
    pub fn applies(&self, occupant: &TreeTile, density: u32) -> (applies: bool)
        ensures
            applies == self.spec_applies(*occupant, density as nat),
    {
        match self {
            Setup::Growing => {
                !matches!(occupant.tree, Tree::Overmature) && occupant.action.is_none()
                    && matches!(tree_logic(density), Some(TreeActionKind::Growing))
            },
            Setup::OvercrowdDying => {
                occupant.action.is_none() && matches!(
                    tree_logic(density),
                    Some(TreeActionKind::Dying)
                )
            },
            Setup::SeedlingDying => matches!(occupant.tree, Tree::Seedling),
            Setup::Felling => occupant.tree.is_grown_up() && !occupant.bad_weather,
        }
    }
}

/// Whether `after` is the tile `before` with a newly scheduled action of
/// the given kind and nothing else changed.
pub open spec fn scheduled_on(before: Tile, after: Tile, kind: TreeActionKind) -> bool {
    &&& before.tree is Some
    &&& after == before.with_action(after.spec_action())
    &&& after.spec_action() matches Some(action) && action.is_fresh(kind)
}

impl Level {
    /// Whether the sweep schedules its action for the tile at `pos`.
    pub open spec fn spec_applies(&self, setup: Setup, pos: TilePos) -> bool {
        &&& self.contains(pos)
        &&& self.tile(pos).tree matches Some(occupant)
        &&& setup.spec_applies(occupant, self.spec_neighbor_level(pos))
    }

    /// Whether this level is what the sweep makes of `before`: on each tile
    /// that the sweep applies to its action is newly scheduled, and all
    /// other tiles are as they were.
    pub open spec fn is_swept(&self, before: &Level, setup: Setup) -> bool {
        &&& self.wf()
        &&& self.size == before.size
        &&& forall|pos: TilePos|
            before.contains(pos) ==> if before.spec_applies(setup, pos) {
                scheduled_on(before.tile(pos), #[trigger] self.tile(pos), setup.spec_kind())
            } else {
                self.tile(pos) == before.tile(pos)
            }
    }
}

/// Levels with the same trees have the same density everywhere.
pub proof fn lemma_same_trees_same_density(a: &Level, b: &Level, pos: TilePos)
    requires
        a.same_trees(b),
    ensures
        a.spec_neighbor_level(pos) == b.spec_neighbor_level(pos),
{
    lemma_same_level_toward(a, b, pos, 1, 0);
    lemma_same_level_toward(a, b, pos, 1, 1);
    lemma_same_level_toward(a, b, pos, 0, 1);
    lemma_same_level_toward(a, b, pos, -1, 1);
    lemma_same_level_toward(a, b, pos, -1, 0);
    lemma_same_level_toward(a, b, pos, -1, -1);
    lemma_same_level_toward(a, b, pos, 0, -1);
    lemma_same_level_toward(a, b, pos, 1, -1);
}

/// Levels with the same trees have the same level on the tile that lies in
/// a given direction from a position.
proof fn lemma_same_level_toward(a: &Level, b: &Level, pos: TilePos, dx: int, dy: int)
    requires
        a.same_trees(b),
    ensures
        a.spec_level_at(a.spec_offset(pos, dx, dy)) == b.spec_level_at(b.spec_offset(pos, dx, dy)),
{
    match a.spec_offset(pos, dx, dy) {
        Some(toward) => {
            assert(a.contains(toward));
            assert(a.tile(toward).spec_stage() == b.tile(toward).spec_stage());
        },
        None => {},
    }
}

/// Goes over the board row by row and schedules the action of the sweep,
/// with a duration drawn from `rng`, for each tree that the sweep applies
/// to.
fn sweep(level: &mut Level, setup: Setup, rng: &mut WyRand)
    requires
        old(level).wf(),
    ensures
        final(level).is_swept(old(level), setup),
{
    let ghost before = *level;
    let count = level.len();
    let mut index: usize = 0;
    while index < count
        invariant
            index <= count,
            count == before.size.x * before.size.y,
            before.wf(),
            level.wf(),
            level.size == before.size,
            before.same_trees(level),
            forall|pos: TilePos|
                before.contains(pos) && before.index_of(pos) < index ==> if before.spec_applies(
                    setup,
                    pos,
                ) {
                    scheduled_on(before.tile(pos), #[trigger] level.tile(pos), setup.spec_kind())
                } else {
                    level.tile(pos) == before.tile(pos)
                },
            forall|pos: TilePos|
                before.contains(pos) && before.index_of(pos) >= index ==> #[trigger] level.tile(
                    pos,
                ) == before.tile(pos),
        decreases count - index,
    {
        let pos = level.position(index);
        let ghost entering = *level;
        if let Some(mut tile) = level.get(pos) {
            if let Some(occupant) = tile.tree {
                let density = level.neighbor_level(pos);
                proof {
                    lemma_same_trees_same_density(&before, level, pos);
                }
                if setup.applies(&occupant, density) {
                    let action = TreeAction::random(setup.kind(), rng);
                    tile.set_action(Some(action));
                    level.set(pos, tile);
                }
            }
        }
        proof {
            assert forall|other: TilePos| before.contains(other) implies (#[trigger] before.tile(
                other,
            )).spec_stage() == level.tile(other).spec_stage() by {
                if other != pos {
                    assert(level.tile(other) == entering.tile(other));
                }
            }
            assert forall|other: TilePos|
                before.contains(other) && before.index_of(other) < index + 1 implies if before.spec_applies(
                setup,
                other,
            ) {
                scheduled_on(before.tile(other), #[trigger] level.tile(other), setup.spec_kind())
            } else {
                level.tile(other) == before.tile(other)
            } by {
                if other != pos {
                    assert(level.tile(other) == entering.tile(other));
                    lemma_index(before.size, other);
                    lemma_index(before.size, pos);
                }
            }
            assert forall|other: TilePos|
                before.contains(other) && before.index_of(other) >= index + 1 implies #[trigger] level.tile(
                other,
            ) == before.tile(other) by {
                assert(level.tile(other) == entering.tile(other));
            }
        }
        index += 1;
    }
    proof {
        assert forall|pos: TilePos| before.contains(pos) implies before.index_of(pos) < count by {
            lemma_index(before.size, pos);
        }
    }
}

/// Schedules growth for every tree that is not overmature, has nothing
/// scheduled, and has a density of at most two around it.
pub fn setup_growing(level: &mut Level, rng: &mut WyRand)
    requires
        old(level).wf(),
    ensures
        final(level).is_swept(old(level), Setup::Growing),
{
    sweep(level, Setup::Growing, rng);
}

/// Schedules death for every tree that has nothing scheduled and a density
/// of at least five around it.
pub fn setup_overcrowd_dying(level: &mut Level, rng: &mut WyRand)
    requires
        old(level).wf(),
    ensures
        final(level).is_swept(old(level), Setup::OvercrowdDying),
{
    sweep(level, Setup::OvercrowdDying, rng);
}

/// Schedules death for every seedling.
pub fn setup_seedling_dying(level: &mut Level, rng: &mut WyRand)
    requires
        old(level).wf(),
    ensures
        final(level).is_swept(old(level), Setup::SeedlingDying),
{
    sweep(level, Setup::SeedlingDying, rng);
}

/// Schedules felling for every mature or overmature tree that is not
/// sheltered.
pub fn setup_felling(level: &mut Level, rng: &mut WyRand)
    requires
        old(level).wf(),
    ensures
        final(level).is_swept(old(level), Setup::Felling),
{
    sweep(level, Setup::Felling, rng);
}

impl Tile {
    /// The tile after its tree has grown by one stage.
    pub open spec fn spec_grown(self) -> Tile {
        match self.tree {
            Some(occupant) => Tile {
                tree: Some(TreeTile { tree: occupant.tree.grown(), ..occupant }),
                ..self
            },
            None => self,
        }
    }

    /// The points that felling the tree on the tile brings: the worth of
    /// the tree, three times over on nutrient ground.
    pub open spec fn spec_fell_gain(self) -> nat {
        match self.tree {
            Some(occupant) => if self.ground == Ground::Nutrient {
                3 * occupant.tree.spec_score()
            } else {
                occupant.tree.spec_score()
            },
            None => 0,
        }
    }

    /// The tile after its tree was felled: the nutrients are used up. The
    /// tree itself stays until it is taken off the board.
    pub open spec fn spec_felled(self) -> Tile {
        match self.tree {
            Some(_) => Tile { ground: Ground::Normal, ..self },
            None => self,
        }
    }

    /// Whether fire that reaches the tile sets it alight: there is a tree,
    /// and the tree is not burning already.
    pub open spec fn spec_flammable(self) -> bool {
        self.tree is Some && !self.spec_is_burning()
    }

    /// Whether fire is scheduled for the tree on the tile.
    pub open spec fn spec_is_burning(self) -> bool {
        self.spec_action() matches Some(action) && action.kind == TreeActionKind::Burning
    }

    /// The tile of a burning tree after the fire has flared up for the
    /// first time.
    pub open spec fn spec_flared(self) -> Tile {
        match self.tree {
            Some(occupant) => Tile { tree: Some(TreeTile { burn_ticks: 1, ..occupant }), ..self },
            None => self,
        }
    }

    /// The tile of a burning tree after the fire has consumed it: the ashes
    /// of a mature or overmature tree enrich the ground. The tree itself
    /// stays until it is taken off the board.
    pub open spec fn spec_consumed(self) -> Tile {
        match self.tree {
            Some(occupant) => Tile {
                ground: if occupant.tree.spec_is_grown_up() {
                    Ground::Nutrient
                } else {
                    self.ground
                },
                tree: Some(TreeTile { burn_ticks: 0, ..occupant }),
                ..self
            },
            None => self,
        }
    }
}

/// Whether `after` is what fire reaching the tile `before` leaves: a tile
/// that can catch fire gets a newly scheduled fire, and any other tile is as
/// it was.
pub open spec fn caught_fire(before: Tile, after: Tile) -> bool {
    if before.spec_flammable() {
        scheduled_on(before, after, TreeActionKind::Burning)
    } else {
        after == before
    }
}

impl Level {
    /// The points that felling the tree at `pos` brings.
    pub open spec fn spec_fell_gain(&self, pos: TilePos) -> nat {
        if self.contains(pos) {
            self.tile(pos).spec_fell_gain()
        } else {
            0
        }
    }

    /// Whether this level is `before` after the fire at `pos` has spread:
    /// the fire at `pos` has flared up once, each of the eight tiles around
    /// it has caught fire if it could, and all other tiles are as they were.
    pub open spec fn is_spread_of(&self, before: &Level, pos: TilePos) -> bool {
        &&& self.wf()
        &&& self.size == before.size
        &&& forall|other: TilePos|
            before.contains(other) ==> if other == pos {
                #[trigger] self.tile(other) == before.tile(other).spec_flared()
            } else if pos.is_neighbor(other) {
                caught_fire(before.tile(other), self.tile(other))
            } else {
                self.tile(other) == before.tile(other)
            }
    }
}

/// The requests to take a tree off the board, after an effect on the tree at
/// `pos`: one more if there is a tree at `pos`.
pub open spec fn spec_despawned(
    before: Seq<DespawnTree>,
    level: &Level,
    pos: TilePos,
) -> Seq<DespawnTree> {
    if level.spec_get_occupant(pos) is Some {
        before.push(DespawnTree { tile_pos: pos })
    } else {
        before
    }
}

/// Whether `level` and `despawned` are what a flare of the fire at `pos`
/// makes of `level_before` and `despawned_before`.
///
/// The first flare of a fire spreads it. A later one consumes the tree: the
/// ground takes the ashes and the tree is asked to be taken off the board.
/// Where there is no tree, nothing changes.
pub open spec fn is_burn_of(
    level_before: &Level,
    level: &Level,
    despawned_before: Seq<DespawnTree>,
    despawned: Seq<DespawnTree>,
    pos: TilePos,
) -> bool {
    match level_before.spec_get_occupant(pos) {
        Some(occupant) => if occupant.burn_ticks == 0 {
            &&& level.is_spread_of(level_before, pos)
            &&& despawned == despawned_before
        } else {
            &&& level.is_change_of(level_before, pos, level_before.tile(pos).spec_consumed())
            &&& despawned == despawned_before.push(DespawnTree { tile_pos: pos })
        },
        None => {
            &&& level.same_as(level_before)
            &&& despawned == despawned_before
        },
    }
}

/// The tree at `pos` grows by one stage. An overmature tree stays as it
/// is, and so does the level if there is no tree at `pos`.
pub fn grow(level: &mut Level, pos: TilePos)
    requires
        old(level).wf(),
    ensures
        final(level).wf(),
        final(level).is_change_of(old(level), pos, old(level).tile(pos).spec_grown()),
{
    if let Some(mut tile) = level.get(pos) {
        if let Some(mut occupant) = tile.tree {
            if let Some(next) = occupant.tree.next() {
                occupant.tree = next;
            }
            tile.tree = Some(occupant);
            level.set(pos, tile);
        }
    }
}

/// The tree at `pos` dies: it is asked to be taken off the board. It brings
/// no points.
pub fn die(level: &Level, pos: TilePos, despawn_tree_events: &mut Vec<DespawnTree>)
    requires
        level.wf(),
    ensures
        final(despawn_tree_events)@ == spec_despawned(old(despawn_tree_events)@, level, pos),
{
    if level.get_occupant(pos).is_some() {
        despawn_tree_events.push(DespawnTree { tile_pos: pos });
    }
}

/// The tree at `pos` is felled: it is asked to be taken off the board, and
/// its worth is added to the score, three times over on nutrient ground,
/// whose nutrients are used up by that.
pub fn fell(
    level: &mut Level,
    pos: TilePos,
    score: &mut Score,
    despawn_tree_events: &mut Vec<DespawnTree>,
)
    requires
        old(level).wf(),
        old(score).0 + old(level).spec_fell_gain(pos) <= usize::MAX,
    ensures
        final(level).wf(),
        final(level).is_change_of(old(level), pos, old(level).tile(pos).spec_felled()),
        final(score).0 == old(score).0 + old(level).spec_fell_gain(pos),
        final(despawn_tree_events)@ == spec_despawned(
            old(despawn_tree_events)@,
            old(level),
            pos,
        ),
{
    if let Some(mut tile) = level.get(pos) {
        if let Some(occupant) = tile.tree {
            despawn_tree_events.push(DespawnTree { tile_pos: pos });
            let mut tree_score = occupant.tree.score();
            if matches!(tile.ground, Ground::Nutrient) {
                tree_score = tree_score * 3;
                tile.ground = Ground::Normal;
            }
            score.0 = score.0 + tree_score;
            level.set(pos, tile);
        }
    }
}

/// Fire reaches the tile at `target`, if that is a tile.
fn ignite(level: &mut Level, target: Option<TilePos>, rng: &mut WyRand)
    requires
        old(level).wf(),
        target matches Some(pos) ==> old(level).contains(pos),
    ensures
        final(level).wf(),
        final(level).size == old(level).size,
        forall|other: TilePos|
            old(level).contains(other) ==> if target == Some(other) {
                caught_fire(old(level).tile(other), #[trigger] final(level).tile(other))
            } else {
                final(level).tile(other) == old(level).tile(other)
            },
{
    if let Some(pos) = target {
        if let Some(mut tile) = level.get(pos) {
            let burning = match tile.action() {
                Some(action) => matches!(action.kind, TreeActionKind::Burning),
                None => false,
            };
            if tile.tree.is_some() && !burning {
                tile.set_action(Some(TreeAction::burning(rng)));
                level.set(pos, tile);
            }
        }
    }
}

/// The fire on the tree at `pos` flares up.
///
/// The first time, it spreads: each tree on the eight tiles around `pos`
/// that is not burning yet is set alight, with a duration drawn from `rng`,
/// in place of whatever was scheduled for it. The second time, it consumes
/// the tree: the tree is asked to be taken off the board, and if it was
/// mature or overmature its ashes enrich the ground. Without a tree at
/// `pos` nothing happens.
pub fn burn(
    level: &mut Level,
    pos: TilePos,
    despawn_tree_events: &mut Vec<DespawnTree>,
    rng: &mut WyRand,
)
    requires
        old(level).wf(),
    ensures
        final(level).wf(),
        is_burn_of(
            old(level),
            final(level),
            old(despawn_tree_events)@,
            final(despawn_tree_events)@,
            pos,
        ),
{
    let ghost before = *level;
    if let Some(mut tile) = level.get(pos) {
        if let Some(mut occupant) = tile.tree {
            if occupant.burn_ticks == 0 {
                occupant.burn_ticks = 1;
                tile.tree = Some(occupant);
                level.set(pos, tile);
                let ghost flared = *level;
                let around = level.neighbors8(pos);
                ignite(level, around[0], rng);
                let ghost lit1 = *level;
                ignite(level, around[1], rng);
                let ghost lit2 = *level;
                ignite(level, around[2], rng);
                let ghost lit3 = *level;
                ignite(level, around[3], rng);
                let ghost lit4 = *level;
                ignite(level, around[4], rng);
                let ghost lit5 = *level;
                ignite(level, around[5], rng);
                let ghost lit6 = *level;
                ignite(level, around[6], rng);
                let ghost lit7 = *level;
                ignite(level, around[7], rng);
                proof {
                    assert forall|other: TilePos| before.contains(other) implies if other == pos {
                        #[trigger] level.tile(other) == before.tile(other).spec_flared()
                    } else if pos.is_neighbor(other) {
                        caught_fire(before.tile(other), level.tile(other))
                    } else {
                        level.tile(other) == before.tile(other)
                    } by {
                        let _ = flared.tile(other);
                        let _ = lit1.tile(other);
                        let _ = lit2.tile(other);
                        let _ = lit3.tile(other);
                        let _ = lit4.tile(other);
                        let _ = lit5.tile(other);
                        let _ = lit6.tile(other);
                        let _ = lit7.tile(other);
                    }
                }
            } else {
                despawn_tree_events.push(DespawnTree { tile_pos: pos });
                if occupant.tree.is_grown_up() {
                    tile.ground = Ground::Nutrient;
                }
                occupant.burn_ticks = 0;
                tile.tree = Some(occupant);
                level.set(pos, tile);
            }
        }
    }
}

/// An action whose time has come, and the tile of the tree that it was
/// scheduled for.
#[derive(Clone, Copy, Debug, PartialEq, Eq)]
pub struct Due {
    pub pos: TilePos,
    pub kind: TreeActionKind,
}

impl Tile {
    /// The tile `delta` nanoseconds later, as far as the countdown of its
    /// action goes, and the kind of the action if its time has come.
    ///
    /// An action whose time has come is removed from the tree, except for
    /// fire, which keeps burning until it has consumed the tree.
    pub open spec fn spec_tick_action(self, delta: u64) -> (Tile, Option<TreeActionKind>) {
        match self.spec_action() {
            Some(action) => {
                let (timer, just_finished) = action.timer.spec_tick(delta);
                if just_finished && action.kind != TreeActionKind::Burning {
                    (self.with_action(None), Some(action.kind))
                } else {
                    (
                        self.with_action(Some(TreeAction { timer, ..action })),
                        if just_finished {
                            Some(action.kind)
                        } else {
                            None
                        },
                    )
                }
            },
            None => (self, None),
        }
    }

    /// Lets `delta` nanoseconds pass for the action scheduled for the tree on
    /// the tile, and returns the kind of the action if its time has come.
    pub fn tick_action(&mut self, delta: u64) -> (due: Option<TreeActionKind>)
        ensures
            (*final(self), due) == old(self).spec_tick_action(delta),
    {
        match self.action() {
            Some(mut action) => {
                let just_finished = action.timer.tick(delta);
                if just_finished && !matches!(action.kind, TreeActionKind::Burning) {
                    self.set_action(None);
                    Some(action.kind)
                } else {
                    self.set_action(Some(action));
                    if just_finished {
                        Some(action.kind)
                    } else {
                        None
                    }
                }
            },
            None => None,
        }
    }
}

impl Level {
    /// The actions on the first `count` tiles, row by row, whose time comes
    /// within the next `delta` nanoseconds.
    pub open spec fn spec_due(&self, delta: u64, count: int) -> Seq<Due>
        decreases count,
    {
        if count <= 0 {
            Seq::empty()
        } else {
            let earlier = self.spec_due(delta, count - 1);
            match self.tiles@[count - 1].spec_tick_action(delta).1 {
                Some(kind) => earlier.push(Due { pos: self.pos_at(count - 1), kind }),
                None => earlier,
            }
        }
    }

    /// Whether this level is `before` with the countdowns of all scheduled
    /// actions moved on by `delta` nanoseconds.
    pub open spec fn is_tick_of(&self, before: &Level, delta: u64) -> bool {
        &&& self.wf()
        &&& self.size == before.size
        &&& forall|pos: TilePos|
            before.contains(pos) ==> #[trigger] self.tile(pos) == before.tile(
                pos,
            ).spec_tick_action(delta).0
    }
}

/// Lets `delta` nanoseconds pass for every scheduled action, while the
/// season runs, and returns the actions whose time has come, row by row.
/// In the other phases of a season time stands still for the trees.
pub fn handle_tree_action(level: &mut Level, season: &Season, delta: u64) -> (due: Vec<Due>)
    requires
        old(level).wf(),
    ensures
        final(level).wf(),
        if season.state == SeasonState::Simulation {
            &&& final(level).is_tick_of(old(level), delta)
            &&& due@ == old(level).spec_due(delta, old(level).tiles@.len() as int)
        } else {
            &&& final(level).same_as(old(level))
            &&& due@ == Seq::<Due>::empty()
        },
{
    let mut due: Vec<Due> = Vec::new();
    if !matches!(season.state, SeasonState::Simulation) {
        return due;
    }
    let ghost before = *level;
    let count = level.len();
    let mut index: usize = 0;
    while index < count
        invariant
            index <= count,
            count == before.tiles@.len(),
            before.wf(),
            level.wf(),
            level.size == before.size,
            due@ == before.spec_due(delta, index as int),
            forall|pos: TilePos|
                before.contains(pos) && before.index_of(pos) < index ==> #[trigger] level.tile(pos)
                    == before.tile(pos).spec_tick_action(delta).0,
            forall|pos: TilePos|
                before.contains(pos) && before.index_of(pos) >= index ==> #[trigger] level.tile(
                    pos,
                ) == before.tile(pos),
        decreases count - index,
    {
        let pos = level.position(index);
        let ghost entering = *level;
        let mut tile = level.tiles[index];
        assert(level.tile(pos) == before.tile(pos));
        match tile.tick_action(delta) {
            Some(kind) => {
                due.push(Due { pos, kind });
            },
            None => {},
        }
        level.set(pos, tile);
        proof {
            assert forall|other: TilePos|
                before.contains(other) && before.index_of(other) < index + 1 implies #[trigger] level.tile(
                other,
            ) == before.tile(other).spec_tick_action(delta).0 by {
                if other != pos {
                    assert(level.tile(other) == entering.tile(other));
                    lemma_index(before.size, other);
                    lemma_index(before.size, pos);
                }
            }
            assert forall|other: TilePos|
                before.contains(other) && before.index_of(other) >= index + 1 implies #[trigger] level.tile(
                other,
            ) == before.tile(other) by {
                assert(level.tile(other) == entering.tile(other));
            }
        }
        index += 1;
    }
    proof {
        assert forall|pos: TilePos| before.contains(pos) implies before.index_of(pos) < count by {
            lemma_index(before.size, pos);
        }
    }
    due
}

/// Whether the level, the score and the requests to take trees off the
/// board are what the effect of an action of the given kind on the tree at
/// `pos` makes of what they were before.
pub open spec fn is_effect_of(
    kind: TreeActionKind,
    pos: TilePos,
    level_before: &Level,
    level: &Level,
    score_before: Score,
    score: Score,
    despawned_before: Seq<DespawnTree>,
    despawned: Seq<DespawnTree>,
) -> bool {
    match kind {
        TreeActionKind::Growing => {
            &&& level.is_change_of(level_before, pos, level_before.tile(pos).spec_grown())
            &&& score == score_before
            &&& despawned == despawned_before
        },
        TreeActionKind::Dying => {
            &&& level.same_as(level_before)
            &&& score == score_before
            &&& despawned == spec_despawned(despawned_before, level_before, pos)
        },
        TreeActionKind::Burning => {
            &&& is_burn_of(level_before, level, despawned_before, despawned, pos)
            &&& score == score_before
        },
        TreeActionKind::Felling => {
            &&& level.is_change_of(level_before, pos, level_before.tile(pos).spec_felled())
            &&& score.0 == score_before.0 + level_before.spec_fell_gain(pos)
            &&& despawned == spec_despawned(despawned_before, level_before, pos)
        },
    }
}

impl TreeActionKind {
    /// Carries out the effect of an action of this kind on the tree at
    /// `pos`: the tree grows, dies, burns or is felled.
    pub fn trigger(
        &self,
        pos: TilePos,
        level: &mut Level,
        score: &mut Score,
        despawn_tree_events: &mut Vec<DespawnTree>,
        rng: &mut WyRand,
    )
        requires
            old(level).wf(),
            *self == TreeActionKind::Felling ==> old(score).0 + old(level).spec_fell_gain(pos)
                <= usize::MAX,
        ensures
            final(level).wf(),
            final(level).size == old(level).size,
            is_effect_of(
                *self,
                pos,
                old(level),
                final(level),
                *old(score),
                *final(score),
                old(despawn_tree_events)@,
                final(despawn_tree_events)@,
            ),
    {
        match self {
            TreeActionKind::Growing => grow(level, pos),
            TreeActionKind::Dying => die(level, pos, despawn_tree_events),
            TreeActionKind::Burning => burn(level, pos, despawn_tree_events, rng),
            TreeActionKind::Felling => fell(level, pos, score, despawn_tree_events),
        }
    }
}

impl TreeAction {
    /// Carries out the effect of the action on the tree at `pos`.
    pub fn trigger(
        &self,
        pos: TilePos,
        level: &mut Level,
        score: &mut Score,
        despawn_tree_events: &mut Vec<DespawnTree>,
        rng: &mut WyRand,
    )
        requires
            old(level).wf(),
            self.kind == TreeActionKind::Felling ==> old(score).0 + old(level).spec_fell_gain(pos)
                <= usize::MAX,
        ensures
            final(level).wf(),
            final(level).size == old(level).size,
            is_effect_of(
                self.kind,
                pos,
                old(level),
                final(level),
                *old(score),
                *final(score),
                old(despawn_tree_events)@,
                final(despawn_tree_events)@,
            ),
    {
        self.kind.trigger(pos, level, score, despawn_tree_events, rng);
    }
}

/// Felling brings the worth of the tree times what the ground counts for:
/// once on normal ground and three times on nutrient ground.
pub proof fn lemma_fell_gain(tile: Tile)
    ensures
        tile.spec_fell_gain() == match tile.tree {
            Some(occupant) => occupant.tree.spec_score() * tile.ground.spec_multiplier(),
            None => 0,
        },
        tile.spec_fell_gain() <= 18,
{
    match tile.tree {
        Some(occupant) => {
            let worth = occupant.tree.spec_score();
            let factor = tile.ground.spec_multiplier();
            assert(worth * factor == if tile.ground == Ground::Nutrient {
                3 * worth
            } else {
                worth
            }) by (nonlinear_arith)
                requires
                    factor == if tile.ground == Ground::Nutrient {
                        3nat
                    } else {
                        1nat
                    },
            ;
        },
        None => {},
    }
}

/// Nutrients count once: a tree felled on nutrient ground brings three
/// times its worth and leaves normal ground, so that felling it again
/// before it is taken off the board brings its plain worth.
pub proof fn lemma_nutrients_count_once(
    level: &Level,
    felled: &Level,
    felled_again: &Level,
    score: Score,
    score_felled: Score,
    score_felled_again: Score,
    despawned: Seq<DespawnTree>,
    despawned_felled: Seq<DespawnTree>,
    despawned_felled_again: Seq<DespawnTree>,
    pos: TilePos,
)
    requires
        level.wf(),
        level.contains(pos),
        level.tile(pos).tree is Some,
        level.tile(pos).ground == Ground::Nutrient,
        is_effect_of(
            TreeActionKind::Felling,
            pos,
            level,
            felled,
            score,
            score_felled,
            despawned,
            despawned_felled,
        ),
        is_effect_of(
            TreeActionKind::Felling,
            pos,
            felled,
            felled_again,
            score_felled,
            score_felled_again,
            despawned_felled,
            despawned_felled_again,
        ),
    ensures
        score_felled.0 == score.0 + 3 * level.tile(pos).tree->0.tree.spec_score(),
        felled.tile(pos).ground == Ground::Normal,
        felled.tile(pos).tree == level.tile(pos).tree,
        score_felled_again.0 == score_felled.0 + level.tile(pos).tree->0.tree.spec_score(),
        felled_again.tile(pos).ground == Ground::Normal,
{
    assert(felled.contains(pos));
}

/// A fire in the interior of the level takes two flares.
///
/// The first sets every tree on the eight tiles around it alight that is
/// not burning yet, leaves alone those that burn already, and takes no
/// tree off the board. The second sets nothing alight again: it changes
/// the tile of the fire alone, asks for the burnt tree to be taken off the
/// board, and leaves nutrient ground if the tree was mature or overmature,
/// and the ground as it was if not.
pub proof fn lemma_fire_spreads_then_consumes(
    level: &Level,
    spread: &Level,
    consumed: &Level,
    despawned: Seq<DespawnTree>,
    despawned_spread: Seq<DespawnTree>,
    despawned_consumed: Seq<DespawnTree>,
    pos: TilePos,
)
    requires
        level.wf(),
        0 < pos.x,
        pos.x + 1 < level.size.x,
        0 < pos.y,
        pos.y + 1 < level.size.y,
        level.tile(pos).tree matches Some(occupant) && occupant.burn_ticks == 0,
        is_burn_of(level, spread, despawned, despawned_spread, pos),
        is_burn_of(spread, consumed, despawned_spread, despawned_consumed, pos),
    ensures
        forall|other: TilePos|
            pos.is_neighbor(other) ==> {
                &&& level.contains(other)
                &&& level.tile(other).tree is Some ==> (#[trigger] spread.tile(
                    other,
                )).spec_is_burning()
                &&& level.tile(other).spec_flammable() ==> scheduled_on(
                    level.tile(other),
                    spread.tile(other),
                    TreeActionKind::Burning,
                )
                &&& !level.tile(other).spec_flammable() ==> spread.tile(other) == level.tile(
                    other,
                )
            },
        despawned_spread == despawned,
        forall|other: TilePos|
            level.contains(other) && other != pos ==> #[trigger] consumed.tile(other)
                == spread.tile(other),
        despawned_consumed == despawned.push(DespawnTree { tile_pos: pos }),
        consumed.tile(pos).ground == if level.tile(pos).tree->0.tree.spec_is_grown_up() {
            Ground::Nutrient
        } else {
            level.tile(pos).ground
        },
{
    assert(level.contains(pos));
    assert(spread.tile(pos) == level.tile(pos).spec_flared());
    assert forall|other: TilePos| pos.is_neighbor(other) implies {
        &&& level.contains(other)
        &&& level.tile(other).tree is Some ==> (#[trigger] spread.tile(other)).spec_is_burning()
        &&& level.tile(other).spec_flammable() ==> scheduled_on(
            level.tile(other),
            spread.tile(other),
            TreeActionKind::Burning,
        )
        &&& !level.tile(other).spec_flammable() ==> spread.tile(other) == level.tile(other)
    } by {
        assert(level.contains(other));
        if level.tile(other).spec_flammable() {
            let action = spread.tile(other).spec_action()->0;
            lemma_fresh_action(action, TreeActionKind::Burning);
        }
    }
}

/// An action other than fire comes due in the step in which the time
/// passed reaches its duration, and not before; with that it is no longer
/// scheduled. Until then the tile changes in nothing but the time passed.
pub proof fn lemma_action_comes_due_on_time(tile: Tile, delta: u64)
    requires
        tile.spec_action() matches Some(action) && action.kind != TreeActionKind::Burning
            && !action.timer.repeating,
    ensures
        ({
            let action = tile.spec_action()->0;
            let (ticked, due) = tile.spec_tick_action(delta);
            if action.timer.elapsed + delta >= action.timer.duration {
                &&& due == Some(action.kind)
                &&& ticked == tile.with_action(None)
            } else {
                &&& due is None
                &&& ticked == tile.with_action(
                    Some(
                        TreeAction {
                            timer: Countdown {
                                elapsed: (action.timer.elapsed + delta) as u64,
                                ..action.timer
                            },
                            ..action
                        },
                    ),
                )
            }
        }),
{
}

} // verus!
