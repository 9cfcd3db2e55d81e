//! The seasons: which one it is, what the player may do in it, and the
//! change from one to the next.

use bevy_prng::WyRand;
use vstd::prelude::*;

use crate::season::logic::{scheduled_on, TreeAction, TreeActionKind};
use crate::season::state::SeasonState;
use crate::spawn::level::{lemma_index, Ground, Level, SelectedTile, Tile, TilePos, TreeTile};
use crate::spawn::tree::{SpawnTree, Tree};
use crate::timer::Countdown;

pub mod logic;
pub mod state;

verus! {

/// The budget of actions that the player gets at the start of each season.
pub const USER_ACTION_RESOURCE: usize = 4;

/// What sheltering one tree from the winter costs.
pub const SHELTER_COST: usize = 2;

/// The year in which the game is over.
pub const LAST_YEAR: u32 = 3;

/// The four seasons of a year. Each has its own action for the player and
/// its own fate for the trees.
#[derive(Clone, Copy, Debug, PartialEq, Eq, Hash, Structural)]
pub enum SeasonKind {
    Spring,
    Summer,
    Autumn,
    Winter,
}

impl SeasonKind {
    /// The season that follows this one; after winter comes spring.
    pub open spec fn spec_next(self) -> SeasonKind {
        match self {
            SeasonKind::Spring => SeasonKind::Summer,
            SeasonKind::Summer => SeasonKind::Autumn,
            SeasonKind::Autumn => SeasonKind::Winter,
            SeasonKind::Winter => SeasonKind::Spring,
        }
    }

    /// The position of the season in the year, counted from zero.
    pub open spec fn spec_texture_index(self) -> nat {
        match self {
            SeasonKind::Spring => 0,
            SeasonKind::Summer => 1,
            SeasonKind::Autumn => 2,
            SeasonKind::Winter => 3,
        }
    }

    /// The name of the season as the player reads it.
    pub open spec fn spec_header(self) -> Seq<char> {
        match self {
            SeasonKind::Spring => "Spring"@,
            SeasonKind::Summer => "Summer"@,
            SeasonKind::Autumn => "Autumn"@,
            SeasonKind::Winter => "Winter"@,
        }
    }

    /// What the player is told about the season.
    pub open spec fn spec_description(self) -> Seq<char> {
        match self {
            SeasonKind::Spring => "Place 4 seedlings in spring and watch them grow."@,
            SeasonKind::Summer => "No trees ever die in summer...\nBut you have to set fire to a tree. Be careful, it spreads quickly. Leaves behind nutrient soil for mature and overmature trees."@,
            SeasonKind::Autumn => "Place a good gust on any tree to let it drop its seeds in a cross pattern one tile away."@,
            SeasonKind::Winter => "Any seedlings will succumb to the cold. Any mature and overmature trees are taken by the local folk for points.\nDirect snow storms to selected trees to keep them around for another time."@,
        }
    }

    /// The season that follows this one.
    pub fn next(&self) -> (next: Self)
        ensures
            next == self.spec_next(),
    {
        match self {
            SeasonKind::Spring => SeasonKind::Summer,
            SeasonKind::Summer => SeasonKind::Autumn,
            SeasonKind::Autumn => SeasonKind::Winter,
            SeasonKind::Winter => SeasonKind::Spring,
        }
    }

    /// The column of the season's pictures in each tile set.
    pub fn texture_index(&self) -> (index: u32)
        ensures
            index == self.spec_texture_index(),
    {
        match self {
            SeasonKind::Spring => 0,
            SeasonKind::Summer => 1,
            SeasonKind::Autumn => 2,
            SeasonKind::Winter => 3,
        }
    }

    /// The name of the season as the player reads it.
    pub fn header(&self) -> (header: &'static str)
        ensures
            header@ == self.spec_header(),
    {
        match self {
            SeasonKind::Spring => "Spring",
            SeasonKind::Summer => "Summer",
            SeasonKind::Autumn => "Autumn",
            SeasonKind::Winter => "Winter",
        }
    }

    /// What the player is told about the season.
    pub fn description(&self) -> (description: &'static str)
        ensures
            description@ == self.spec_description(),
    {
        match self {
            SeasonKind::Spring => "Place 4 seedlings in spring and watch them grow.",
            SeasonKind::Summer => "No trees ever die in summer...\nBut you have to set fire to a tree. Be careful, it spreads quickly. Leaves behind nutrient soil for mature and overmature trees.",
            SeasonKind::Autumn => "Place a good gust on any tree to let it drop its seeds in a cross pattern one tile away.",
            SeasonKind::Winter => "Any seedlings will succumb to the cold. Any mature and overmature trees are taken by the local folk for points.\nDirect snow storms to selected trees to keep them around for another time.",
        }
    }
}

/// Where the game stands in time: the year, the season, the phase of the
/// season, and what is left of the player's budget of actions.
#[derive(Clone, Copy, Debug, PartialEq, Eq)]
pub struct Season {
    pub year: u32,
    pub state: SeasonState,
    pub kind: SeasonKind,
    pub user_action_resource: usize,
}

impl Default for Season {
    /// The first spring, waiting for the player, with a full budget.
    fn default() -> (season: Self)
        ensures
            season == (Season {
                year: 0,
                state: SeasonState::UserInput,
                kind: SeasonKind::Spring,
                user_action_resource: 4,
            }),
    {
        Season {
            year: 0,
            state: SeasonState::UserInput,
            kind: SeasonKind::Spring,
            user_action_resource: USER_ACTION_RESOURCE,
        }
    }
}

impl Season {
    /// Whether the player may act: it is the player's phase and some of the
    /// budget is left.
    pub open spec fn spec_accepts_user_action(self) -> bool {
        self.state == SeasonState::UserInput && self.user_action_resource > 0
    }

    /// Whether the player may act: it is the player's phase and some of the
    /// budget is left.
    pub fn accepts_user_action(&self) -> (accepts: bool)
        ensures
            accepts == self.spec_accepts_user_action(),
    {
        matches!(self.state, SeasonState::UserInput) && self.user_action_resource > 0
    }
}

/// The changeover of one tile to a season: the countdown after which the
/// tile shows the season's picture.
#[derive(Clone, Copy, Debug, PartialEq, Eq)]
pub struct SeasonTransition {
    pub timer: Countdown,
    pub season_kind: SeasonKind,
}

/// The year has four seasons: four steps lead back to the season one
/// started from, and fewer do not.
pub proof fn lemma_seasons_cycle(kind: SeasonKind)
    ensures
        kind.spec_next() != kind,
        kind.spec_next().spec_next() != kind,
        kind.spec_next().spec_next().spec_next() != kind,
        kind.spec_next().spec_next().spec_next().spec_next() == kind,
        kind.spec_next().spec_texture_index() == (kind.spec_texture_index() + 1) % 4,
{
}

/// The picture in the ground tile set that shows a ground in a season.
pub fn ground_texture_index(kind: SeasonKind, ground: Ground) -> (index: u32)
    ensures
        index == kind.spec_texture_index() + if ground == Ground::Nutrient {
            4nat
        } else {
            0nat
        },
{
    kind.texture_index() + ground.texture_index_offset()
}

/// A tile that has changed over to a season and is to be shown in it.
#[derive(Clone, Copy, Debug, PartialEq, Eq)]
pub struct ChangedOver {
    pub pos: TilePos,
    pub season_kind: SeasonKind,
}

impl Tile {
    /// The tile `delta` nanoseconds later, as far as its changeover goes,
    /// and the season that it has changed over to if the changeover was
    /// completed in that time.
    ///
    /// With the changeover completed the tree on the tile, if there is
    /// one, is no longer sheltered.
    pub open spec fn spec_tick_transition(self, delta: u64) -> (Tile, Option<SeasonKind>) {
        match self.transition {
            Some(transition) => {
                let (timer, just_finished) = transition.timer.spec_tick(delta);
                if just_finished {
                    (
                        Tile {
                            transition: None,
                            tree: match self.tree {
                                Some(occupant) => Some(TreeTile { bad_weather: false, ..occupant }),
                                None => None,
                            },
                            ..self
                        },
                        Some(transition.season_kind),
                    )
                } else {
                    (
                        Tile {
                            transition: Some(SeasonTransition { timer, ..transition }),
                            ..self
                        },
                        None,
                    )
                }
            },
            None => (self, None),
        }
    }

    /// Lets `delta` nanoseconds pass for the changeover of the tile, and
    /// returns the season that the tile has changed over to if the changeover
    /// was completed in that time.
    pub fn tick_transition(&mut self, delta: u64) -> (changed_over: Option<SeasonKind>)
        ensures
            (*final(self), changed_over) == old(self).spec_tick_transition(delta),
    {
        match self.transition {
            Some(mut transition) => {
                if transition.timer.tick(delta) {
                    self.transition = None;
                    match self.tree {
                        Some(occupant) => {
                            self.tree = Some(TreeTile { bad_weather: false, ..occupant });
                        },
                        None => {},
                    }
                    Some(transition.season_kind)
                } else {
                    self.transition = Some(transition);
                    None
                }
            },
            None => None,
        }
    }
}

impl Level {
    /// The tiles among the first `count`, row by row, that complete their
    /// changeover within the next `delta` nanoseconds.
    pub open spec fn spec_changed_over(&self, delta: u64, count: int) -> Seq<ChangedOver>
        decreases count,
    {
        if count <= 0 {
            Seq::empty()
        } else {
            let earlier = self.spec_changed_over(delta, count - 1);
            match self.tiles@[count - 1].spec_tick_transition(delta).1 {
                Some(season_kind) => earlier.push(
                    ChangedOver { pos: self.pos_at(count - 1), season_kind },
                ),
                None => earlier,
            }
        }
    }

    /// Whether this level is `before` with all changeovers moved on by
    /// `delta` nanoseconds.
    pub open spec fn is_transition_tick_of(&self, before: &Level, delta: u64) -> bool {
        &&& self.wf()
        &&& self.size == before.size
        &&& forall|pos: TilePos|
            before.contains(pos) ==> #[trigger] self.tile(pos) == before.tile(
                pos,
            ).spec_tick_transition(delta).0
    }
}

/// Lets `delta` nanoseconds pass for every tile that is changing over to a
/// season, and returns the tiles that have completed their changeover, row
/// by row. A tile that has changed over is no longer changing, and its tree
/// is no longer sheltered.
pub fn handle_transition(level: &mut Level, delta: u64) -> (changed_over: Vec<ChangedOver>)
    requires
        old(level).wf(),
    ensures
        final(level).is_transition_tick_of(old(level), delta),
        changed_over@ == old(level).spec_changed_over(delta, old(level).tiles@.len() as int),
{
    let mut changed_over: Vec<ChangedOver> = Vec::new();
    let ghost before = *level;
    let count = level.len();
    let mut index: usize = 0;
    while index < count
        invariant
            index <= count,
            count == before.tiles@.len(),
            before.wf(),
            level.wf(),
            level.size == before.size,
            changed_over@ == before.spec_changed_over(delta, index as int),
            forall|pos: TilePos|
                before.contains(pos) && before.index_of(pos) < index ==> #[trigger] level.tile(pos)
                    == before.tile(pos).spec_tick_transition(delta).0,
            forall|pos: TilePos|
                before.contains(pos) && before.index_of(pos) >= index ==> #[trigger] level.tile(
                    pos,
                ) == before.tile(pos),
        decreases count - index,
    {
        let pos = level.position(index);
        let ghost entering = *level;
        let mut tile = level.tiles[index];
        assert(level.tile(pos) == before.tile(pos));
        match tile.tick_transition(delta) {
            Some(season_kind) => {
                changed_over.push(ChangedOver { pos, season_kind });
            },
            None => {},
        }
        level.set(pos, tile);
        proof {
            assert forall|other: TilePos|
                before.contains(other) && before.index_of(other) < index + 1 implies #[trigger] level.tile(
                other,
            ) == before.tile(other).spec_tick_transition(delta).0 by {
                if other != pos {
                    assert(level.tile(other) == entering.tile(other));
                    lemma_index(before.size, other);
                    lemma_index(before.size, pos);
                }
            }
            assert forall|other: TilePos|
                before.contains(other) && before.index_of(other) >= index + 1 implies #[trigger] level.tile(
                other,
            ) == before.tile(other) by {
                assert(level.tile(other) == entering.tile(other));
            }
        }
        index += 1;
    }
    proof {
        assert forall|pos: TilePos| before.contains(pos) implies before.index_of(pos) < count by {
            lemma_index(before.size, pos);
        }
    }
    changed_over
}

/// The tile that an action of the player would act on: the selected tile,
/// while the player may act.
pub open spec fn spec_target(season: Season, selected_tile: SelectedTile) -> Option<TilePos> {
    if season.spec_accepts_user_action() {
        selected_tile.0
    } else {
        None
    }
}

/// The tile, within the level, that an action of the player would act on.
fn target(season: &Season, level: &Level, selected_tile: &SelectedTile) -> (target: Option<
    TilePos,
>)
    ensures
        target == match spec_target(*season, *selected_tile) {
            Some(pos) => if level.contains(pos) {
                Some(pos)
            } else {
                None
            },
            None => None,
        },
{
    if season.accepts_user_action() {
        match selected_tile.0 {
            Some(pos) => if level.in_bounds(pos) {
                Some(pos)
            } else {
                None
            },
            None => None,
        }
    } else {
        None
    }
}

/// The tile on which the player can plant: the tile that the player's
/// action would act on, if it lies within the level and is empty.
pub open spec fn spec_planting(
    season: Season,
    level: &Level,
    selected_tile: SelectedTile,
) -> Option<TilePos> {
    match spec_target(season, selected_tile) {
        Some(pos) => if level.contains(pos) && level.tile(pos).tree is None {
            Some(pos)
        } else {
            None
        },
        None => None,
    }
}

/// The tree that the player's action would act on, with its tile.
pub open spec fn spec_target_tree(
    season: Season,
    level: &Level,
    selected_tile: SelectedTile,
) -> Option<(TilePos, TreeTile)> {
    match spec_target(season, selected_tile) {
        Some(pos) => match level.spec_get_occupant(pos) {
            Some(occupant) => Some((pos, occupant)),
            None => None,
        },
        None => None,
    }
}

/// The player's action in spring: planting.
///
/// While the player may act and has selected an empty tile of the level, a
/// seedling is asked for on that tile, to be paid for out of the budget,
/// and the selection is cleared. Otherwise nothing happens.
pub fn spring_user_action(
    season: &Season,
    level: &Level,
    selected_tile: &mut SelectedTile,
    spawn_tree_events: &mut Vec<SpawnTree>,
)
    requires
        level.wf(),
    ensures
        match spec_planting(*season, level, *old(selected_tile)) {
            Some(pos) => {
                &&& final(spawn_tree_events)@ == old(spawn_tree_events)@.push(
                    SpawnTree { tile_pos: pos, tree: Tree::Seedling, use_resource: true },
                )
                &&& final(selected_tile).0 is None
            },
            None => {
                &&& final(spawn_tree_events)@ == old(spawn_tree_events)@
                &&& *final(selected_tile) == *old(selected_tile)
            },
        },
{
    if let Some(pos) = target(season, level, selected_tile) {
        if let Some(tile) = level.get(pos) {
            if tile.tree.is_none() {
                spawn_tree_events.push(
                    SpawnTree { tile_pos: pos, tree: Tree::Seedling, use_resource: true },
                );
                selected_tile.0 = None;
            }
        }
    }
}

/// The player's action in summer: setting a tree on fire.
///
/// While the player may act and has selected a tile with a tree, fire is
/// scheduled for that tree, with a duration drawn from `rng` and in place
/// of whatever was scheduled for it, the whole budget is used up, and the
/// selection is cleared. Otherwise nothing happens.
pub fn summer_user_action(
    season: &mut Season,
    level: &mut Level,
    selected_tile: &mut SelectedTile,
    rng: &mut WyRand,
)
    requires
        old(level).wf(),
    ensures
        final(level).wf(),
        match spec_target_tree(*old(season), old(level), *old(selected_tile)) {
            Some((pos, _)) => {
                &&& final(level).is_change_of(old(level), pos, final(level).tile(pos))
                &&& scheduled_on(
                    old(level).tile(pos),
                    final(level).tile(pos),
                    TreeActionKind::Burning,
                )
                &&& *final(season) == (Season { user_action_resource: 0, ..*old(season) })
                &&& final(selected_tile).0 is None
            },
            None => {
                &&& final(level).same_as(old(level))
                &&& *final(season) == *old(season)
                &&& *final(selected_tile) == *old(selected_tile)
            },
        },
{
    if let Some(pos) = target(season, level, selected_tile) {
        if let Some(mut tile) = level.get(pos) {
            if tile.tree.is_some() {
                tile.set_action(Some(TreeAction::burning(rng)));
                level.set(pos, tile);
                season.user_action_resource = 0;
                selected_tile.0 = None;
            }
        }
    }
}

/// The request for a seedling that the wind carries to `landing`, if that
/// is a tile.
pub open spec fn spec_seed(landing: Option<TilePos>) -> Seq<SpawnTree> {
    match landing {
        Some(pos) => seq![SpawnTree { tile_pos: pos, tree: Tree::Seedling, use_resource: false }],
        None => Seq::empty(),
    }
}

/// The requests for the seedlings that a gust on the tree at `pos` brings:
/// one for each tile of the level exactly two tiles to the east, north,
/// west and south of `pos`, in that order, free of charge.
pub open spec fn spec_wind_seeds(level: &Level, pos: TilePos) -> Seq<SpawnTree> {
    spec_seed(level.spec_offset(pos, 2, 0)) + spec_seed(level.spec_offset(pos, 0, 2)) + spec_seed(
        level.spec_offset(pos, -2, 0),
    ) + spec_seed(level.spec_offset(pos, 0, -2))
}

/// Asks for a seedling, free of charge, where the wind lands, if that is a
/// tile.
fn seed(landing: Option<TilePos>, spawn_tree_events: &mut Vec<SpawnTree>)
    ensures
        final(spawn_tree_events)@ == old(spawn_tree_events)@ + spec_seed(landing),
{
    match landing {
        Some(pos) => {
            spawn_tree_events.push(
                SpawnTree { tile_pos: pos, tree: Tree::Seedling, use_resource: false },
            );
            assert(spawn_tree_events@ =~= old(spawn_tree_events)@ + spec_seed(landing));
        },
        None => {
            assert(spawn_tree_events@ =~= old(spawn_tree_events)@ + spec_seed(landing));
        },
    }
}

/// The player's action in autumn: a gust of wind on a tree that bears
/// seeds.
///
/// While the player may act and has selected a tile with a mature or
/// overmature tree, a seedling is asked for on each tile of the level
/// exactly two tiles away to the east, north, west and south, free of
/// charge, the whole budget is used up, and the selection is cleared.
/// Otherwise nothing happens.
pub fn autumn_user_action(
    season: &mut Season,
    level: &Level,
    selected_tile: &mut SelectedTile,
    spawn_tree_events: &mut Vec<SpawnTree>,
)
    requires
        level.wf(),
    ensures
        match spec_target_tree(*old(season), level, *old(selected_tile)) {
            Some((pos, occupant)) if occupant.tree.spec_is_grown_up() => {
                &&& final(spawn_tree_events)@ == old(spawn_tree_events)@ + spec_wind_seeds(
                    level,
                    pos,
                )
                &&& *final(season) == (Season { user_action_resource: 0, ..*old(season) })
                &&& final(selected_tile).0 is None
            },
            _ => {
                &&& final(spawn_tree_events)@ == old(spawn_tree_events)@
                &&& *final(season) == *old(season)
                &&& *final(selected_tile) == *old(selected_tile)
            },
        },
{
    if let Some(pos) = target(season, level, selected_tile) {
        if let Some(occupant) = level.get_occupant(pos) {
            if occupant.tree.is_grown_up() {
                seed(level.offset(pos, 2, 0), spawn_tree_events);
                seed(level.offset(pos, 0, 2), spawn_tree_events);
                seed(level.offset(pos, -2, 0), spawn_tree_events);
                seed(level.offset(pos, 0, -2), spawn_tree_events);
                assert(spawn_tree_events@ =~= old(spawn_tree_events)@ + spec_wind_seeds(
                    level,
                    pos,
                ));
                season.user_action_resource = 0;
                selected_tile.0 = None;
            }
        }
    }
}

/// What is left of a budget after a tree was sheltered: two less, and
/// nothing if there were not two.
pub open spec fn spec_after_shelter(resource: usize) -> usize {
    if resource >= 2 {
        (resource - 2) as usize
    } else {
        0
    }
}

/// The player's action in winter: sheltering a tree from the villagers.
///
/// While the player may act and has selected a tile with a tree, that tree
/// is sheltered, which keeps it from being felled this winter, two are
/// taken off the budget, and the selection is cleared. Otherwise nothing
/// happens.
pub fn winter_user_action(
    season: &mut Season,
    level: &mut Level,
    selected_tile: &mut SelectedTile,
)
    requires
        old(level).wf(),
    ensures
        final(level).wf(),
        match spec_target_tree(*old(season), old(level), *old(selected_tile)) {
            Some((pos, occupant)) => {
                &&& final(level).is_change_of(
                    old(level),
                    pos,
                    Tile {
                        tree: Some(TreeTile { bad_weather: true, ..occupant }),
                        ..old(level).tile(pos)
                    },
                )
                &&& *final(season) == (Season {
                    user_action_resource: spec_after_shelter(old(season).user_action_resource),
                    ..*old(season)
                })
                &&& final(selected_tile).0 is None
            },
            None => {
                &&& final(level).same_as(old(level))
                &&& *final(season) == *old(season)
                &&& *final(selected_tile) == *old(selected_tile)
            },
        },
{
    if let Some(pos) = target(season, level, selected_tile) {
        if let Some(mut tile) = level.get(pos) {
            if let Some(occupant) = tile.tree {
                tile.tree = Some(TreeTile { bad_weather: true, ..occupant });
                level.set(pos, tile);
                season.user_action_resource = if season.user_action_resource >= SHELTER_COST {
                    season.user_action_resource - SHELTER_COST
                } else {
                    0
                };
                selected_tile.0 = None;
            }
        }
    }
}

/// Whether the season, the level, the selection and the requests for
/// trees are what the player's action of a season of the given kind makes
/// of what they were before.
///
/// In spring the player plants, in summer sets fire, in autumn sends a
/// gust of wind, and in winter shelters a tree. An action that the player
/// may not take, or that has nothing to act on, changes nothing.
pub open spec fn is_user_action_of(
    kind: SeasonKind,
    season_before: Season,
    season: Season,
    level_before: &Level,
    level: &Level,
    selected_before: SelectedTile,
    selected: SelectedTile,
    spawned_before: Seq<SpawnTree>,
    spawned: Seq<SpawnTree>,
) -> bool {
    match kind {
        SeasonKind::Spring => {
            &&& season == season_before
            &&& level.same_as(level_before)
            &&& match spec_planting(season_before, level_before, selected_before) {
                Some(pos) => {
                    &&& spawned == spawned_before.push(
                        SpawnTree { tile_pos: pos, tree: Tree::Seedling, use_resource: true },
                    )
                    &&& selected.0 is None
                },
                None => spawned == spawned_before && selected == selected_before,
            }
        },
        SeasonKind::Summer => {
            &&& spawned == spawned_before
            &&& match spec_target_tree(season_before, level_before, selected_before) {
                Some((pos, _)) => {
                    &&& level.is_change_of(level_before, pos, level.tile(pos))
                    &&& scheduled_on(
                        level_before.tile(pos),
                        level.tile(pos),
                        TreeActionKind::Burning,
                    )
                    &&& season == (Season { user_action_resource: 0, ..season_before })
                    &&& selected.0 is None
                },
                None => {
                    &&& level.same_as(level_before)
                    &&& season == season_before
                    &&& selected == selected_before
                },
            }
        },
        SeasonKind::Autumn => {
            &&& level.same_as(level_before)
            &&& match spec_target_tree(season_before, level_before, selected_before) {
                Some((pos, occupant)) if occupant.tree.spec_is_grown_up() => {
                    &&& spawned == spawned_before + spec_wind_seeds(level_before, pos)
                    &&& season == (Season { user_action_resource: 0, ..season_before })
                    &&& selected.0 is None
                },
                _ => {
                    &&& spawned == spawned_before
                    &&& season == season_before
                    &&& selected == selected_before
                },
            }
        },
        SeasonKind::Winter => {
            &&& spawned == spawned_before
            &&& match spec_target_tree(season_before, level_before, selected_before) {
                Some((pos, occupant)) => {
                    &&& level.is_change_of(
                        level_before,
                        pos,
                        Tile {
                            tree: Some(TreeTile { bad_weather: true, ..occupant }),
                            ..level_before.tile(pos)
                        },
                    )
                    &&& season == (Season {
                        user_action_resource: spec_after_shelter(
                            season_before.user_action_resource,
                        ),
                        ..season_before
                    })
                    &&& selected.0 is None
                },
                None => {
                    &&& level.same_as(level_before)
                    &&& season == season_before
                    &&& selected == selected_before
                },
            }
        },
    }
}

impl SeasonKind {
    /// Carries out the player's action of a season of this kind.
    pub fn user_action(
        &self,
        season: &mut Season,
        level: &mut Level,
        selected_tile: &mut SelectedTile,
        spawn_tree_events: &mut Vec<SpawnTree>,
        rng: &mut WyRand,
    )
        requires
            old(level).wf(),
        ensures
            final(level).wf(),
            final(level).size == old(level).size,
            is_user_action_of(
                *self,
                *old(season),
                *final(season),
                old(level),
                final(level),
                *old(selected_tile),
                *final(selected_tile),
                old(spawn_tree_events)@,
                final(spawn_tree_events)@,
            ),
    {
        match self {
            SeasonKind::Spring => spring_user_action(
                season,
                level,
                selected_tile,
                spawn_tree_events,
            ),
            SeasonKind::Summer => summer_user_action(season, level, selected_tile, rng),
            SeasonKind::Autumn => autumn_user_action(
                season,
                level,
                selected_tile,
                spawn_tree_events,
            ),
            SeasonKind::Winter => winter_user_action(season, level, selected_tile),
        }
    }
}

} // verus!
