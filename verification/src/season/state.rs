//! The phases of a season and the passage from one to the next.

use bevy_prng::WyRand;
use vstd::prelude::*;

use crate::season::logic::{
    lemma_same_trees_same_density, scheduled_on, setup_felling, setup_growing,
    setup_overcrowd_dying, setup_seedling_dying, Setup, TreeActionKind,
};
use crate::season::{Season, SeasonKind, SeasonTransition, USER_ACTION_RESOURCE};
use crate::spawn::level::{lemma_index, Level, Tile, TilePos, TreeTile};
use crate::spawn::tree::Tree;
use crate::timer::Countdown;

verus! {

/// The time, in nanoseconds, by which the changeover of a tile is delayed
/// for each step that the tile lies away from the first one.
pub const TRANSITION_STEP_NANOS: u64 = 100_000_000;

/// The phase of a season. The player acts, then the forest lives through
/// the season, then the board changes over to the next season.
#[derive(Clone, Copy, Debug, PartialEq, Eq, Hash, Structural)]
pub enum SeasonState {
    UserInput,
    Simulation,
    Transition,
}

impl SeasonState {
    /// The phase that follows this one.
    pub open spec fn spec_next(self) -> SeasonState {
        match self {
            SeasonState::UserInput => SeasonState::Simulation,
            SeasonState::Simulation => SeasonState::Transition,
            SeasonState::Transition => SeasonState::UserInput,
        }
    }

    /// The phase that follows this one.
    pub fn next(&self) -> (next: Self)
        ensures
            next == self.spec_next(),
    {
        match self {
            SeasonState::UserInput => SeasonState::Simulation,
            SeasonState::Simulation => SeasonState::Transition,
            SeasonState::Transition => SeasonState::UserInput,
        }
    }
}

/// The request to enter a phase.
#[derive(Clone, Copy, Debug, PartialEq, Eq, Hash, Structural)]
pub struct NextSeasonState(pub SeasonState);

/// The action that is scheduled for a tree when a season starts to run,
/// given the density around the tree, if any is.
///
/// In spring and autumn trees with room grow and trees in a crowd die. In
/// summer trees with room grow and none dies. In winter seedlings die and
/// grown trees are felled unless they are sheltered.
pub open spec fn spec_setup(kind: SeasonKind, occupant: TreeTile, density: nat) -> Option<
    TreeActionKind,
> {
    match kind {
        SeasonKind::Spring | SeasonKind::Autumn => if Setup::Growing.spec_applies(
            occupant,
            density,
        ) {
            Some(TreeActionKind::Growing)
        } else if Setup::OvercrowdDying.spec_applies(occupant, density) {
            Some(TreeActionKind::Dying)
        } else {
            None
        },
        SeasonKind::Summer => if Setup::Growing.spec_applies(occupant, density) {
            Some(TreeActionKind::Growing)
        } else {
            None
        },
        SeasonKind::Winter => if Setup::SeedlingDying.spec_applies(occupant, density) {
            Some(TreeActionKind::Dying)
        } else if Setup::Felling.spec_applies(occupant, density) {
            Some(TreeActionKind::Felling)
        } else {
            None
        },
    }
}

/// How long the changeover of the tile at `pos` takes: a tenth of a second,
/// and a tenth more for each column and each row that the tile lies away
/// from the first one, so that the new season sweeps over the board.
pub open spec fn spec_transition_duration(pos: TilePos) -> nat {
    ((1 + pos.x + pos.y) * 100_000_000) as nat
}

/// How long, in nanoseconds, the changeover of the tile at `pos` takes.
pub fn transition_duration(pos: TilePos) -> (nanos: u64)
    ensures
        nanos == spec_transition_duration(pos),
{
    (1 + pos.x as u64 + pos.y as u64) * TRANSITION_STEP_NANOS
}

impl Level {
    /// Whether this level is `before` with the actions scheduled that the
    /// start of the run of a season of the given kind calls for.
    pub open spec fn is_set_up_of(&self, before: &Level, kind: SeasonKind) -> bool {
        &&& self.wf()
        &&& self.size == before.size
        &&& forall|pos: TilePos|
            before.contains(pos) ==> match before.tile(pos).tree {
                Some(occupant) => match spec_setup(
                    kind,
                    occupant,
                    before.spec_neighbor_level(pos),
                ) {
                    Some(action) => scheduled_on(
                        before.tile(pos),
                        #[trigger] self.tile(pos),
                        action,
                    ),
                    None => self.tile(pos) == before.tile(pos),
                },
                None => self.tile(pos) == before.tile(pos),
            }
    }

    /// Whether this level is `before` with the changeover to the given
    /// season started on every tile.
    pub open spec fn is_changing_over(&self, before: &Level, kind: SeasonKind) -> bool {
        &&& self.wf()
        &&& self.size == before.size
        &&& forall|pos: TilePos|
            before.contains(pos) ==> #[trigger] self.tile(pos) == (Tile {
                transition: Some(
                    SeasonTransition {
                        timer: Countdown {
                            duration: spec_transition_duration(pos) as u64,
                            elapsed: 0,
                            repeating: false,
                        },
                        season_kind: kind,
                    },
                ),
                ..before.tile(pos)
            })
    }

    /// Whether an action is scheduled for some tree of the level.
    pub open spec fn spec_has_action(&self) -> bool {
        exists|pos: TilePos| self.contains(pos) && (#[trigger] self.tile(pos)).spec_action() is Some
    }

    /// Whether some tile of the level is still changing over to a season.
    pub open spec fn spec_has_transition(&self) -> bool {
        exists|pos: TilePos| self.contains(pos) && (#[trigger] self.tile(pos)).transition is Some
    }

    /// Whether an action is scheduled for some tree of the level.
    pub fn has_action(&self) -> (busy: bool)
        requires
            self.wf(),
        ensures
            busy == self.spec_has_action(),
    {
        let count = self.len();
        let mut index: usize = 0;
        while index < count
            invariant
                index <= count,
                count == self.size.x * self.size.y,
                self.wf(),
                forall|pos: TilePos|
                    self.contains(pos) && self.index_of(pos) < index ==> (#[trigger] self.tile(
                        pos,
                    )).spec_action() is None,
            decreases count - index,
        {
            let pos = self.position(index);
            if self.tiles[index].action().is_some() {
                assert(self.tile(pos).spec_action() is Some);
                return true;
            }
            proof {
                assert forall|other: TilePos|
                    self.contains(other) && self.index_of(other) < index + 1 implies (
                #[trigger] self.tile(other)).spec_action() is None by {
                    if self.index_of(other) == index {
                        assert(self.tile(other) == self.tile(pos));
                    }
                }
            }
            index += 1;
        }
        proof {
            assert forall|pos: TilePos| self.contains(pos) implies self.index_of(pos) < count by {
                lemma_index(self.size, pos);
            }
        }
        false
    }

    /// Whether some tile of the level is still changing over to a season.
    pub fn has_transition(&self) -> (busy: bool)
        requires
            self.wf(),
        ensures
            busy == self.spec_has_transition(),
    {
        let count = self.len();
        let mut index: usize = 0;
        while index < count
            invariant
                index <= count,
                count == self.size.x * self.size.y,
                self.wf(),
                forall|pos: TilePos|
                    self.contains(pos) && self.index_of(pos) < index ==> (#[trigger] self.tile(
                        pos,
                    )).transition is None,
            decreases count - index,
        {
            let pos = self.position(index);
            if self.tiles[index].transition.is_some() {
                assert(self.tile(pos).transition is Some);
                return true;
            }
            proof {
                assert forall|other: TilePos|
                    self.contains(other) && self.index_of(other) < index + 1 implies (
                #[trigger] self.tile(other)).transition is None by {
                    if self.index_of(other) == index {
                        assert(self.tile(other) == self.tile(pos));
                    }
                }
            }
            index += 1;
        }
        proof {
            assert forall|pos: TilePos| self.contains(pos) implies self.index_of(pos) < count by {
                lemma_index(self.size, pos);
            }
        }
        false
    }
}

/// A sweep changes what is scheduled for trees and nothing about the trees
/// themselves.
pub proof fn lemma_sweep_keeps_trees(before: &Level, after: &Level, setup: Setup)
    requires
        after.is_swept(before, setup),
    ensures
        before.same_trees(after),
{
    assert forall|pos: TilePos| before.contains(pos) implies (#[trigger] before.tile(
        pos,
    )).spec_stage() == after.tile(pos).spec_stage() by {
        let _ = after.tile(pos);
    }
}

/// The two sweeps of spring and autumn, and the two of winter, never
/// schedule for the same tree: together they do what the season has in
/// store for every tree.
proof fn lemma_two_sweeps(
    before: &Level,
    between: &Level,
    after: &Level,
    kind: SeasonKind,
    first: Setup,
    second: Setup,
)
    requires
        between.is_swept(before, first),
        after.is_swept(between, second),
        kind != SeasonKind::Summer,
        kind == SeasonKind::Winter ==> first == Setup::SeedlingDying && second == Setup::Felling,
        kind != SeasonKind::Winter ==> first == Setup::Growing && second == Setup::OvercrowdDying,
    ensures
        after.is_set_up_of(before, kind),
{
    lemma_sweep_keeps_trees(before, between, first);
    assert forall|pos: TilePos| before.contains(pos) implies match before.tile(pos).tree {
        Some(occupant) => match spec_setup(kind, occupant, before.spec_neighbor_level(pos)) {
            Some(action) => scheduled_on(before.tile(pos), #[trigger] after.tile(pos), action),
            None => after.tile(pos) == before.tile(pos),
        },
        None => after.tile(pos) == before.tile(pos),
    } by {
        lemma_same_trees_same_density(before, between, pos);
        let _ = between.tile(pos);
    }
}

/// Starts the player's phase: the budget of actions is filled up.
pub fn setup_user_input(season: &mut Season)
    ensures
        *final(season) == (Season { user_action_resource: 4, ..*old(season) }),
{
    season.user_action_resource = USER_ACTION_RESOURCE;
}

/// Starts the run of a season of the given kind: schedules for every tree
/// what the season has in store for it.
pub fn setup_simulation(level: &mut Level, kind: SeasonKind, rng: &mut WyRand)
    requires
        old(level).wf(),
    ensures
        final(level).is_set_up_of(old(level), kind),
{
    let ghost before = *level;
    match kind {
        SeasonKind::Spring | SeasonKind::Autumn => {
            setup_growing(level, rng);
            let ghost between = *level;
            setup_overcrowd_dying(level, rng);
            proof {
                lemma_two_sweeps(
                    &before,
                    &between,
                    level,
                    kind,
                    Setup::Growing,
                    Setup::OvercrowdDying,
                );
            }
        },
        SeasonKind::Summer => {
            setup_growing(level, rng);
            proof {
                assert forall|pos: TilePos| before.contains(pos) implies match before.tile(
                    pos,
                ).tree {
                    Some(occupant) => match spec_setup(
                        kind,
                        occupant,
                        before.spec_neighbor_level(pos),
                    ) {
                        Some(action) => scheduled_on(
                            before.tile(pos),
                            #[trigger] level.tile(pos),
                            action,
                        ),
                        None => level.tile(pos) == before.tile(pos),
                    },
                    None => level.tile(pos) == before.tile(pos),
                } by {}
            }
        },
        SeasonKind::Winter => {
            setup_seedling_dying(level, rng);
            let ghost between = *level;
            setup_felling(level, rng);
            proof {
                lemma_two_sweeps(
                    &before,
                    &between,
                    level,
                    kind,
                    Setup::SeedlingDying,
                    Setup::Felling,
                );
            }
        },
    }
}

impl Season {
    /// The season when the changeover to the next one begins: the next
    /// kind of season, and the next year if that is a spring.
    pub open spec fn spec_changing_over(self) -> Season {
        Season {
            kind: self.kind.spec_next(),
            year: if self.kind == SeasonKind::Winter {
                (self.year + 1) as u32
            } else {
                self.year
            },
            ..self
        }
    }

    /// The season after what entering the given phase takes was done: the
    /// player's phase begins with a full budget, and the changeover moves
    /// the season on.
    pub open spec fn spec_set_up(self, state: SeasonState) -> Season {
        match state {
            SeasonState::UserInput => Season { user_action_resource: 4, ..self },
            SeasonState::Simulation => self,
            SeasonState::Transition => self.spec_changing_over(),
        }
    }

    /// The season after it has entered the given phase.
    pub open spec fn spec_entered(self, state: SeasonState) -> Season {
        (Season { state, ..self }).spec_set_up(state)
    }
}

/// Starts the changeover to the next season: the season advances by one
/// kind, the year by one when winter turns to spring, and every tile gets a
/// countdown after which it shows the new season.
pub fn setup_transition(season: &mut Season, level: &mut Level)
    requires
        old(level).wf(),
        old(season).kind == SeasonKind::Winter ==> old(season).year < u32::MAX,
    ensures
        *final(season) == old(season).spec_changing_over(),
        final(level).is_changing_over(old(level), final(season).kind),
{
    let next = season.kind.next();
    if matches!(next, SeasonKind::Spring) {
        season.year = season.year + 1;
    }
    season.kind = next;
    let ghost before = *level;
    let count = level.len();
    let mut index: usize = 0;
    while index < count
        invariant
            index <= count,
            count == before.size.x * before.size.y,
            before.wf(),
            level.wf(),
            level.size == before.size,
            forall|pos: TilePos|
                before.contains(pos) && before.index_of(pos) < index ==> #[trigger] level.tile(pos)
                    == (Tile {
                    transition: Some(
                        SeasonTransition {
                            timer: Countdown {
                                duration: spec_transition_duration(pos) as u64,
                                elapsed: 0,
                                repeating: false,
                            },
                            season_kind: next,
                        },
                    ),
                    ..before.tile(pos)
                }),
            forall|pos: TilePos|
                before.contains(pos) && before.index_of(pos) >= index ==> #[trigger] level.tile(
                    pos,
                ) == before.tile(pos),
        decreases count - index,
    {
        let pos = level.position(index);
        let ghost entering = *level;
        let mut tile = level.tiles[index];
        assert(level.tile(pos) == before.tile(pos));
        tile.transition = Some(
            SeasonTransition {
                timer: Countdown::new(transition_duration(pos), false),
                season_kind: next,
            },
        );
        level.set(pos, tile);
        proof {
            assert forall|other: TilePos|
                before.contains(other) && before.index_of(other) < index + 1 implies #[trigger] level.tile(
                other,
            ) == (Tile {
                transition: Some(
                    SeasonTransition {
                        timer: Countdown {
                            duration: spec_transition_duration(other) as u64,
                            elapsed: 0,
                            repeating: false,
                        },
                        season_kind: next,
                    },
                ),
                ..before.tile(other)
            }) by {
                if other != pos {
                    assert(level.tile(other) == entering.tile(other));
                    lemma_index(before.size, other);
                    lemma_index(before.size, pos);
                }
            }
            assert forall|other: TilePos|
                before.contains(other) && before.index_of(other) >= index + 1 implies #[trigger] level.tile(
                other,
            ) == before.tile(other) by {
                assert(level.tile(other) == entering.tile(other));
            }
        }
        index += 1;
    }
    proof {
        assert forall|pos: TilePos| before.contains(pos) implies before.index_of(pos) < count by {
            lemma_index(before.size, pos);
        }
    }
}

/// Whether the season and the level are what was to be done on entering the
/// given phase makes of what they were before.
///
/// Entering the player's phase fills up the budget. Entering the run of the
/// season schedules the season's actions. Entering the changeover advances
/// the season and starts the changeover of every tile.
pub open spec fn is_set_up(
    state: SeasonState,
    season_before: Season,
    season: Season,
    level_before: &Level,
    level: &Level,
) -> bool {
    &&& season == season_before.spec_set_up(state)
    &&& match state {
        SeasonState::UserInput => level.same_as(level_before),
        SeasonState::Simulation => level.is_set_up_of(level_before, season_before.kind),
        SeasonState::Transition => level.is_changing_over(level_before, season.kind),
    }
}

/// Whether the season and the level are what entering the given phase
/// makes of what they were before: the season is in that phase, and what
/// was to be done on entering it is done.
pub open spec fn is_entered(
    state: SeasonState,
    season_before: Season,
    season: Season,
    level_before: &Level,
    level: &Level,
) -> bool {
    is_set_up(state, Season { state, ..season_before }, season, level_before, level)
}

impl SeasonState {
    /// Does what is to be done on entering this phase.
    pub fn setup(&self, season: &mut Season, level: &mut Level, rng: &mut WyRand)
        requires
            old(level).wf(),
            *self == SeasonState::Transition && old(season).kind == SeasonKind::Winter ==> old(
                season,
            ).year < u32::MAX,
        ensures
            final(level).wf(),
            is_set_up(*self, *old(season), *final(season), old(level), final(level)),
    {
        match self {
            SeasonState::UserInput => setup_user_input(season),
            SeasonState::Simulation => setup_simulation(level, season.kind, rng),
            SeasonState::Transition => setup_transition(season, level),
        }
    }
}

/// Enters the phase that was asked for.
pub fn handle_next_season_state(
    event: NextSeasonState,
    season: &mut Season,
    level: &mut Level,
    rng: &mut WyRand,
)
    requires
        old(level).wf(),
        event.0 == SeasonState::Transition && old(season).kind == SeasonKind::Winter ==> old(
            season,
        ).year < u32::MAX,
    ensures
        final(level).wf(),
        final(level).size == old(level).size,
        is_entered(event.0, *old(season), *final(season), old(level), final(level)),
{
    season.state = event.0;
    let state = season.state;
    state.setup(season, level, rng);
}

/// The latch that ends a phase: whether it has seen work, and whether the
/// phase is over, given whether it had seen work before and whether there
/// is work now.
///
/// A phase is over when work was seen and none is left. A phase in which
/// no work was ever seen does not end by itself.
pub open spec fn spec_latch(looking: bool, busy: bool) -> (bool, bool) {
    if looking && !busy {
        (false, true)
    } else {
        (looking || busy, false)
    }
}

/// Lets the latch look: it remembers whether it has seen work, and tells
/// whether the phase is over.
pub fn latch(looking: &mut bool, busy: bool) -> (over: bool)
    ensures
        (*final(looking), over) == spec_latch(*old(looking), busy),
{
    if *looking && !busy {
        *looking = false;
        true
    } else {
        if busy {
            *looking = true;
        }
        false
    }
}

/// Ends the run of the season when actions were seen on the board and none
/// is left: asks for the changeover. Outside the run of a season nothing
/// happens.
pub fn to_transition(
    season: &Season,
    level: &Level,
    looking: &mut bool,
    next_season_state_events: &mut Vec<NextSeasonState>,
)
    requires
        level.wf(),
    ensures
        if season.state == SeasonState::Simulation {
            &&& *final(looking) == spec_latch(*old(looking), level.spec_has_action()).0
            &&& final(next_season_state_events)@ == if spec_latch(
                *old(looking),
                level.spec_has_action(),
            ).1 {
                old(next_season_state_events)@.push(NextSeasonState(SeasonState::Transition))
            } else {
                old(next_season_state_events)@
            }
        } else {
            &&& *final(looking) == *old(looking)
            &&& final(next_season_state_events)@ == old(next_season_state_events)@
        },
{
    if matches!(season.state, SeasonState::Simulation) {
        let busy = level.has_action();
        if latch(looking, busy) {
            next_season_state_events.push(NextSeasonState(season.state.next()));
        }
    }
}

/// Ends the changeover when changing tiles were seen on the board and none
/// is left: asks for the player's phase. Outside the changeover nothing
/// happens.
pub fn to_user_input(
    season: &Season,
    level: &Level,
    looking: &mut bool,
    next_season_state_events: &mut Vec<NextSeasonState>,
)
    requires
        level.wf(),
    ensures
        if season.state == SeasonState::Transition {
            &&& *final(looking) == spec_latch(*old(looking), level.spec_has_transition()).0
            &&& final(next_season_state_events)@ == if spec_latch(
                *old(looking),
                level.spec_has_transition(),
            ).1 {
                old(next_season_state_events)@.push(NextSeasonState(SeasonState::UserInput))
            } else {
                old(next_season_state_events)@
            }
        } else {
            &&& *final(looking) == *old(looking)
            &&& final(next_season_state_events)@ == old(next_season_state_events)@
        },
{
    if matches!(season.state, SeasonState::Transition) {
        let busy = level.has_transition();
        if latch(looking, busy) {
            next_season_state_events.push(NextSeasonState(season.state.next()));
        }
    }
}

/// The phases follow each other in a fixed round of three.
pub proof fn lemma_phases_cycle(state: SeasonState)
    ensures
        state.spec_next() != state,
        state.spec_next().spec_next() != state,
        state.spec_next().spec_next().spec_next() == state,
        SeasonState::UserInput.spec_next() == SeasonState::Simulation,
        SeasonState::Simulation.spec_next() == SeasonState::Transition,
        SeasonState::Transition.spec_next() == SeasonState::UserInput,
{
}

/// One round of the three phases, from the player's phase back to it, moves
/// the season on by exactly one kind, fills up the budget, and moves the
/// year on by one exactly when winter turns to spring.
pub proof fn lemma_season_round(season: Season)
    requires
        season.state == SeasonState::UserInput,
        season.year < u32::MAX,
    ensures
        ({
            let running = season.spec_entered(season.state.spec_next());
            let changing = running.spec_entered(running.state.spec_next());
            let waiting = changing.spec_entered(changing.state.spec_next());
            &&& running.state == SeasonState::Simulation
            &&& running.kind == season.kind
            &&& running.year == season.year
            &&& changing.state == SeasonState::Transition
            &&& changing.kind == season.kind.spec_next()
            &&& waiting.state == SeasonState::UserInput
            &&& waiting.kind == season.kind.spec_next()
            &&& waiting.user_action_resource == 4
            &&& waiting.year == if season.kind == SeasonKind::Winter {
                season.year + 1
            } else {
                season.year as int
            }
        }),
{
}

/// The latch does not end a phase in which it has not seen work, and once
/// it has seen work it ends the phase as soon as none is left.
pub proof fn lemma_latch(looking: bool, busy: bool)
    ensures
        spec_latch(looking, busy).1 ==> looking && !busy,
        !looking && !busy ==> spec_latch(looking, busy) == (false, false),
        busy ==> spec_latch(looking, busy) == (true, false),
        spec_latch(spec_latch(looking, true).0, false).1,
{
}

/// The density around a tree decides what spring and autumn have in store
/// for it, as long as nothing is scheduled for it yet: with a density of
/// two or less it grows, unless it is overmature, with five or more it
/// dies, and with three or four neither happens.
pub proof fn lemma_density_decides(kind: SeasonKind, occupant: TreeTile, density: nat)
    requires
        kind == SeasonKind::Spring || kind == SeasonKind::Autumn,
        occupant.action is None,
    ensures
        density <= 2 && occupant.tree != Tree::Overmature ==> spec_setup(kind, occupant, density)
            == Some(TreeActionKind::Growing),
        density <= 2 && occupant.tree == Tree::Overmature ==> spec_setup(kind, occupant, density)
            is None,
        3 <= density <= 4 ==> spec_setup(kind, occupant, density) is None,
        density >= 5 ==> spec_setup(kind, occupant, density) == Some(TreeActionKind::Dying),
{
}

/// In summer no tree dies, whatever the density around it, and in no
/// season does anything new come to a tree in spring, summer or autumn for
/// which something is scheduled already.
pub proof fn lemma_summer_and_scheduled_trees(kind: SeasonKind, occupant: TreeTile, density: nat)
    ensures
        spec_setup(SeasonKind::Summer, occupant, density) != Some(TreeActionKind::Dying),
        kind != SeasonKind::Winter && occupant.action is Some ==> spec_setup(
            kind,
            occupant,
            density,
        ) is None,
{
}

/// In winter every seedling dies, every mature or overmature tree is
/// felled unless it is sheltered, and nothing comes to the other trees.
pub proof fn lemma_winter(occupant: TreeTile, density: nat)
    ensures
        spec_setup(SeasonKind::Winter, occupant, density) == match occupant.tree {
            Tree::Seedling => Some(TreeActionKind::Dying),
            Tree::Immature => None,
            Tree::Mature | Tree::Overmature => if occupant.bad_weather {
                None
            } else {
                Some(TreeActionKind::Felling)
            },
        },
{
}

/// A season has work to show for as soon as one tree has something in
/// store: once the run of the season is set up, an action is scheduled on
/// the board, so that the latch that ends the run will see it.
pub proof fn lemma_eligible_tree_gives_work(
    before: &Level,
    level: &Level,
    kind: SeasonKind,
    pos: TilePos,
)
    requires
        level.is_set_up_of(before, kind),
        before.contains(pos),
        before.tile(pos).tree matches Some(occupant) && (spec_setup(
            kind,
            occupant,
            before.spec_neighbor_level(pos),
        ) is Some || occupant.action is Some),
    ensures
        level.spec_has_action(),
{
    assert(level.contains(pos));
    assert(level.tile(pos).spec_action() is Some);
}

/// A changeover always has work to show for on a board with at least one
/// tile: once it has begun, every tile is changing over.
pub proof fn lemma_changeover_gives_work(
    before: &Level,
    level: &Level,
    kind: SeasonKind,
    pos: TilePos,
)
    requires
        level.is_changing_over(before, kind),
        before.contains(pos),
    ensures
        level.spec_has_transition(),
{
    assert(level.contains(pos));
    assert(level.tile(pos).transition is Some);
}

} // verus!
