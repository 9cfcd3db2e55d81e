//! The state of a game in play and the step that moves it on in time.

use bevy_prng::WyRand;
use vstd::prelude::*;

use crate::season::logic::{handle_tree_action, is_effect_of, Due};
use crate::season::state::{
    handle_next_season_state, is_entered, spec_latch, to_transition, to_user_input,
    NextSeasonState, SeasonState,
};
use crate::season::{handle_transition, is_user_action_of, ChangedOver, Season, LAST_YEAR};
use crate::spawn::level::{spawn_level, Level, SelectedTile, TilePos, TilemapSize};
use crate::spawn::tree::{
    despawn_tree, spawn_tree, spec_spawn_all, spec_unique, DespawnTree, SpawnTree,
};
use crate::ui::{handle_season_action, is_season_action_of, start_season};

verus! {

/// The points that the player has gathered.
#[derive(Clone, Copy, Debug, PartialEq, Eq)]
pub struct Score(pub usize);

impl Default for Score {
    fn default() -> (score: Self)
        ensures
            score.0 == 0,
    {
        Score(0)
    }
}

/// The game is over when the last year has come.
pub fn game_over(season: &Season) -> (over: bool)
    ensures
        over == (season.year == 3),
{
    season.year == LAST_YEAR
}

/// Whether a level, taken with a score and with requests to take trees off
/// the board, is well formed.
pub open spec fn board_wf(board: (Level, Score, Seq<DespawnTree>)) -> bool {
    board.0.wf()
}

/// Whether a level, taken with a season, is well formed.
pub open spec fn calendar_wf(calendar: (Season, Level)) -> bool {
    calendar.1.wf()
}

/// Whether the level, the score and the requests to take trees off the
/// board are what the effects of the given actions, carried out one after
/// the other, make of what they were before.
pub open spec fn effects_applied(
    due: Seq<Due>,
    level_before: &Level,
    level: &Level,
    score_before: Score,
    score: Score,
    despawned_before: Seq<DespawnTree>,
    despawned: Seq<DespawnTree>,
) -> bool
    decreases due.len(),
{
    if due.len() == 0 {
        &&& level.same_as(level_before)
        &&& score == score_before
        &&& despawned == despawned_before
    } else {
        exists|between: (Level, Score, Seq<DespawnTree>)|
            {
                &&& #[trigger] board_wf(between)
                &&& effects_applied(
                    due.drop_last(),
                    level_before,
                    &between.0,
                    score_before,
                    between.1,
                    despawned_before,
                    between.2,
                )
                &&& is_effect_of(
                    due.last().kind,
                    due.last().pos,
                    &between.0,
                    level,
                    between.1,
                    score,
                    between.2,
                    despawned,
                )
            }
    }
}

/// Whether the season and the level are what entering the phases that were
/// asked for, one after the other, makes of what they were before.
pub open spec fn phases_entered(
    events: Seq<NextSeasonState>,
    season_before: Season,
    season: Season,
    level_before: &Level,
    level: &Level,
) -> bool
    decreases events.len(),
{
    if events.len() == 0 {
        season == season_before && level.same_as(level_before)
    } else {
        exists|between: (Season, Level)|
            {
                &&& #[trigger] calendar_wf(between)
                &&& phases_entered(
                    events.drop_last(),
                    season_before,
                    between.0,
                    level_before,
                    &between.1,
                )
                &&& is_entered(events.last().0, between.0, season, &between.1, level)
            }
    }
}

/// A game in play: the board, the season, the score, what the player has
/// selected, and the requests that wait to be carried out.
#[derive(Clone, Debug, PartialEq, Eq)]
pub struct Game {
    pub level: Level,
    pub season: Season,
    pub score: Score,
    pub selected_tile: SelectedTile,
    pub spawn_tree_events: Vec<SpawnTree>,
    pub despawn_tree_events: Vec<DespawnTree>,
    pub next_season_state_events: Vec<NextSeasonState>,
    /// Whether scheduled actions were seen since the run of the season
    /// began.
    pub simulation_seen: bool,
    /// Whether changing tiles were seen since the changeover began.
    pub transition_seen: bool,
}

impl Game {
    /// A game is well formed when its level is.
    pub open spec fn wf(&self) -> bool {
        self.level.wf()
    }

    /// Whether the counters have room for one step in time: the score for
    /// the felling of every tree on the board, and the year for every
    /// changeover that is or may be asked for.
    pub open spec fn has_room(&self) -> bool {
        &&& self.score.0 + 18 * self.level.tiles@.len() <= usize::MAX
        &&& self.season.year + self.next_season_state_events@.len() + 1 <= u32::MAX
    }

    /// The actions whose time comes within the next `delta` nanoseconds:
    /// while the season runs, those of the level, and else none.
    pub open spec fn spec_due(&self, delta: u64) -> Seq<Due> {
        if self.season.state == SeasonState::Simulation {
            self.level.spec_due(delta, self.level.tiles@.len() as int)
        } else {
            Seq::empty()
        }
    }

    /// Whether this game is `before` after `delta` nanoseconds have passed
    /// for the scheduled actions and the effects of those that came due
    /// were carried out, row by row.
    pub open spec fn is_after_actions(&self, before: &Game, delta: u64) -> bool {
        &&& self.wf()
        &&& self.level.size == before.level.size
        &&& self.season == before.season
        &&& self.selected_tile == before.selected_tile
        &&& self.spawn_tree_events@ == before.spawn_tree_events@
        &&& self.next_season_state_events@ == before.next_season_state_events@
        &&& self.simulation_seen == before.simulation_seen
        &&& self.transition_seen == before.transition_seen
        &&& exists|ticked: Level|
            {
                &&& ticked.wf()
                &&& if before.season.state == SeasonState::Simulation {
                    ticked.is_tick_of(&before.level, delta)
                } else {
                    ticked.same_as(&before.level)
                }
                &&& #[trigger] effects_applied(
                    before.spec_due(delta),
                    &ticked,
                    &self.level,
                    before.score,
                    self.score,
                    before.despawn_tree_events@,
                    self.despawn_tree_events@,
                )
            }
    }

    /// Whether this game is `before` after the waiting requests to take
    /// trees off the board and then those to put trees on it were carried
    /// out.
    pub open spec fn is_after_events(&self, before: &Game) -> bool {
        &&& self.wf()
        &&& self.level.size == before.level.size
        &&& self.score == before.score
        &&& self.selected_tile == before.selected_tile
        &&& self.next_season_state_events@ == before.next_season_state_events@
        &&& self.simulation_seen == before.simulation_seen
        &&& self.transition_seen == before.transition_seen
        &&& self.spawn_tree_events@ == Seq::<SpawnTree>::empty()
        &&& self.despawn_tree_events@ == Seq::<DespawnTree>::empty()
        &&& self.season.year == before.season.year
        &&& self.season.state == before.season.state
        &&& self.season.kind == before.season.kind
        &&& exists|cleared: Level|
            {
                &&& #[trigger] cleared.is_despawn_of(&before.level, before.despawn_tree_events@)
                &&& (self.level.tiles@, self.season.user_action_resource as nat) == spec_spawn_all(
                    cleared.tiles@,
                    cleared.size,
                    before.season.user_action_resource as nat,
                    spec_unique(before.spawn_tree_events@),
                )
            }
    }

    /// The requests to enter a phase that wait after the two latches have
    /// looked at the board.
    pub open spec fn spec_phase_requests(&self) -> Seq<NextSeasonState> {
        let waiting = self.next_season_state_events@;
        if self.season.state == SeasonState::Simulation && spec_latch(
            self.simulation_seen,
            self.level.spec_has_action(),
        ).1 {
            waiting.push(NextSeasonState(SeasonState::Transition))
        } else if self.season.state == SeasonState::Transition && spec_latch(
            self.transition_seen,
            self.level.spec_has_transition(),
        ).1 {
            waiting.push(NextSeasonState(SeasonState::UserInput))
        } else {
            waiting
        }
    }

    /// Whether this game is `before` after `delta` nanoseconds have passed
    /// for the tiles that are changing over, the two latches have looked at
    /// the board, and the phases that were asked for have been entered.
    pub open spec fn is_after_phases(&self, before: &Game, delta: u64) -> bool {
        &&& self.wf()
        &&& self.level.size == before.level.size
        &&& self.score == before.score
        &&& self.selected_tile == before.selected_tile
        &&& self.spawn_tree_events@ == before.spawn_tree_events@
        &&& self.despawn_tree_events@ == before.despawn_tree_events@
        &&& self.next_season_state_events@ == Seq::<NextSeasonState>::empty()
        &&& exists|changed: Game|
            {
                &&& changed.wf()
                &&& changed.level.is_transition_tick_of(&before.level, delta)
                &&& changed.season == before.season
                &&& changed.next_season_state_events@ == before.next_season_state_events@
                &&& changed.simulation_seen == before.simulation_seen
                &&& changed.transition_seen == before.transition_seen
                &&& self.simulation_seen == if changed.season.state == SeasonState::Simulation {
                    spec_latch(changed.simulation_seen, changed.level.spec_has_action()).0
                } else {
                    changed.simulation_seen
                }
                &&& self.transition_seen == if changed.season.state == SeasonState::Transition {
                    spec_latch(changed.transition_seen, changed.level.spec_has_transition()).0
                } else {
                    changed.transition_seen
                }
                &&& #[trigger] phases_entered(
                    changed.spec_phase_requests(),
                    changed.season,
                    self.season,
                    &changed.level,
                    &self.level,
                )
            }
    }

    /// Whether this game is `before` one step of `delta` nanoseconds later:
    /// after the scheduled actions, then the waiting requests for trees,
    /// then the phases of the season have had their turn.
    ///
    /// The tiles in `changed_over` are those that have completed their
    /// changeover to a season in this step, row by row.
    pub open spec fn is_tick_of(
        &self,
        before: &Game,
        delta: u64,
        changed_over: Seq<ChangedOver>,
    ) -> bool {
        exists|acted: Game, settled: Game|
            {
                &&& #[trigger] acted.is_after_actions(before, delta)
                &&& #[trigger] settled.is_after_events(&acted)
                &&& self.is_after_phases(&settled, delta)
                &&& changed_over == settled.level.spec_changed_over(
                    delta,
                    settled.level.tiles@.len() as int,
                )
            }
    }

    /// Whether the game is well formed and its counters have room for one
    /// step in time.
    pub fn is_ready(&self) -> (ready: bool)
        ensures
            ready == (self.wf() && self.has_room()),
    {
        let tiles: u128 = self.level.tiles.len() as u128;
        let asked: u128 = self.next_season_state_events.len() as u128;
        self.level.is_well_formed() && self.score.0 as u128 + 18 * tiles <= usize::MAX as u128
            && self.season.year as u128 + asked + 1 <= u32::MAX as u128
    }

    /// A new game: the first spring of the first year on the starting
    /// level, with no points, nothing selected and nothing waiting.
    pub fn new() -> (game: Self)
        ensures
            game.wf(),
            game.has_room(),
            game.level.is_start(),
            game.season == (Season {
                year: 0,
                state: SeasonState::UserInput,
                kind: crate::season::SeasonKind::Spring,
                user_action_resource: 4,
            }),
            game.score.0 == 0,
            game.selected_tile.0 is None,
            game.spawn_tree_events@.len() == 0,
            game.despawn_tree_events@.len() == 0,
            game.next_season_state_events@.len() == 0,
            !game.simulation_seen,
            !game.transition_seen,
    {
        Self::with_level(spawn_level())
    }

    /// A new game on the given level.
    pub fn with_level(level: Level) -> (game: Self)
        requires
            level.wf(),
        ensures
            game.wf(),
            game.level == level,
            game.season == (Season {
                year: 0,
                state: SeasonState::UserInput,
                kind: crate::season::SeasonKind::Spring,
                user_action_resource: 4,
            }),
            game.score.0 == 0,
            game.selected_tile.0 is None,
            game.spawn_tree_events@.len() == 0,
            game.despawn_tree_events@.len() == 0,
            game.next_season_state_events@.len() == 0,
            !game.simulation_seen,
            !game.transition_seen,
    {
        Game {
            level,
            season: Season::default(),
            score: Score::default(),
            selected_tile: SelectedTile(None),
            spawn_tree_events: Vec::new(),
            despawn_tree_events: Vec::new(),
            next_season_state_events: Vec::new(),
            simulation_seen: false,
            transition_seen: false,
        }
    }

    /// The player selects a tile, or nothing.
    pub fn select(&mut self, pos: Option<TilePos>)
        ensures
            final(self).selected_tile.0 == pos,
            final(self).level == old(self).level,
            final(self).season == old(self).season,
            final(self).score == old(self).score,
            final(self).spawn_tree_events == old(self).spawn_tree_events,
            final(self).despawn_tree_events == old(self).despawn_tree_events,
            final(self).next_season_state_events == old(self).next_season_state_events,
            final(self).simulation_seen == old(self).simulation_seen,
            final(self).transition_seen == old(self).transition_seen,
    {
        self.selected_tile = SelectedTile(pos);
    }

    /// Lets `delta` nanoseconds pass for the scheduled actions and carries
    /// out the effects of those whose time has come, row by row.
    pub fn run_actions(&mut self, delta: u64, rng: &mut WyRand)
        requires
            old(self).wf(),
            old(self).score.0 + 18 * old(self).level.tiles@.len() <= usize::MAX,
        ensures
            final(self).is_after_actions(old(self), delta),
    {
        let ghost before = *self;
        let due = handle_tree_action(&mut self.level, &self.season, delta);
        let ghost ticked = self.level;
        proof {
            if before.season.state == SeasonState::Simulation {
                lemma_due_is_bounded(&before.level, delta, before.level.tiles@.len() as int);
            }
        }
        let mut index: usize = 0;
        while index < due.len()
            invariant
                index <= due.len(),
                self.wf(),
                ticked.wf(),
                self.level.size == ticked.size,
                self.score.0 + 18 * (due.len() - index) <= usize::MAX,
                self.season == before.season,
                self.selected_tile == before.selected_tile,
                self.spawn_tree_events@ == before.spawn_tree_events@,
                self.next_season_state_events@ == before.next_season_state_events@,
                self.simulation_seen == before.simulation_seen,
                self.transition_seen == before.transition_seen,
                effects_applied(
                    due@.take(index as int),
                    &ticked,
                    &self.level,
                    before.score,
                    self.score,
                    before.despawn_tree_events@,
                    self.despawn_tree_events@,
                ),
            decreases due.len() - index,
        {
            let Due { pos, kind } = due[index];
            let ghost entering = *self;
            proof {
                lemma_fell_gain_is_bounded(&self.level, pos);
            }
            kind.trigger(
                pos,
                &mut self.level,
                &mut self.score,
                &mut self.despawn_tree_events,
                rng,
            );
            proof {
                let done = due@.take(index + 1);
                assert(done.drop_last() == due@.take(index as int));
                assert(done.last() == due@[index as int]);
                assert(board_wf(
                    (entering.level, entering.score, entering.despawn_tree_events@),
                ));
            }
            index += 1;
        }
        proof {
            assert(due@.take(index as int) == due@);
            assert(due@ == before.spec_due(delta));
            assert(effects_applied(
                before.spec_due(delta),
                &ticked,
                &self.level,
                before.score,
                self.score,
                before.despawn_tree_events@,
                self.despawn_tree_events@,
            ));
        }
    }

    /// Carries out the waiting requests to take trees off the board, and
    /// then those to put trees on it.
    pub fn apply_events(&mut self)
        requires
            old(self).wf(),
        ensures
            final(self).is_after_events(old(self)),
    {
        despawn_tree(&mut self.level, &mut self.despawn_tree_events);
        let ghost cleared = self.level;
        spawn_tree(&mut self.level, &mut self.season, &mut self.spawn_tree_events);
        proof {
            assert(cleared.is_despawn_of(&old(self).level, old(self).despawn_tree_events@));
        }
    }

    /// Lets `delta` nanoseconds pass for the tiles that are changing over
    /// to a season, lets the two latches look at the board, and enters the
    /// phases that were asked for. Returns the tiles that have completed
    /// their changeover.
    pub fn advance_phase(&mut self, delta: u64, rng: &mut WyRand) -> (changed_over: Vec<
        ChangedOver,
    >)
        requires
            old(self).wf(),
            old(self).season.year + old(self).next_season_state_events@.len() + 1 <= u32::MAX,
        ensures
            final(self).is_after_phases(old(self), delta),
            changed_over@ == old(self).level.spec_changed_over(
                delta,
                old(self).level.tiles@.len() as int,
            ),
    {
        let changed_over = handle_transition(&mut self.level, delta);
        let ghost changed = *self;
        to_transition(
            &self.season,
            &self.level,
            &mut self.simulation_seen,
            &mut self.next_season_state_events,
        );
        to_user_input(
            &self.season,
            &self.level,
            &mut self.transition_seen,
            &mut self.next_season_state_events,
        );
        assert(self.next_season_state_events@ == changed.spec_phase_requests());
        let ghost requests = self.next_season_state_events@;
        let ghost latched = *self;
        let mut index: usize = 0;
        while index < self.next_season_state_events.len()
            invariant
                index <= self.next_season_state_events@.len(),
                self.simulation_seen == latched.simulation_seen,
                self.transition_seen == latched.transition_seen,
                self.next_season_state_events@ == requests,
                self.wf(),
                changed.wf(),
                self.level.size == changed.level.size,
                self.season.year + (requests.len() - index) <= u32::MAX,
                self.score == changed.score,
                self.selected_tile == changed.selected_tile,
                self.spawn_tree_events@ == changed.spawn_tree_events@,
                self.despawn_tree_events@ == changed.despawn_tree_events@,
                phases_entered(
                    requests.take(index as int),
                    changed.season,
                    self.season,
                    &changed.level,
                    &self.level,
                ),
            decreases requests.len() - index,
        {
            let event = self.next_season_state_events[index];
            let ghost entering = *self;
            handle_next_season_state(event, &mut self.season, &mut self.level, rng);
            proof {
                let done = requests.take(index + 1);
                assert(done.drop_last() == requests.take(index as int));
                assert(done.last() == event);
                assert(calendar_wf((entering.season, entering.level)));
            }
            index += 1;
        }
        proof {
            assert(requests.take(index as int) == requests);
            assert(phases_entered(
                changed.spec_phase_requests(),
                changed.season,
                self.season,
                &changed.level,
                &self.level,
            ));
        }
        self.next_season_state_events.clear();
        proof {
            assert(changed.level.is_transition_tick_of(&old(self).level, delta));
            assert(phases_entered(
                changed.spec_phase_requests(),
                changed.season,
                self.season,
                &changed.level,
                &self.level,
            ));
        }
        changed_over
    }

    /// Moves the game on by `delta` nanoseconds: the scheduled actions have
    /// their turn, then the waiting requests for trees, then the phases of
    /// the season. Returns the tiles that have changed over to a season.
    pub fn tick(&mut self, delta: u64, rng: &mut WyRand) -> (changed_over: Vec<ChangedOver>)
        requires
            old(self).wf(),
            old(self).has_room(),
        ensures
            final(self).wf(),
            final(self).level.size == old(self).level.size,
            final(self).is_tick_of(old(self), delta, changed_over@),
    {
        self.run_actions(delta, rng);
        let ghost acted = *self;
        self.apply_events();
        let ghost settled = *self;
        let changed_over = self.advance_phase(delta, rng);
        proof {
            assert(acted.is_after_actions(old(self), delta));
            assert(settled.is_after_events(&acted));
        }
        changed_over
    }

    /// Moves the game on by `delta` nanoseconds if it is well formed and its
    /// counters have room for the step, and returns the tiles that have
    /// changed over to a season. Otherwise the game stays as it is and
    /// nothing is returned.
    pub fn try_tick(&mut self, delta: u64, rng: &mut WyRand) -> (changed_over: Option<
        Vec<ChangedOver>,
    >)
        ensures
            match changed_over {
                Some(changed_over) => {
                    &&& old(self).wf()
                    &&& old(self).has_room()
                    &&& final(self).wf()
                    &&& final(self).is_tick_of(old(self), delta, changed_over@)
                },
                None => {
                    &&& !(old(self).wf() && old(self).has_room())
                    &&& *final(self) == *old(self)
                },
            },
    {
        if self.is_ready() {
            Some(self.tick(delta, rng))
        } else {
            None
        }
    }

    /// The player starts the run of the season, whatever is left of the
    /// budget. The season starts to run with the next step in time.
    pub fn start(&mut self)
        ensures
            final(self).next_season_state_events@ == if old(self).season.state
                == SeasonState::UserInput {
                old(self).next_season_state_events@.push(
                    NextSeasonState(SeasonState::Simulation),
                )
            } else {
                old(self).next_season_state_events@
            },
            final(self).level == old(self).level,
            final(self).season == old(self).season,
            final(self).score == old(self).score,
            final(self).selected_tile == old(self).selected_tile,
            final(self).spawn_tree_events == old(self).spawn_tree_events,
            final(self).despawn_tree_events == old(self).despawn_tree_events,
            final(self).simulation_seen == old(self).simulation_seen,
            final(self).transition_seen == old(self).transition_seen,
    {
        start_season(&self.season, &mut self.next_season_state_events);
    }

    /// Whether this game is `before` after a press of the button of the
    /// season, with what the press asks for on the board carried out at
    /// once.
    pub open spec fn is_press_of(&self, before: &Game) -> bool {
        exists|pressed: Game|
            {
                &&& pressed.wf()
                &&& pressed.level.size == before.level.size
                &&& pressed.score == before.score
                &&& pressed.despawn_tree_events@ == before.despawn_tree_events@
                &&& pressed.simulation_seen == before.simulation_seen
                &&& pressed.transition_seen == before.transition_seen
                &&& is_season_action_of(
                    before.season,
                    pressed.season,
                    &before.level,
                    &pressed.level,
                    before.selected_tile,
                    pressed.selected_tile,
                    before.spawn_tree_events@,
                    pressed.spawn_tree_events@,
                    before.next_season_state_events@,
                    pressed.next_season_state_events@,
                )
                &&& #[trigger] self.is_after_events(&pressed)
            }
    }

    /// The player presses the button of the season, and what the press
    /// asks for on the board is carried out at once, so that the budget is
    /// charged before the player can act again.
    pub fn press(&mut self, rng: &mut WyRand)
        requires
            old(self).wf(),
        ensures
            final(self).wf(),
            final(self).level.size == old(self).level.size,
            final(self).is_press_of(old(self)),
    {
        handle_season_action(
            &mut self.season,
            &mut self.level,
            &mut self.selected_tile,
            &mut self.spawn_tree_events,
            &mut self.next_season_state_events,
            rng,
        );
        let ghost pressed = *self;
        self.apply_events();
        proof {
            assert(self.is_after_events(&pressed));
        }
    }
}

/// Felling a tree brings at most the worth of an overmature tree on
/// nutrient ground.
pub proof fn lemma_fell_gain_is_bounded(level: &Level, pos: TilePos)
    ensures
        level.spec_fell_gain(pos) <= 18,
{
}

/// No more actions come due than there are tiles.
pub proof fn lemma_due_is_bounded(level: &Level, delta: u64, count: int)
    requires
        0 <= count,
    ensures
        level.spec_due(delta, count).len() <= count,
    decreases count,
{
    if count > 0 {
        lemma_due_is_bounded(level, delta, count - 1);
    }
}

/// The latches never ask for any phase but the one that follows the phase
/// the season is in, and for that at most once in a step.
pub proof fn lemma_requests_follow_the_round(game: &Game)
    ensures
        game.spec_phase_requests() == game.next_season_state_events@
            || game.spec_phase_requests() == game.next_season_state_events@.push(
            NextSeasonState(game.season.state.spec_next()),
        ),
        game.season.state == SeasonState::UserInput ==> game.spec_phase_requests()
            == game.next_season_state_events@,
{
}

/// The effects of actions never take points away, and never withdraw a
/// request to take a tree off the board.
pub proof fn lemma_score_never_falls(
    due: Seq<Due>,
    level_before: &Level,
    level: &Level,
    score_before: Score,
    score: Score,
    despawned_before: Seq<DespawnTree>,
    despawned: Seq<DespawnTree>,
)
    requires
        effects_applied(
            due,
            level_before,
            level,
            score_before,
            score,
            despawned_before,
            despawned,
        ),
    ensures
        score.0 >= score_before.0,
        despawned.len() >= despawned_before.len(),
        level.size == level_before.size,
    decreases due.len(),
{
    if due.len() > 0 {
        let between = choose|between: (Level, Score, Seq<DespawnTree>)|
            {
                &&& #[trigger] board_wf(between)
                &&& effects_applied(
                    due.drop_last(),
                    level_before,
                    &between.0,
                    score_before,
                    between.1,
                    despawned_before,
                    between.2,
                )
                &&& is_effect_of(
                    due.last().kind,
                    due.last().pos,
                    &between.0,
                    level,
                    between.1,
                    score,
                    between.2,
                    despawned,
                )
            };
        lemma_score_never_falls(
            due.drop_last(),
            level_before,
            &between.0,
            score_before,
            between.1,
            despawned_before,
            between.2,
        );
    }
}

/// Outside the run of a season time stands still for the trees: no
/// countdown moves, no action comes due, and the score stays as it is.
pub proof fn lemma_time_stands_still(before: &Game, game: &Game, delta: u64)
    requires
        game.is_after_actions(before, delta),
        before.season.state != SeasonState::Simulation,
    ensures
        game.level.same_as(&before.level),
        game.score == before.score,
        game.despawn_tree_events@ == before.despawn_tree_events@,
{
}

} // verus!
