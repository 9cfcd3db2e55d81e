//! What the player reads on the button of the season, and what pressing it
//! does.

use bevy_prng::WyRand;
use vstd::prelude::*;

use crate::season::state::{NextSeasonState, SeasonState};
use crate::season::{is_user_action_of, Season};
use crate::spawn::level::{Level, SelectedTile};
use crate::spawn::tree::SpawnTree;

verus! {

/// The two lines on the button of the season.
///
/// In the player's phase the button reads "Action", and below that "Start"
/// once the budget is used up. In the other phases it reads "Simulating".
pub open spec fn spec_season_action_text(season: Season) -> (Seq<char>, Seq<char>) {
    if season.state == SeasonState::UserInput {
        (
            "Action"@,
            if season.user_action_resource > 0 {
                ""@
            } else {
                "\nStart"@
            },
        )
    } else {
        ("Simulating"@, ""@)
    }
}

/// The two lines on the button of the season.
pub fn update_season_action(season: &Season) -> (text: (&'static str, &'static str))
    ensures
        (text.0@, text.1@) == spec_season_action_text(*season),
{
    if matches!(season.state, SeasonState::UserInput) {
        if season.user_action_resource > 0 {
            ("Action", "")
        } else {
            ("Action", "\nStart")
        }
    } else {
        ("Simulating", "")
    }
}

/// Whether the season, the level, the selection and the waiting requests
/// are what a press of the button of the season makes of what they were
/// before.
///
/// While some of the budget is left, the press is the player's action of
/// the season. With the budget used up, a press in the player's phase asks
/// for the run of the season to start. In any other case it does nothing.
pub open spec fn is_season_action_of(
    season_before: Season,
    season: Season,
    level_before: &Level,
    level: &Level,
    selected_before: SelectedTile,
    selected: SelectedTile,
    spawned_before: Seq<SpawnTree>,
    spawned: Seq<SpawnTree>,
    asked_before: Seq<NextSeasonState>,
    asked: Seq<NextSeasonState>,
) -> bool {
    if season_before.user_action_resource > 0 {
        &&& is_user_action_of(
            season_before.kind,
            season_before,
            season,
            level_before,
            level,
            selected_before,
            selected,
            spawned_before,
            spawned,
        )
        &&& asked == asked_before
    } else {
        &&& season == season_before
        &&& level.same_as(level_before)
        &&& selected == selected_before
        &&& spawned == spawned_before
        &&& asked == if season_before.state == SeasonState::UserInput {
            asked_before.push(NextSeasonState(SeasonState::Simulation))
        } else {
            asked_before
        }
    }
}

/// The player presses the button of the season.
pub fn handle_season_action(
    season: &mut Season,
    level: &mut Level,
    selected_tile: &mut SelectedTile,
    spawn_tree_events: &mut Vec<SpawnTree>,
    next_season_state_events: &mut Vec<NextSeasonState>,
    rng: &mut WyRand,
)
    requires
        old(level).wf(),
    ensures
        final(level).wf(),
        final(level).size == old(level).size,
        is_season_action_of(
            *old(season),
            *final(season),
            old(level),
            final(level),
            *old(selected_tile),
            *final(selected_tile),
            old(spawn_tree_events)@,
            final(spawn_tree_events)@,
            old(next_season_state_events)@,
            final(next_season_state_events)@,
        ),
{
    if season.user_action_resource > 0 {
        let kind = season.kind;
        kind.user_action(season, level, selected_tile, spawn_tree_events, rng);
    } else if matches!(season.state, SeasonState::UserInput) {
        next_season_state_events.push(NextSeasonState(season.state.next()));
    }
}

/// The player starts the run of the season, whatever is left of the
/// budget: in the player's phase the run of the season is asked for, and
/// in the other phases nothing happens.
pub fn start_season(season: &Season, next_season_state_events: &mut Vec<NextSeasonState>)
    ensures
        final(next_season_state_events)@ == if season.state == SeasonState::UserInput {
            old(next_season_state_events)@.push(NextSeasonState(SeasonState::Simulation))
        } else {
            old(next_season_state_events)@
        },
{
    if matches!(season.state, SeasonState::UserInput) {
        next_season_state_events.push(NextSeasonState(season.state.next()));
    }
}

} // verus!
