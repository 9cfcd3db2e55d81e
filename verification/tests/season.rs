use bevy_jam_tree::season::logic::{TreeAction, TreeActionKind};
use bevy_jam_tree::season::state::{
    handle_next_season_state, latch, setup_simulation, setup_transition, setup_user_input,
    to_transition, to_user_input, transition_duration, NextSeasonState, SeasonState,
};
use bevy_jam_tree::season::{
    autumn_user_action, ground_texture_index, handle_transition, spring_user_action,
    summer_user_action, winter_user_action, ChangedOver, Season, SeasonKind, SeasonTransition,
};
use bevy_jam_tree::spawn::level::{
    Ground, Level, SelectedTile, Tile, TilePos, TilemapSize, TreeTile,
};
use bevy_jam_tree::spawn::tree::{SpawnTree, Tree};
use bevy_jam_tree::timer::Countdown;
use bevy_prng::WyRand;
use rand_core::{RngCore, SeedableRng};

fn tree_tile(tree: Tree) -> Tile {
    Tile { ground: Ground::Normal, tree: Some(TreeTile::new(tree)), transition: None }
}

fn season(kind: SeasonKind, state: SeasonState, user_action_resource: usize) -> Season {
    Season { year: 1, state, kind, user_action_resource }
}

fn waiting(kind: SeasonKind, user_action_resource: usize) -> Season {
    season(kind, SeasonState::UserInput, user_action_resource)
}

fn seed(x: u32, y: u32) -> SpawnTree {
    SpawnTree { tile_pos: TilePos::new(x, y), tree: Tree::Seedling, use_resource: false }
}

#[test]
fn the_first_season() {
    assert_eq!(
        Season::default(),
        Season {
            year: 0,
            state: SeasonState::UserInput,
            kind: SeasonKind::Spring,
            user_action_resource: 4,
        }
    );
    assert!(Season::default().accepts_user_action());
    assert!(!waiting(SeasonKind::Spring, 0).accepts_user_action());
    assert!(!season(SeasonKind::Spring, SeasonState::Simulation, 4).accepts_user_action());
    assert!(!season(SeasonKind::Spring, SeasonState::Transition, 4).accepts_user_action());
}

#[test]
fn ground_textures() {
    assert_eq!(ground_texture_index(SeasonKind::Spring, Ground::Normal), 0);
    assert_eq!(ground_texture_index(SeasonKind::Winter, Ground::Normal), 3);
    assert_eq!(ground_texture_index(SeasonKind::Summer, Ground::Nutrient), 5);
}

#[test]
fn planting_asks_for_a_paid_seedling() {
    let level = Level::empty(TilemapSize { x: 8, y: 8 });
    let mut selected = SelectedTile(Some(TilePos::new(4, 6)));
    let mut events = Vec::new();
    spring_user_action(&waiting(SeasonKind::Spring, 1), &level, &mut selected, &mut events);
    assert_eq!(selected, SelectedTile(None));
    assert_eq!(
        events,
        vec![SpawnTree { tile_pos: TilePos::new(4, 6), tree: Tree::Seedling, use_resource: true }]
    );
}

#[test]
fn planting_is_ignored_when_it_cannot_be_done() {
    let mut level = Level::empty(TilemapSize { x: 8, y: 8 });
    level.set(TilePos::new(4, 6), tree_tile(Tree::Seedling));
    let picked = SelectedTile(Some(TilePos::new(4, 6)));
    let free = SelectedTile(Some(TilePos::new(0, 0)));
    let outside = SelectedTile(Some(TilePos::new(8, 0)));
    let cases = [
        (waiting(SeasonKind::Spring, 4), picked),
        (waiting(SeasonKind::Spring, 4), outside),
        (waiting(SeasonKind::Spring, 4), SelectedTile(None)),
        (waiting(SeasonKind::Spring, 0), free),
        (season(SeasonKind::Spring, SeasonState::Simulation, 4), free),
        (season(SeasonKind::Spring, SeasonState::Transition, 4), free),
    ];
    for (season, selection) in cases {
        let mut selected = selection;
        let mut events = Vec::new();
        spring_user_action(&season, &level, &mut selected, &mut events);
        assert_eq!(selected, selection);
        assert!(events.is_empty());
    }
}

#[test]
fn igniting_uses_up_the_budget() {
    let mut level = Level::empty(TilemapSize { x: 8, y: 8 });
    let pos = TilePos::new(2, 5);
    level.set(pos, Tile { ground: Ground::Nutrient, ..tree_tile(Tree::Immature) });
    let mut current = waiting(SeasonKind::Summer, 3);
    let mut selected = SelectedTile(Some(pos));
    let mut rng = WyRand::seed_from_u64(21);
    let mut twin = WyRand::seed_from_u64(21);
    summer_user_action(&mut current, &mut level, &mut selected, &mut rng);
    assert_eq!(current, waiting(SeasonKind::Summer, 0));
    assert_eq!(selected, SelectedTile(None));
    let mut expected = Level::empty(TilemapSize { x: 8, y: 8 });
    expected.set(
        pos,
        Tile {
            ground: Ground::Nutrient,
            tree: Some(TreeTile {
                action: Some(TreeAction::from_roll(TreeActionKind::Burning, twin.next_u32())),
                ..TreeTile::new(Tree::Immature)
            }),
            transition: None,
        },
    );
    assert_eq!(level, expected);
}

#[test]
fn igniting_needs_a_tree_and_a_budget() {
    let mut level = Level::empty(TilemapSize { x: 8, y: 8 });
    level.set(TilePos::new(2, 5), tree_tile(Tree::Immature));
    let before = level.clone();
    let tree = SelectedTile(Some(TilePos::new(2, 5)));
    let cases = [
        (waiting(SeasonKind::Summer, 4), SelectedTile(Some(TilePos::new(2, 4)))),
        (waiting(SeasonKind::Summer, 4), SelectedTile(Some(TilePos::new(2, 8)))),
        (waiting(SeasonKind::Summer, 4), SelectedTile(None)),
        (waiting(SeasonKind::Summer, 0), tree),
        (season(SeasonKind::Summer, SeasonState::Simulation, 4), tree),
    ];
    for (season, selection) in cases {
        let mut current = season;
        let mut selected = selection;
        let mut rng = WyRand::seed_from_u64(21);
        summer_user_action(&mut current, &mut level, &mut selected, &mut rng);
        assert_eq!(current, season);
        assert_eq!(selected, selection);
        assert_eq!(level, before);
    }
}

#[test]
fn a_gust_drops_seeds_two_tiles_away() {
    let mut level = Level::empty(TilemapSize { x: 8, y: 8 });
    level.set(TilePos::new(3, 4), tree_tile(Tree::Mature));
    let before = level.clone();
    let mut current = waiting(SeasonKind::Autumn, 4);
    let mut selected = SelectedTile(Some(TilePos::new(3, 4)));
    let mut events = vec![seed(0, 0)];
    autumn_user_action(&mut current, &level, &mut selected, &mut events);
    assert_eq!(events, vec![seed(0, 0), seed(5, 4), seed(3, 6), seed(1, 4), seed(3, 2)]);
    assert_eq!(current, waiting(SeasonKind::Autumn, 0));
    assert_eq!(selected, SelectedTile(None));
    assert_eq!(level, before);
}

#[test]
fn a_gust_near_the_edge_loses_seeds() {
    let mut level = Level::empty(TilemapSize { x: 8, y: 8 });
    level.set(TilePos::new(1, 7), tree_tile(Tree::Overmature));
    level.set(TilePos::new(6, 0), tree_tile(Tree::Mature));
    let mut current = waiting(SeasonKind::Autumn, 1);
    let mut selected = SelectedTile(Some(TilePos::new(1, 7)));
    let mut events = Vec::new();
    autumn_user_action(&mut current, &level, &mut selected, &mut events);
    assert_eq!(events, vec![seed(3, 7), seed(1, 5)]);
    let mut current = waiting(SeasonKind::Autumn, 1);
    let mut selected = SelectedTile(Some(TilePos::new(6, 0)));
    let mut events = Vec::new();
    autumn_user_action(&mut current, &level, &mut selected, &mut events);
    assert_eq!(events, vec![seed(6, 2), seed(4, 0)]);
}

#[test]
fn a_gust_needs_a_grown_tree() {
    let mut level = Level::empty(TilemapSize { x: 8, y: 8 });
    level.set(TilePos::new(3, 4), tree_tile(Tree::Immature));
    level.set(TilePos::new(4, 4), tree_tile(Tree::Seedling));
    level.set(TilePos::new(5, 4), tree_tile(Tree::Mature));
    let grown = SelectedTile(Some(TilePos::new(5, 4)));
    let cases = [
        (waiting(SeasonKind::Autumn, 4), SelectedTile(Some(TilePos::new(3, 4)))),
        (waiting(SeasonKind::Autumn, 4), SelectedTile(Some(TilePos::new(4, 4)))),
        (waiting(SeasonKind::Autumn, 4), SelectedTile(Some(TilePos::new(0, 0)))),
        (waiting(SeasonKind::Autumn, 4), SelectedTile(None)),
        (waiting(SeasonKind::Autumn, 0), grown),
        (season(SeasonKind::Autumn, SeasonState::Transition, 4), grown),
    ];
    for (season, selection) in cases {
        let mut current = season;
        let mut selected = selection;
        let mut events = Vec::new();
        autumn_user_action(&mut current, &level, &mut selected, &mut events);
        assert_eq!(current, season);
        assert_eq!(selected, selection);
        assert!(events.is_empty());
    }
}

#[test]
fn sheltering_costs_two() {
    let mut level = Level::empty(TilemapSize { x: 8, y: 8 });
    let pos = TilePos::new(7, 7);
    let action = TreeAction::from_roll(TreeActionKind::Growing, 2);
    level.set(
        pos,
        Tile {
            tree: Some(TreeTile { action: Some(action), ..TreeTile::new(Tree::Mature) }),
            ..Tile::bare()
        },
    );
    for (budget, left) in [(4, 2), (3, 1), (2, 0), (1, 0)] {
        let mut board = level.clone();
        let mut current = waiting(SeasonKind::Winter, budget);
        let mut selected = SelectedTile(Some(pos));
        winter_user_action(&mut current, &mut board, &mut selected);
        assert_eq!(current, waiting(SeasonKind::Winter, left));
        assert_eq!(selected, SelectedTile(None));
        assert_eq!(
            board.get(pos),
            Some(Tile {
                tree: Some(TreeTile {
                    action: Some(action),
                    bad_weather: true,
                    ..TreeTile::new(Tree::Mature)
                }),
                ..Tile::bare()
            })
        );
        assert_eq!(board.get(TilePos::new(0, 0)), Some(Tile::bare()));
    }
}

#[test]
fn sheltering_needs_a_tree_and_a_budget() {
    let mut level = Level::empty(TilemapSize { x: 8, y: 8 });
    level.set(TilePos::new(7, 7), tree_tile(Tree::Mature));
    let before = level.clone();
    let tree = SelectedTile(Some(TilePos::new(7, 7)));
    let cases = [
        (waiting(SeasonKind::Winter, 4), SelectedTile(Some(TilePos::new(6, 7)))),
        (waiting(SeasonKind::Winter, 4), SelectedTile(Some(TilePos::new(8, 8)))),
        (waiting(SeasonKind::Winter, 4), SelectedTile(None)),
        (waiting(SeasonKind::Winter, 0), tree),
        (season(SeasonKind::Winter, SeasonState::Simulation, 4), tree),
    ];
    for (season, selection) in cases {
        let mut current = season;
        let mut selected = selection;
        winter_user_action(&mut current, &mut level, &mut selected);
        assert_eq!(current, season);
        assert_eq!(selected, selection);
        assert_eq!(level, before);
    }
}

#[test]
fn each_season_has_its_action() {
    let mut level = Level::empty(TilemapSize { x: 8, y: 8 });
    level.set(TilePos::new(3, 3), tree_tile(Tree::Mature));
    let mut rng = WyRand::seed_from_u64(8);

    let mut current = waiting(SeasonKind::Spring, 4);
    let mut selected = SelectedTile(Some(TilePos::new(0, 0)));
    let mut events = Vec::new();
    SeasonKind::Spring.user_action(&mut current, &mut level, &mut selected, &mut events, &mut rng);
    assert_eq!(events.len(), 1);
    assert!(events[0].use_resource);

    let mut current = waiting(SeasonKind::Autumn, 4);
    let mut selected = SelectedTile(Some(TilePos::new(3, 3)));
    let mut events = Vec::new();
    SeasonKind::Autumn.user_action(&mut current, &mut level, &mut selected, &mut events, &mut rng);
    assert_eq!(events, vec![seed(5, 3), seed(3, 5), seed(1, 3), seed(3, 1)]);
    assert_eq!(current.user_action_resource, 0);

    let mut current = waiting(SeasonKind::Winter, 4);
    let mut selected = SelectedTile(Some(TilePos::new(3, 3)));
    SeasonKind::Winter.user_action(&mut current, &mut level, &mut selected, &mut events, &mut rng);
    assert!(level.get_occupant(TilePos::new(3, 3)).unwrap().bad_weather);
    assert_eq!(current.user_action_resource, 2);

    let mut current = waiting(SeasonKind::Summer, 4);
    let mut selected = SelectedTile(Some(TilePos::new(3, 3)));
    SeasonKind::Summer.user_action(&mut current, &mut level, &mut selected, &mut events, &mut rng);
    assert_eq!(
        level.get(TilePos::new(3, 3)).unwrap().action().unwrap().kind,
        TreeActionKind::Burning
    );
    assert_eq!(current.user_action_resource, 0);
}

#[test]
fn entering_the_players_phase_fills_the_budget() {
    let mut current = season(SeasonKind::Autumn, SeasonState::UserInput, 0);
    setup_user_input(&mut current);
    assert_eq!(current, season(SeasonKind::Autumn, SeasonState::UserInput, 4));
}

#[test]
fn changeover_durations_grow_with_the_distance() {
    assert_eq!(transition_duration(TilePos::new(0, 0)), 100_000_000);
    assert_eq!(transition_duration(TilePos::new(3, 4)), 800_000_000);
    assert_eq!(transition_duration(TilePos::new(7, 7)), 1_500_000_000);
    assert_eq!(
        transition_duration(TilePos::new(u32::MAX, u32::MAX)),
        858_993_459_100_000_000
    );
}

#[test]
fn the_changeover_advances_the_season() {
    let mut level = Level::empty(TilemapSize { x: 2, y: 2 });
    level.set(TilePos::new(1, 0), tree_tile(Tree::Mature));
    let mut current = season(SeasonKind::Spring, SeasonState::Transition, 0);
    setup_transition(&mut current, &mut level);
    assert_eq!(current, season(SeasonKind::Summer, SeasonState::Transition, 0));
    for (x, y, tenths) in [(0, 0, 1), (1, 0, 2), (0, 1, 2), (1, 1, 3)] {
        let tile = level.get(TilePos::new(x, y)).unwrap();
        assert_eq!(
            tile.transition,
            Some(SeasonTransition {
                timer: Countdown {
                    duration: tenths * 100_000_000,
                    elapsed: 0,
                    repeating: false,
                },
                season_kind: SeasonKind::Summer,
            })
        );
        assert_eq!(tile.ground, Ground::Normal);
    }
    assert_eq!(level.get_occupant(TilePos::new(1, 0)), Some(TreeTile::new(Tree::Mature)));
    assert_eq!(level.get_occupant(TilePos::new(0, 0)), None);
}

#[test]
fn the_year_advances_when_winter_turns_to_spring() {
    for (kind, next, year) in [
        (SeasonKind::Spring, SeasonKind::Summer, 1),
        (SeasonKind::Summer, SeasonKind::Autumn, 1),
        (SeasonKind::Autumn, SeasonKind::Winter, 1),
        (SeasonKind::Winter, SeasonKind::Spring, 2),
    ] {
        let mut level = Level::empty(TilemapSize { x: 1, y: 1 });
        let mut current = season(kind, SeasonState::Transition, 3);
        setup_transition(&mut current, &mut level);
        assert_eq!(
            current,
            Season { year, state: SeasonState::Transition, kind: next, user_action_resource: 3 }
        );
    }
}

#[test]
fn tiles_change_over_one_after_the_other() {
    let mut level = Level::empty(TilemapSize { x: 2, y: 2 });
    level.set(
        TilePos::new(1, 1),
        Tile {
            tree: Some(TreeTile { bad_weather: true, ..TreeTile::new(Tree::Mature) }),
            ..Tile::bare()
        },
    );
    let mut current = season(SeasonKind::Winter, SeasonState::Transition, 0);
    setup_transition(&mut current, &mut level);
    assert!(handle_transition(&mut level, 99_999_999).is_empty());
    assert_eq!(
        handle_transition(&mut level, 1),
        vec![ChangedOver { pos: TilePos::new(0, 0), season_kind: SeasonKind::Spring }]
    );
    assert_eq!(level.get(TilePos::new(0, 0)), Some(Tile::bare()));
    assert!(level.get_occupant(TilePos::new(1, 1)).unwrap().bad_weather);
    assert_eq!(
        handle_transition(&mut level, 100_000_000),
        vec![
            ChangedOver { pos: TilePos::new(1, 0), season_kind: SeasonKind::Spring },
            ChangedOver { pos: TilePos::new(0, 1), season_kind: SeasonKind::Spring },
        ]
    );
    assert_eq!(
        level.get(TilePos::new(1, 1)).unwrap().transition.unwrap().timer.elapsed,
        200_000_000
    );
    assert_eq!(
        handle_transition(&mut level, 100_000_000),
        vec![ChangedOver { pos: TilePos::new(1, 1), season_kind: SeasonKind::Spring }]
    );
    // With the changeover done the shelter is gone.
    assert_eq!(level.get(TilePos::new(1, 1)), Some(tree_tile(Tree::Mature)));
    assert!(handle_transition(&mut level, u64::MAX).is_empty());
    assert!(!level.has_transition());
}

#[test]
fn spring_schedules_growth_and_death() {
    // A row of five trees with one more above the middle: the middle tree has
    // three around it, its neighbours in the row three and two, the ends one.
    let mut level = Level::empty(TilemapSize { x: 8, y: 8 });
    for x in 1..=5 {
        level.set(TilePos::new(x, 4), tree_tile(Tree::Seedling));
    }
    level.set(TilePos::new(3, 5), tree_tile(Tree::Overmature));
    let mut rng = WyRand::seed_from_u64(17);
    setup_simulation(&mut level, SeasonKind::Spring, &mut rng);
    let kind_at =
        |x: u32, y: u32| level.get(TilePos::new(x, y)).unwrap().action().map(|a| a.kind);
    assert_eq!(level.neighbor_level(TilePos::new(1, 4)), 1);
    assert_eq!(level.neighbor_level(TilePos::new(2, 4)), 4);
    assert_eq!(level.neighbor_level(TilePos::new(3, 4)), 4);
    assert_eq!(level.neighbor_level(TilePos::new(3, 5)), 3);
    assert_eq!(kind_at(1, 4), Some(TreeActionKind::Growing));
    assert_eq!(kind_at(2, 4), None);
    assert_eq!(kind_at(3, 4), None);
    assert_eq!(kind_at(4, 4), None);
    assert_eq!(kind_at(5, 4), Some(TreeActionKind::Growing));
    assert_eq!(kind_at(3, 5), None);
}

#[test]
fn crowded_trees_die_in_spring_and_autumn_but_not_in_summer() {
    for (kind, dies) in [
        (SeasonKind::Spring, true),
        (SeasonKind::Summer, false),
        (SeasonKind::Autumn, true),
    ] {
        let mut level = Level::empty(TilemapSize { x: 3, y: 3 });
        for y in 0..3 {
            for x in 0..3 {
                level.set(TilePos::new(x, y), tree_tile(Tree::Immature));
            }
        }
        let mut rng = WyRand::seed_from_u64(17);
        setup_simulation(&mut level, kind, &mut rng);
        let kind_at =
            |x: u32, y: u32| level.get(TilePos::new(x, y)).unwrap().action().map(|a| a.kind);
        // The corners have three trees around them, the sides five, the middle
        // eight.
        assert_eq!(kind_at(0, 0), None);
        assert_eq!(kind_at(2, 2), None);
        let fate = if dies { Some(TreeActionKind::Dying) } else { None };
        assert_eq!(kind_at(1, 0), fate);
        assert_eq!(kind_at(0, 1), fate);
        assert_eq!(kind_at(1, 1), fate);
    }
}

#[test]
fn winter_schedules_death_and_felling() {
    let mut level = Level::empty(TilemapSize { x: 4, y: 1 });
    level.set(TilePos::new(0, 0), tree_tile(Tree::Seedling));
    level.set(TilePos::new(1, 0), tree_tile(Tree::Immature));
    level.set(TilePos::new(2, 0), tree_tile(Tree::Mature));
    level.set(
        TilePos::new(3, 0),
        Tile {
            tree: Some(TreeTile { bad_weather: true, ..TreeTile::new(Tree::Overmature) }),
            ..Tile::bare()
        },
    );
    let mut rng = WyRand::seed_from_u64(17);
    let mut twin = WyRand::seed_from_u64(17);
    setup_simulation(&mut level, SeasonKind::Winter, &mut rng);
    let dying = TreeAction::from_roll(TreeActionKind::Dying, twin.next_u32());
    let felling = TreeAction::from_roll(TreeActionKind::Felling, twin.next_u32());
    assert_eq!(level.get(TilePos::new(0, 0)).unwrap().action(), Some(dying));
    assert_eq!(level.get(TilePos::new(1, 0)).unwrap().action(), None);
    assert_eq!(level.get(TilePos::new(2, 0)).unwrap().action(), Some(felling));
    assert_eq!(level.get(TilePos::new(3, 0)).unwrap().action(), None);
}

#[test]
fn the_latch_waits_for_work_to_be_seen() {
    let mut looking = false;
    assert!(!latch(&mut looking, false));
    assert!(!looking);
    assert!(!latch(&mut looking, true));
    assert!(looking);
    assert!(!latch(&mut looking, true));
    assert!(looking);
    assert!(latch(&mut looking, false));
    assert!(!looking);
    assert!(!latch(&mut looking, false));
}

#[test]
fn the_run_of_a_season_ends_when_seen_actions_are_gone() {
    let mut busy = Level::empty(TilemapSize { x: 2, y: 2 });
    let mut tile = tree_tile(Tree::Seedling);
    tile.set_action(Some(TreeAction::from_roll(TreeActionKind::Growing, 0)));
    busy.set(TilePos::new(1, 1), tile);
    let idle = Level::empty(TilemapSize { x: 2, y: 2 });
    assert!(busy.has_action());
    assert!(!idle.has_action());

    let current = season(SeasonKind::Spring, SeasonState::Simulation, 0);
    let mut looking = false;
    let mut events = Vec::new();
    to_transition(&current, &idle, &mut looking, &mut events);
    assert!(!looking && events.is_empty());
    to_transition(&current, &busy, &mut looking, &mut events);
    assert!(looking && events.is_empty());
    to_transition(&current, &idle, &mut looking, &mut events);
    assert!(!looking);
    assert_eq!(events, vec![NextSeasonState(SeasonState::Transition)]);

    // In the other phases the latch does not look.
    for state in [SeasonState::UserInput, SeasonState::Transition] {
        let current = season(SeasonKind::Spring, state, 0);
        let mut looking = true;
        let mut events = Vec::new();
        to_transition(&current, &idle, &mut looking, &mut events);
        assert!(looking && events.is_empty());
    }
}

#[test]
fn the_changeover_ends_when_seen_changes_are_gone() {
    let mut busy = Level::empty(TilemapSize { x: 2, y: 2 });
    let mut current = season(SeasonKind::Spring, SeasonState::Transition, 0);
    setup_transition(&mut current, &mut busy);
    let idle = Level::empty(TilemapSize { x: 2, y: 2 });
    assert!(busy.has_transition());
    assert!(!idle.has_transition());

    let mut looking = false;
    let mut events = Vec::new();
    to_user_input(&current, &idle, &mut looking, &mut events);
    assert!(!looking && events.is_empty());
    to_user_input(&current, &busy, &mut looking, &mut events);
    assert!(looking && events.is_empty());
    to_user_input(&current, &idle, &mut looking, &mut events);
    assert!(!looking);
    assert_eq!(events, vec![NextSeasonState(SeasonState::UserInput)]);

    let running = season(SeasonKind::Spring, SeasonState::Simulation, 0);
    let mut looking = true;
    let mut events = Vec::new();
    to_user_input(&running, &idle, &mut looking, &mut events);
    assert!(looking && events.is_empty());
}

#[test]
fn entering_a_phase_sets_it_up() {
    let mut level = Level::empty(TilemapSize { x: 2, y: 2 });
    level.set(TilePos::new(0, 0), tree_tile(Tree::Seedling));
    let mut rng = WyRand::seed_from_u64(5);
    let mut current = season(SeasonKind::Winter, SeasonState::UserInput, 1);

    handle_next_season_state(
        NextSeasonState(SeasonState::Simulation),
        &mut current,
        &mut level,
        &mut rng,
    );
    assert_eq!(current, season(SeasonKind::Winter, SeasonState::Simulation, 1));
    assert_eq!(
        level.get(TilePos::new(0, 0)).unwrap().action().unwrap().kind,
        TreeActionKind::Dying
    );

    handle_next_season_state(
        NextSeasonState(SeasonState::Transition),
        &mut current,
        &mut level,
        &mut rng,
    );
    assert_eq!(
        current,
        Season {
            year: 2,
            state: SeasonState::Transition,
            kind: SeasonKind::Spring,
            user_action_resource: 1,
        }
    );
    assert!(level.has_transition());

    handle_next_season_state(
        NextSeasonState(SeasonState::UserInput),
        &mut current,
        &mut level,
        &mut rng,
    );
    assert_eq!(
        current,
        Season {
            year: 2,
            state: SeasonState::UserInput,
            kind: SeasonKind::Spring,
            user_action_resource: 4,
        }
    );

    let state = SeasonState::UserInput;
    current.user_action_resource = 0;
    state.setup(&mut current, &mut level, &mut rng);
    assert_eq!(current.user_action_resource, 4);
}
