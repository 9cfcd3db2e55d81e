use bevy_jam_tree::season::logic::{TreeAction, TreeActionKind};
use bevy_jam_tree::season::state::SeasonState;
use bevy_jam_tree::season::{Season, SeasonKind};
use bevy_jam_tree::spawn::level::{Ground, Level, Tile, TilePos, TilemapSize, TreeTile};
use bevy_jam_tree::spawn::tree::{
    despawn_tree, spawn_tree, unique_despawns, unique_spawns, DespawnTree, OnTile, SpawnTree, Tree,
};

fn spawn(x: u32, y: u32, tree: Tree, use_resource: bool) -> SpawnTree {
    SpawnTree { tile_pos: TilePos::new(x, y), tree, use_resource }
}

fn despawn(x: u32, y: u32) -> DespawnTree {
    DespawnTree { tile_pos: TilePos::new(x, y) }
}

fn spring(user_action_resource: usize) -> Season {
    Season { year: 0, state: SeasonState::UserInput, kind: SeasonKind::Spring, user_action_resource }
}

fn tree_tile(tree: Tree) -> Tile {
    Tile { ground: Ground::Normal, tree: Some(TreeTile::new(tree)), transition: None }
}

#[test]
fn requests_name_their_tile() {
    assert_eq!(spawn(3, 9, Tree::Mature, true).key(), (3, 9));
    assert_eq!(despawn(7, 0).key(), (7, 0));
}

#[test]
fn unique_keeps_the_first_request_for_each_tile() {
    let events = vec![
        spawn(1, 1, Tree::Seedling, true),
        spawn(2, 1, Tree::Mature, false),
        spawn(1, 1, Tree::Overmature, false),
        spawn(1, 2, Tree::Seedling, true),
        spawn(2, 1, Tree::Mature, false),
        spawn(1, 1, Tree::Seedling, true),
    ];
    assert_eq!(
        unique_spawns(&events),
        vec![
            spawn(1, 1, Tree::Seedling, true),
            spawn(2, 1, Tree::Mature, false),
            spawn(1, 2, Tree::Seedling, true),
        ]
    );
    assert_eq!(unique_spawns(&Vec::new()), Vec::new());
}

#[test]
fn unique_despawns_keep_the_order() {
    let events = vec![despawn(4, 4), despawn(0, 0), despawn(4, 4), despawn(0, 4), despawn(0, 0)];
    assert_eq!(unique_despawns(&events), vec![despawn(4, 4), despawn(0, 0), despawn(0, 4)]);
}

#[test]
fn two_spawns_at_one_coordinate_make_one_tree() {
    let mut level = Level::empty(TilemapSize { x: 8, y: 8 });
    let mut season = spring(4);
    let mut events =
        vec![spawn(3, 3, Tree::Seedling, true), spawn(3, 3, Tree::Seedling, true)];
    spawn_tree(&mut level, &mut season, &mut events);
    assert!(events.is_empty());
    assert_eq!(season.user_action_resource, 3);
    let mut trees = 0;
    for y in 0..8 {
        for x in 0..8 {
            let tile = level.get(TilePos::new(x, y)).unwrap();
            if (x, y) == (3, 3) {
                assert_eq!(tile, tree_tile(Tree::Seedling));
                trees += 1;
            } else {
                assert_eq!(tile, Tile::bare());
            }
        }
    }
    assert_eq!(trees, 1);
}

#[test]
fn first_spawn_at_a_coordinate_wins() {
    let mut level = Level::empty(TilemapSize { x: 4, y: 4 });
    let mut season = spring(4);
    let mut events =
        vec![spawn(1, 2, Tree::Mature, false), spawn(1, 2, Tree::Seedling, true)];
    spawn_tree(&mut level, &mut season, &mut events);
    assert_eq!(level.get(TilePos::new(1, 2)), Some(tree_tile(Tree::Mature)));
    assert_eq!(season.user_action_resource, 4);
}

#[test]
fn spawn_leaves_occupied_tiles_alone() {
    let mut level = Level::empty(TilemapSize { x: 4, y: 4 });
    let standing = Tile {
        ground: Ground::Nutrient,
        tree: Some(TreeTile {
            tree: Tree::Overmature,
            action: Some(TreeAction::from_roll(TreeActionKind::Felling, 1)),
            bad_weather: true,
            burn_ticks: 1,
        }),
        transition: None,
    };
    level.set(TilePos::new(2, 2), standing);
    let mut season = spring(2);
    let mut events = vec![spawn(2, 2, Tree::Seedling, true)];
    spawn_tree(&mut level, &mut season, &mut events);
    assert_eq!(level.get(TilePos::new(2, 2)), Some(standing));
    assert_eq!(season.user_action_resource, 2);
    assert_eq!(season, spring(2));
}

#[test]
fn spawn_keeps_the_ground() {
    let mut level = Level::empty(TilemapSize { x: 4, y: 4 });
    level.set(TilePos::new(0, 3), Tile { ground: Ground::Nutrient, ..Tile::bare() });
    let mut season = spring(1);
    let mut events = vec![spawn(0, 3, Tree::Seedling, true)];
    spawn_tree(&mut level, &mut season, &mut events);
    assert_eq!(
        level.get(TilePos::new(0, 3)),
        Some(Tile { ground: Ground::Nutrient, ..tree_tile(Tree::Seedling) })
    );
    assert_eq!(season.user_action_resource, 0);
}

#[test]
fn spawn_outside_the_level_does_nothing() {
    let mut level = Level::empty(TilemapSize { x: 4, y: 4 });
    let mut season = spring(4);
    let mut events = vec![spawn(4, 0, Tree::Seedling, true), spawn(0, 17, Tree::Seedling, true)];
    spawn_tree(&mut level, &mut season, &mut events);
    assert_eq!(level, Level::empty(TilemapSize { x: 4, y: 4 }));
    assert_eq!(season.user_action_resource, 4);
    assert!(events.is_empty());
}

#[test]
fn paid_spawns_stop_charging_an_empty_budget() {
    let mut level = Level::empty(TilemapSize { x: 4, y: 4 });
    let mut season = spring(1);
    let mut events = vec![
        spawn(0, 0, Tree::Seedling, true),
        spawn(1, 0, Tree::Seedling, false),
        spawn(2, 0, Tree::Seedling, true),
    ];
    spawn_tree(&mut level, &mut season, &mut events);
    assert_eq!(season.user_action_resource, 0);
    assert_eq!(level.get(TilePos::new(0, 0)), Some(tree_tile(Tree::Seedling)));
    assert_eq!(level.get(TilePos::new(1, 0)), Some(tree_tile(Tree::Seedling)));
    assert_eq!(level.get(TilePos::new(2, 0)), Some(tree_tile(Tree::Seedling)));
}

#[test]
fn despawn_takes_the_tree_and_leaves_the_ground() {
    let mut level = Level::empty(TilemapSize { x: 4, y: 4 });
    let standing = Tile {
        ground: Ground::Nutrient,
        tree: Some(TreeTile {
            tree: Tree::Overmature,
            action: Some(TreeAction::from_roll(TreeActionKind::Burning, 1)),
            bad_weather: true,
            burn_ticks: 1,
        }),
        transition: None,
    };
    level.set(TilePos::new(2, 2), standing);
    level.set(TilePos::new(3, 2), tree_tile(Tree::Seedling));
    let mut events = vec![despawn(2, 2), despawn(1, 1), despawn(2, 2), despawn(9, 9)];
    despawn_tree(&mut level, &mut events);
    assert!(events.is_empty());
    assert_eq!(
        level.get(TilePos::new(2, 2)),
        Some(Tile { ground: Ground::Nutrient, tree: None, transition: None })
    );
    assert_eq!(level.get(TilePos::new(1, 1)), Some(Tile::bare()));
    assert_eq!(level.get(TilePos::new(3, 2)), Some(tree_tile(Tree::Seedling)));
}
