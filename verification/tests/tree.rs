use bevy_jam_tree::season::state::SeasonState;
use bevy_jam_tree::season::SeasonKind;
use bevy_jam_tree::spawn::level::Ground;
use bevy_jam_tree::spawn::tree::{tree_texture_index, Tree};

#[test]
fn tree_scores() {
    assert_eq!(Tree::Seedling.score(), 0);
    assert_eq!(Tree::Immature.score(), 2);
    assert_eq!(Tree::Mature.score(), 5);
    assert_eq!(Tree::Overmature.score(), 6);
}

#[test]
fn tree_levels() {
    assert_eq!(Tree::Seedling.level(), 1);
    assert_eq!(Tree::Immature.level(), 1);
    assert_eq!(Tree::Mature.level(), 1);
    assert_eq!(Tree::Overmature.level(), 2);
}

#[test]
fn tree_grows_one_stage_at_a_time() {
    assert_eq!(Tree::Seedling.next(), Some(Tree::Immature));
    assert_eq!(Tree::Immature.next(), Some(Tree::Mature));
    assert_eq!(Tree::Mature.next(), Some(Tree::Overmature));
    assert_eq!(Tree::Overmature.next(), None);
}

#[test]
fn tree_names_and_textures() {
    assert_eq!(Tree::Seedling.name(), "Seedling");
    assert_eq!(Tree::Immature.name(), "Immature");
    assert_eq!(Tree::Mature.name(), "Mature");
    assert_eq!(Tree::Overmature.name(), "Overmature");
    assert_eq!(Tree::Seedling.texture_index_offset(), 0);
    assert_eq!(Tree::Immature.texture_index_offset(), 4);
    assert_eq!(Tree::Mature.texture_index_offset(), 8);
    assert_eq!(Tree::Overmature.texture_index_offset(), 12);
    assert_eq!(tree_texture_index(SeasonKind::Autumn, Tree::Mature), 10);
    assert_eq!(tree_texture_index(SeasonKind::Spring, Tree::Seedling), 0);
    assert_eq!(tree_texture_index(SeasonKind::Winter, Tree::Overmature), 15);
}

#[test]
fn only_grown_trees_are_grown_up() {
    assert!(!Tree::Seedling.is_grown_up());
    assert!(!Tree::Immature.is_grown_up());
    assert!(Tree::Mature.is_grown_up());
    assert!(Tree::Overmature.is_grown_up());
}

#[test]
fn ground_names_textures_and_multipliers() {
    assert_eq!(Ground::Normal.name(), "Normal");
    assert_eq!(Ground::Nutrient.name(), "Nutrient");
    assert_eq!(Ground::Normal.texture_index_offset(), 0);
    assert_eq!(Ground::Nutrient.texture_index_offset(), 4);
    assert_eq!(Ground::Normal.multiplier(), 1);
    assert_eq!(Ground::Nutrient.multiplier(), 3);
}

#[test]
fn seasons_follow_each_other() {
    assert_eq!(SeasonKind::Spring.next(), SeasonKind::Summer);
    assert_eq!(SeasonKind::Summer.next(), SeasonKind::Autumn);
    assert_eq!(SeasonKind::Autumn.next(), SeasonKind::Winter);
    assert_eq!(SeasonKind::Winter.next(), SeasonKind::Spring);
}

#[test]
fn season_headers_and_textures() {
    assert_eq!(SeasonKind::Spring.header(), "Spring");
    assert_eq!(SeasonKind::Summer.header(), "Summer");
    assert_eq!(SeasonKind::Autumn.header(), "Autumn");
    assert_eq!(SeasonKind::Winter.header(), "Winter");
    assert_eq!(SeasonKind::Spring.texture_index(), 0);
    assert_eq!(SeasonKind::Summer.texture_index(), 1);
    assert_eq!(SeasonKind::Autumn.texture_index(), 2);
    assert_eq!(SeasonKind::Winter.texture_index(), 3);
}

#[test]
fn season_descriptions() {
    assert_eq!(
        SeasonKind::Spring.description(),
        "Place 4 seedlings in spring and watch them grow."
    );
    assert!(SeasonKind::Summer.description().starts_with("No trees ever die in summer..."));
    assert!(SeasonKind::Autumn.description().starts_with("Place a good gust on any tree"));
    assert!(SeasonKind::Winter.description().starts_with("Any seedlings will succumb"));
}

#[test]
fn phases_follow_each_other() {
    assert_eq!(SeasonState::UserInput.next(), SeasonState::Simulation);
    assert_eq!(SeasonState::Simulation.next(), SeasonState::Transition);
    assert_eq!(SeasonState::Transition.next(), SeasonState::UserInput);
}
