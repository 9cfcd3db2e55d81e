use bevy_jam_tree::season::logic::{tree_logic, Setup, TreeAction, TreeActionKind};
use bevy_jam_tree::spawn::level::TreeTile;
use bevy_jam_tree::spawn::tree::Tree;
use bevy_jam_tree::timer::Countdown;
use bevy_prng::WyRand;
use rand_core::{RngCore, SeedableRng};

#[test]
fn action_durations_follow_the_roll() {
    assert_eq!(TreeActionKind::Growing.duration(0), 1_000_000_000);
    assert_eq!(TreeActionKind::Growing.duration(1), 1_100_000_000);
    assert_eq!(TreeActionKind::Dying.duration(29), 3_900_000_000);
    assert_eq!(TreeActionKind::Felling.duration(30), 1_000_000_000);
    assert_eq!(TreeActionKind::Felling.duration(u32::MAX), 2_500_000_000);
    assert_eq!(TreeActionKind::Burning.duration(0), 500_000_000);
    assert_eq!(TreeActionKind::Burning.duration(7), 850_000_000);
    assert_eq!(TreeActionKind::Burning.duration(29), 1_950_000_000);
}

#[test]
fn only_fire_repeats() {
    assert!(!TreeActionKind::Growing.repeats());
    assert!(!TreeActionKind::Dying.repeats());
    assert!(TreeActionKind::Burning.repeats());
    assert!(!TreeActionKind::Felling.repeats());
}

#[test]
fn effect_textures() {
    assert_eq!(TreeActionKind::Growing.effect_texture_index(), 0);
    assert_eq!(TreeActionKind::Dying.effect_texture_index(), 1);
    assert_eq!(TreeActionKind::Burning.effect_texture_index(), 2);
    assert_eq!(TreeActionKind::Felling.effect_texture_index(), 3);
}

#[test]
fn action_from_roll() {
    assert_eq!(
        TreeAction::from_roll(TreeActionKind::Growing, 12),
        TreeAction {
            kind: TreeActionKind::Growing,
            timer: Countdown { duration: 2_200_000_000, elapsed: 0, repeating: false },
        }
    );
    assert_eq!(
        TreeAction::from_roll(TreeActionKind::Burning, 12),
        TreeAction {
            kind: TreeActionKind::Burning,
            timer: Countdown { duration: 1_100_000_000, elapsed: 0, repeating: true },
        }
    );
}

#[test]
fn random_actions_use_the_next_roll() {
    let mut rng = WyRand::seed_from_u64(7);
    let mut twin = WyRand::seed_from_u64(7);
    assert_eq!(
        TreeAction::growing(&mut rng),
        TreeAction::from_roll(TreeActionKind::Growing, twin.next_u32())
    );
    assert_eq!(
        TreeAction::dying(&mut rng),
        TreeAction::from_roll(TreeActionKind::Dying, twin.next_u32())
    );
    assert_eq!(
        TreeAction::burning(&mut rng),
        TreeAction::from_roll(TreeActionKind::Burning, twin.next_u32())
    );
    assert_eq!(
        TreeAction::felling(&mut rng),
        TreeAction::from_roll(TreeActionKind::Felling, twin.next_u32())
    );
    assert_eq!(
        TreeAction::random(TreeActionKind::Dying, &mut rng),
        TreeAction::from_roll(TreeActionKind::Dying, twin.next_u32())
    );
}

#[test]
fn random_actions_stay_within_bounds() {
    let mut rng = WyRand::seed_from_u64(2024);
    for _ in 0..200 {
        let slow = TreeAction::felling(&mut rng);
        assert_eq!(slow.kind, TreeActionKind::Felling);
        assert_eq!(slow.timer.elapsed, 0);
        assert!(!slow.timer.repeating);
        assert!(1_000_000_000 <= slow.timer.duration && slow.timer.duration <= 3_900_000_000);
        assert_eq!(slow.timer.duration % 100_000_000, 0);
        let fire = TreeAction::burning(&mut rng);
        assert_eq!(fire.kind, TreeActionKind::Burning);
        assert!(fire.timer.repeating);
        assert!(500_000_000 <= fire.timer.duration && fire.timer.duration <= 1_950_000_000);
        assert_eq!(fire.timer.duration % 50_000_000, 0);
    }
}

#[test]
fn density_decides_between_growth_and_death() {
    assert_eq!(tree_logic(0), Some(TreeActionKind::Growing));
    assert_eq!(tree_logic(2), Some(TreeActionKind::Growing));
    assert_eq!(tree_logic(3), None);
    assert_eq!(tree_logic(4), None);
    assert_eq!(tree_logic(5), Some(TreeActionKind::Dying));
    assert_eq!(tree_logic(16), Some(TreeActionKind::Dying));
}

#[test]
fn sweeps_schedule_their_kind() {
    assert_eq!(Setup::Growing.kind(), TreeActionKind::Growing);
    assert_eq!(Setup::OvercrowdDying.kind(), TreeActionKind::Dying);
    assert_eq!(Setup::SeedlingDying.kind(), TreeActionKind::Dying);
    assert_eq!(Setup::Felling.kind(), TreeActionKind::Felling);
}

#[test]
fn sweeps_apply_by_their_rules() {
    let seedling = TreeTile::new(Tree::Seedling);
    let overmature = TreeTile::new(Tree::Overmature);
    let busy = TreeTile {
        action: Some(TreeAction::from_roll(TreeActionKind::Growing, 0)),
        ..TreeTile::new(Tree::Mature)
    };
    let sheltered = TreeTile { bad_weather: true, ..TreeTile::new(Tree::Mature) };

    assert!(Setup::Growing.applies(&seedling, 2));
    assert!(!Setup::Growing.applies(&seedling, 3));
    assert!(!Setup::Growing.applies(&overmature, 0));
    assert!(!Setup::Growing.applies(&busy, 0));

    assert!(!Setup::OvercrowdDying.applies(&seedling, 4));
    assert!(Setup::OvercrowdDying.applies(&seedling, 5));
    assert!(Setup::OvercrowdDying.applies(&overmature, 5));
    assert!(!Setup::OvercrowdDying.applies(&busy, 9));

    assert!(Setup::SeedlingDying.applies(&seedling, 16));
    assert!(!Setup::SeedlingDying.applies(&overmature, 0));

    assert!(!Setup::Felling.applies(&seedling, 0));
    assert!(Setup::Felling.applies(&overmature, 0));
    assert!(Setup::Felling.applies(&busy, 0));
    assert!(!Setup::Felling.applies(&sheltered, 0));
}
