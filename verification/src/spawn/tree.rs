//! Trees and their life stages.

use itertools::Itertools;
use vstd::prelude::*;

use crate::season::{Season, SeasonKind};
use crate::spawn::level::{lemma_index, Level, Tile, TilePos, TilemapSize, TreeTile};

verus! {

/// The life stage of a tree. A tree advances one stage at a time.
#[derive(Clone, Copy, Debug, PartialEq, Eq, Hash, Structural)]
pub enum Tree {
    Seedling,
    Immature,
    Mature,
    Overmature,
}

impl Tree {
    /// The position of the stage in the life cycle, counted from zero.
    pub open spec fn rank(self) -> nat {
        match self {
            Tree::Seedling => 0,
            Tree::Immature => 1,
            Tree::Mature => 2,
            Tree::Overmature => 3,
        }
    }

    /// The points a tree of this stage is worth when it is felled.
    pub open spec fn spec_score(self) -> nat {
        match self {
            Tree::Seedling => 0,
            Tree::Immature => 2,
            Tree::Mature => 5,
            Tree::Overmature => 6,
        }
    }

    /// The weight of the tree in the density of its neighbourhood.
    pub open spec fn spec_level(self) -> nat {
        match self {
            Tree::Overmature => 2,
            _ => 1,
        }
    }

    /// The stage that follows this one, if there is one.
    pub open spec fn spec_next(self) -> Option<Tree> {
        match self {
            Tree::Seedling => Some(Tree::Immature),
            Tree::Immature => Some(Tree::Mature),
            Tree::Mature => Some(Tree::Overmature),
            Tree::Overmature => None,
        }
    }

    /// The stage of the tree after a growth step: the following stage, and
    /// for an overmature tree the same stage.
    pub open spec fn grown(self) -> Tree {
        match self.spec_next() {
            Some(next) => next,
            None => self,
        }
    }

    /// Whether the tree is mature or overmature: such a tree is felled in
    /// winter, bears seeds in autumn, and leaves ashes that enrich the
    /// ground.
    pub open spec fn spec_is_grown_up(self) -> bool {
        self == Tree::Mature || self == Tree::Overmature
    }

    /// The name of the stage as the player reads it.
    pub open spec fn spec_name(self) -> Seq<char> {
        match self {
            Tree::Seedling => "Seedling"@,
            Tree::Immature => "Immature"@,
            Tree::Mature => "Mature"@,
            Tree::Overmature => "Overmature"@,
        }
    }

    /// The points a tree of this stage is worth when it is felled.
    pub fn score(&self) -> (points: usize)
        ensures
            points == self.spec_score(),
    {
        match self {
            Tree::Seedling => 0,
            Tree::Immature => 2,
            Tree::Mature => 5,
            Tree::Overmature => 6,
        }
    }

    /// The offset of the stage's first picture in the tree tile set, which
    /// holds four pictures, one per season, for each stage.
    pub fn texture_index_offset(&self) -> (offset: u32)
        ensures
            offset == 4 * self.rank(),
    {
        match self {
            Tree::Seedling => 0,
            Tree::Immature => 4,
            Tree::Mature => 8,
            Tree::Overmature => 12,
        }
    }

    /// The name of the stage as the player reads it.
    pub fn name(&self) -> (name: &'static str)
        ensures
            name@ == self.spec_name(),
    {
        match self {
            Tree::Seedling => "Seedling",
            Tree::Immature => "Immature",
            Tree::Mature => "Mature",
            Tree::Overmature => "Overmature",
        }
    }

    /// The stage that follows this one, if there is one.
    pub fn next(&self) -> (next: Option<Tree>)
        ensures
            next == self.spec_next(),
    {
        match self {
            Tree::Seedling => Some(Tree::Immature),
            Tree::Immature => Some(Tree::Mature),
            Tree::Mature => Some(Tree::Overmature),
            Tree::Overmature => None,
        }
    }

    /// The weight of the tree in the density of its neighbourhood.
    pub fn level(&self) -> (level: u32)
        ensures
            level == self.spec_level(),
    {
        match self {
            Tree::Seedling => 1,
            Tree::Immature => 1,
            Tree::Mature => 1,
            Tree::Overmature => 2,
        }
    }

    /// Whether the tree is mature or overmature.
    pub fn is_grown_up(&self) -> (grown_up: bool)
        ensures
            grown_up == self.spec_is_grown_up(),
    {
        matches!(self, Tree::Mature | Tree::Overmature)
    }
}

/// The request to put a tree on a tile. With `use_resource` the tree is paid
/// for out of the player's budget.
#[derive(Clone, Copy, Debug, PartialEq, Eq, Hash)]
pub struct SpawnTree {
    pub tile_pos: TilePos,
    pub tree: Tree,
    pub use_resource: bool,
}

/// The request to take the tree off a tile.
#[derive(Clone, Copy, Debug, PartialEq, Eq, Hash)]
pub struct DespawnTree {
    pub tile_pos: TilePos,
}

/// Growth moves a tree exactly one stage forward until it is overmature, and
/// an overmature tree has no further stage.
pub proof fn lemma_growth_is_stepwise(tree: Tree)
    ensures
        tree.spec_next() is None <==> tree == Tree::Overmature,
        tree.spec_next() matches Some(next) ==> next.rank() == tree.rank() + 1,
        tree.grown().rank() == if tree == Tree::Overmature { 3 } else { tree.rank() + 1 },
        tree.grown().rank() <= 3,
{
}

/// Repeated growth never leaves the life cycle: from any stage, three steps
/// are enough to reach the last stage, and further steps change nothing.
pub proof fn lemma_growth_ends_overmature(tree: Tree)
    ensures
        tree.grown().grown().grown() == Tree::Overmature,
        Tree::Overmature.grown() == Tree::Overmature,
{
}

/// A request that names the tile it is about.
pub trait OnTile: Copy {
    /// The tile that the request is about.
    spec fn spec_tile_pos(&self) -> TilePos;

    /// The column and the row of the tile that the request is about.
    fn key(&self) -> (key: (u32, u32))
        ensures
            key == (self.spec_tile_pos().x, self.spec_tile_pos().y),
    ;
}

impl OnTile for SpawnTree {
    open spec fn spec_tile_pos(&self) -> TilePos {
        self.tile_pos
    }

    fn key(&self) -> (key: (u32, u32)) {
        (self.tile_pos.x, self.tile_pos.y)
    }
}

impl OnTile for DespawnTree {
    open spec fn spec_tile_pos(&self) -> TilePos {
        self.tile_pos
    }

    fn key(&self) -> (key: (u32, u32)) {
        (self.tile_pos.x, self.tile_pos.y)
    }
}

/// Whether one of the first `index` requests is about the same tile as the
/// request at `index`.
pub open spec fn is_repeat<E: OnTile>(events: Seq<E>, index: int) -> bool {
    exists|earlier: int|
        0 <= earlier < index && (#[trigger] events[earlier]).spec_tile_pos()
            == events[index].spec_tile_pos()
}

/// The requests without those that repeat a tile: of the requests about one
/// tile the first stays, and the order of those that stay is kept.
pub open spec fn spec_unique<E: OnTile>(events: Seq<E>) -> Seq<E>
    decreases events.len(),
{
    if events.len() == 0 {
        Seq::empty()
    } else if is_repeat(events, events.len() - 1) {
        spec_unique(events.drop_last())
    } else {
        spec_unique(events.drop_last()).push(events.last())
    }
}

/// Drops the requests that repeat a tile, with `Itertools::unique_by` keyed
/// by `OnTile::key`.
///
/// Not proved: that the adaptor keeps, of the items with the same key, the
/// first one, and keeps the order of the items it lets through.
#[verifier::external_body]
fn unique_by_tile<E: OnTile>(events: &Vec<E>) -> (unique: Vec<E>)
    ensures
        unique@ == spec_unique(events@),
{
    events.iter().unique_by(|event| event.key()).copied().collect()
}

/// Whether no two of the requests are about the same tile.
pub open spec fn no_repeats<E: OnTile>(events: Seq<E>) -> bool {
    forall|first: int, second: int|
        0 <= first < second < events.len() ==> (#[trigger] events[first]).spec_tile_pos() != (
        #[trigger] events[second]).spec_tile_pos()
}

/// The requests for trees of one round as they go out to the board: no two
/// of them are about the same tile. Of the requests about one tile the
/// first is kept, so that every tile that was named is still named.
pub fn unique_spawns(events: &Vec<SpawnTree>) -> (unique: Vec<SpawnTree>)
    ensures
        unique@ == spec_unique(events@),
        no_repeats(unique@),
        forall|pos: TilePos| names_tile(unique@, pos) <==> names_tile(events@, pos),
{
    let unique = unique_by_tile(events);
    proof {
        lemma_unique_has_no_repeats(events@);
        assert forall|pos: TilePos| names_tile(unique@, pos) <==> names_tile(events@, pos) by {
            lemma_unique_names_the_same_tiles(events@, pos);
        }
    }
    unique
}

/// The requests to take trees off the board of one round as they go out to
/// the board: no two of them are about the same tile, and every tile that
/// was named is still named.
pub fn unique_despawns(events: &Vec<DespawnTree>) -> (unique: Vec<DespawnTree>)
    ensures
        unique@ == spec_unique(events@),
        no_repeats(unique@),
        forall|pos: TilePos| names_tile(unique@, pos) <==> names_tile(events@, pos),
{
    let unique = unique_by_tile(events);
    proof {
        lemma_unique_has_no_repeats(events@);
        assert forall|pos: TilePos| names_tile(unique@, pos) <==> names_tile(events@, pos) by {
            lemma_unique_names_the_same_tiles(events@, pos);
        }
    }
    unique
}

/// The picture in the tree tile set that shows a tree in a season.
pub fn tree_texture_index(kind: SeasonKind, tree: Tree) -> (index: u32)
    ensures
        index == kind.spec_texture_index() + 4 * tree.rank(),
{
    kind.texture_index() + tree.texture_index_offset()
}

impl Tile {
    /// The tile after a tree of the given stage was asked for: the tree
    /// stands there if the tile was empty, and an occupied tile stays as it
    /// is.
    pub open spec fn spec_spawned(self, tree: Tree) -> Tile {
        if self.tree is None {
            Tile { tree: Some(TreeTile::spec_new(tree)), ..self }
        } else {
            self
        }
    }

    /// The tile without its tree and all that was attached to the tree.
    pub open spec fn spec_despawned(self) -> Tile {
        Tile { tree: None, ..self }
    }
}

/// Whether a request for a tree takes effect on the given tiles: its tile
/// lies within the level and is empty.
pub open spec fn takes_effect(tiles: Seq<Tile>, size: TilemapSize, event: SpawnTree) -> bool {
    &&& event.tile_pos.x < size.x
    &&& event.tile_pos.y < size.y
    &&& tiles[event.tile_pos.y * size.x + event.tile_pos.x].tree is None
}

/// The tiles of a level of the given size, and what is left of the budget,
/// after the requests were carried out one by one.
///
/// A request for a tile outside the level or for an occupied tile does
/// nothing. A request that takes effect and is to be paid for takes one off
/// the budget, unless the budget is empty.
pub open spec fn spec_spawn_all(
    tiles: Seq<Tile>,
    size: TilemapSize,
    resource: nat,
    events: Seq<SpawnTree>,
) -> (Seq<Tile>, nat)
    decreases events.len(),
{
    if events.len() == 0 {
        (tiles, resource)
    } else {
        let (earlier, left) = spec_spawn_all(tiles, size, resource, events.drop_last());
        let event = events.last();
        if takes_effect(earlier, size, event) {
            let index = event.tile_pos.y * size.x + event.tile_pos.x;
            (
                earlier.update(index, earlier[index].spec_spawned(event.tree)),
                if event.use_resource && left > 0 {
                    (left - 1) as nat
                } else {
                    left
                },
            )
        } else {
            (earlier, left)
        }
    }
}

/// Carries out the requests for trees of one round and empties the list.
///
/// Requests that repeat a tile are dropped first. Then each request whose
/// tile lies within the level and is empty puts its tree there, and takes
/// one off the player's budget if it is to be paid for and the budget is
/// not empty.
pub fn spawn_tree(level: &mut Level, season: &mut Season, spawn_tree_events: &mut Vec<SpawnTree>)
    requires
        old(level).wf(),
    ensures
        final(level).wf(),
        final(level).size == old(level).size,
        (final(level).tiles@, final(season).user_action_resource as nat) == spec_spawn_all(
            old(level).tiles@,
            old(level).size,
            old(season).user_action_resource as nat,
            spec_unique(old(spawn_tree_events)@),
        ),
        final(season).year == old(season).year,
        final(season).state == old(season).state,
        final(season).kind == old(season).kind,
        final(spawn_tree_events)@ == Seq::<SpawnTree>::empty(),
{
    let ghost before = *level;
    let ghost budget = season.user_action_resource as nat;
    let unique = unique_spawns(spawn_tree_events);
    let mut index: usize = 0;
    while index < unique.len()
        invariant
            index <= unique.len(),
            before.wf(),
            level.wf(),
            level.size == before.size,
            season.year == old(season).year,
            season.state == old(season).state,
            season.kind == old(season).kind,
            (level.tiles@, season.user_action_resource as nat) == spec_spawn_all(
                before.tiles@,
                before.size,
                budget,
                unique@.take(index as int),
            ),
        decreases unique.len() - index,
    {
        let event = unique[index];
        proof {
            assert(unique@.take(index + 1).drop_last() == unique@.take(index as int));
            assert(unique@.take(index + 1).last() == event);
        }
        if let Some(mut tile) = level.get(event.tile_pos) {
            if tile.tree.is_none() {
                tile.tree = Some(TreeTile::new(event.tree));
                level.set(event.tile_pos, tile);
                if event.use_resource && season.user_action_resource > 0 {
                    season.user_action_resource -= 1;
                }
            }
        }
        index += 1;
    }
    proof {
        assert(unique@.take(index as int) == unique@);
    }
    spawn_tree_events.clear();
}

/// Whether one of the requests is about the given tile.
pub open spec fn names_tile<E: OnTile>(events: Seq<E>, pos: TilePos) -> bool {
    exists|index: int| 0 <= index < events.len() && (#[trigger] events[index]).spec_tile_pos() == pos
}

impl Level {
    /// Whether this level is `before` without the trees on the tiles that
    /// the requests name.
    pub open spec fn is_despawn_of(&self, before: &Level, events: Seq<DespawnTree>) -> bool {
        &&& self.wf()
        &&& self.size == before.size
        &&& forall|pos: TilePos|
            before.contains(pos) ==> #[trigger] self.tile(pos) == if names_tile(events, pos) {
                before.tile(pos).spec_despawned()
            } else {
                before.tile(pos)
            }
    }
}

/// Dropping the requests that repeat a tile leaves some request for every
/// tile that was named, and for no other.
pub proof fn lemma_unique_names_the_same_tiles<E: OnTile>(events: Seq<E>, pos: TilePos)
    ensures
        names_tile(spec_unique(events), pos) <==> names_tile(events, pos),
    decreases events.len(),
{
    if events.len() > 0 {
        let earlier = events.drop_last();
        lemma_unique_names_the_same_tiles(earlier, pos);
        let kept = spec_unique(earlier);
        if names_tile(events, pos) {
            let index = choose|index: int|
                0 <= index < events.len() && (#[trigger] events[index]).spec_tile_pos() == pos;
            if index < events.len() - 1 {
                assert(earlier[index].spec_tile_pos() == pos);
                assert(names_tile(earlier, pos));
            } else if is_repeat(events, events.len() - 1) {
                let first = choose|first: int|
                    0 <= first < events.len() - 1 && (#[trigger] events[first]).spec_tile_pos()
                        == events[events.len() - 1].spec_tile_pos();
                assert(earlier[first].spec_tile_pos() == pos);
                assert(names_tile(earlier, pos));
            } else {
                assert(spec_unique(events)[kept.len() as int].spec_tile_pos() == pos);
            }
            if names_tile(earlier, pos) {
                let at = choose|at: int|
                    0 <= at < kept.len() && (#[trigger] kept[at]).spec_tile_pos() == pos;
                assert(spec_unique(events)[at].spec_tile_pos() == pos);
            }
        }
        if names_tile(spec_unique(events), pos) {
            let at = choose|at: int|
                0 <= at < spec_unique(events).len() && (#[trigger] spec_unique(
                    events,
                )[at]).spec_tile_pos() == pos;
            if at < kept.len() {
                assert(kept[at].spec_tile_pos() == pos);
                assert(names_tile(earlier, pos));
                let index = choose|index: int|
                    0 <= index < earlier.len() && (#[trigger] earlier[index]).spec_tile_pos()
                        == pos;
                assert(events[index].spec_tile_pos() == pos);
            } else {
                assert(events[events.len() - 1].spec_tile_pos() == pos);
            }
        }
    }
}

/// Once the requests that repeat a tile are dropped, no two requests are
/// about the same tile.
pub proof fn lemma_unique_has_no_repeats<E: OnTile>(events: Seq<E>)
    ensures
        no_repeats(spec_unique(events)),
    decreases events.len(),
{
    if events.len() > 0 {
        let earlier = events.drop_last();
        let kept = spec_unique(earlier);
        lemma_unique_has_no_repeats(earlier);
        if !is_repeat(events, events.len() - 1) {
            let last = events.last();
            lemma_unique_names_the_same_tiles(earlier, last.spec_tile_pos());
            assert forall|first: int, second: int|
                0 <= first < second < kept.len() + 1 implies (#[trigger] spec_unique(
                events,
            )[first]).spec_tile_pos() != (#[trigger] spec_unique(events)[second]).spec_tile_pos() by {
                if second == kept.len() {
                    if kept[first].spec_tile_pos() == last.spec_tile_pos() {
                        assert(names_tile(kept, last.spec_tile_pos()));
                        let named = choose|named: int|
                            0 <= named < earlier.len() && (#[trigger] earlier[named]).spec_tile_pos()
                                == last.spec_tile_pos();
                        assert(events[named].spec_tile_pos() == events[events.len()
                            - 1].spec_tile_pos());
                    }
                } else {
                    assert(kept[first].spec_tile_pos() != kept[second].spec_tile_pos());
                }
            }
        }
    }
}

/// Carries out the requests to take trees off the board and empties the
/// list. A tree goes with all that was attached to it; the ground stays.
/// Requests for empty tiles or for tiles outside the level do nothing.
pub fn despawn_tree(level: &mut Level, despawn_tree_events: &mut Vec<DespawnTree>)
    requires
        old(level).wf(),
    ensures
        final(level).is_despawn_of(old(level), old(despawn_tree_events)@),
        final(despawn_tree_events)@ == Seq::<DespawnTree>::empty(),
{
    let ghost before = *level;
    let unique = unique_despawns(despawn_tree_events);
    let mut index: usize = 0;
    while index < unique.len()
        invariant
            index <= unique.len(),
            before.wf(),
            level.is_despawn_of(&before, unique@.take(index as int)),
        decreases unique.len() - index,
    {
        let event = unique[index];
        let ghost entering = *level;
        let ghost done = unique@.take(index as int);
        let ghost next = unique@.take(index + 1);
        if let Some(mut tile) = level.get(event.tile_pos) {
            tile.tree = None;
            level.set(event.tile_pos, tile);
        }
        proof {
            assert(next[index as int] == event);
            assert forall|pos: TilePos| before.contains(pos) implies #[trigger] level.tile(pos)
                == if names_tile(next, pos) {
                before.tile(pos).spec_despawned()
            } else {
                before.tile(pos)
            } by {
                let _ = entering.tile(pos);
                if names_tile(done, pos) {
                    let at = choose|at: int|
                        0 <= at < done.len() && (#[trigger] done[at]).spec_tile_pos() == pos;
                    assert(next[at].spec_tile_pos() == pos);
                }
                if names_tile(next, pos) && pos != event.tile_pos {
                    let at = choose|at: int|
                        0 <= at < next.len() && (#[trigger] next[at]).spec_tile_pos() == pos;
                    assert(done[at].spec_tile_pos() == pos);
                }
            }
        }
        index += 1;
    }
    proof {
        assert(unique@.take(index as int) == unique@);
        assert forall|pos: TilePos| before.contains(pos) implies #[trigger] level.tile(pos)
            == if names_tile(old(despawn_tree_events)@, pos) {
            before.tile(pos).spec_despawned()
        } else {
            before.tile(pos)
        } by {
            lemma_unique_names_the_same_tiles(old(despawn_tree_events)@, pos);
        }
    }
    despawn_tree_events.clear();
}

/// Carrying out requests for trees neither adds tiles nor takes any away.
pub proof fn lemma_spawn_keeps_tiles(
    tiles: Seq<Tile>,
    size: TilemapSize,
    resource: nat,
    events: Seq<SpawnTree>,
)
    requires
        tiles.len() == size.x * size.y,
    ensures
        spec_spawn_all(tiles, size, resource, events).0.len() == tiles.len(),
    decreases events.len(),
{
    if events.len() > 0 {
        lemma_spawn_keeps_tiles(tiles, size, resource, events.drop_last());
        let earlier = spec_spawn_all(tiles, size, resource, events.drop_last()).0;
        if takes_effect(earlier, size, events.last()) {
            lemma_index(size, events.last().tile_pos);
        }
    }
}

/// After requests for trees were carried out, a tree stands on every tile
/// of the level that one of them named.
pub proof fn lemma_named_tiles_are_occupied(
    tiles: Seq<Tile>,
    size: TilemapSize,
    resource: nat,
    events: Seq<SpawnTree>,
    pos: TilePos,
)
    requires
        tiles.len() == size.x * size.y,
        names_tile(events, pos),
        pos.x < size.x,
        pos.y < size.y,
    ensures
        spec_spawn_all(tiles, size, resource, events).0[pos.y * size.x + pos.x].tree is Some,
    decreases events.len(),
{
    let earlier_events = events.drop_last();
    let earlier = spec_spawn_all(tiles, size, resource, earlier_events).0;
    let event = events.last();
    lemma_spawn_keeps_tiles(tiles, size, resource, earlier_events);
    lemma_index(size, pos);
    if event.tile_pos == pos {
    } else {
        let named = choose|index: int|
            0 <= index < events.len() && (#[trigger] events[index]).spec_tile_pos() == pos;
        assert(earlier_events[named].spec_tile_pos() == pos);
        lemma_named_tiles_are_occupied(tiles, size, resource, earlier_events, pos);
        if takes_effect(earlier, size, event) {
            lemma_index(size, event.tile_pos);
        }
    }
}

/// A request for a tile that an earlier request of the round has named
/// changes nothing: neither the board nor the budget.
pub proof fn lemma_repeat_changes_nothing(
    tiles: Seq<Tile>,
    size: TilemapSize,
    resource: nat,
    events: Seq<SpawnTree>,
    repeat: SpawnTree,
)
    requires
        tiles.len() == size.x * size.y,
        names_tile(events, repeat.tile_pos),
    ensures
        spec_spawn_all(tiles, size, resource, events.push(repeat)) == spec_spawn_all(
            tiles,
            size,
            resource,
            events,
        ),
{
    assert(events.push(repeat).drop_last() == events);
    if repeat.tile_pos.x < size.x && repeat.tile_pos.y < size.y {
        lemma_named_tiles_are_occupied(tiles, size, resource, events, repeat.tile_pos);
    }
}

/// Whether the requests that repeat a tile are dropped or carried out
/// makes no difference: the first request for a tile decides.
pub proof fn lemma_spawn_ignores_repeats(
    tiles: Seq<Tile>,
    size: TilemapSize,
    resource: nat,
    events: Seq<SpawnTree>,
)
    requires
        tiles.len() == size.x * size.y,
    ensures
        spec_spawn_all(tiles, size, resource, spec_unique(events)) == spec_spawn_all(
            tiles,
            size,
            resource,
            events,
        ),
    decreases events.len(),
{
    if events.len() > 0 {
        let earlier = events.drop_last();
        let last = events.last();
        lemma_spawn_ignores_repeats(tiles, size, resource, earlier);
        assert(earlier.push(last) == events);
        if is_repeat(events, events.len() - 1) {
            let first = choose|first: int|
                0 <= first < events.len() - 1 && (#[trigger] events[first]).spec_tile_pos()
                    == events[events.len() - 1].spec_tile_pos();
            assert(earlier[first].spec_tile_pos() == last.tile_pos);
            lemma_repeat_changes_nothing(tiles, size, resource, earlier, last);
        } else {
            assert(spec_unique(earlier).push(last).drop_last() == spec_unique(earlier));
        }
    }
}

/// Two requests for the same empty tile of the level, with nothing asked
/// before them, put exactly the tree of the first request there, charge the
/// budget as the first request alone does, and leave the rest of the board
/// alone.
pub proof fn lemma_two_requests_one_tree(
    tiles: Seq<Tile>,
    size: TilemapSize,
    resource: nat,
    first: SpawnTree,
    second: SpawnTree,
)
    requires
        tiles.len() == size.x * size.y,
        first.tile_pos == second.tile_pos,
        first.tile_pos.x < size.x,
        first.tile_pos.y < size.y,
        tiles[first.tile_pos.y * size.x + first.tile_pos.x].tree is None,
    ensures
        spec_spawn_all(tiles, size, resource, seq![first, second]) == spec_spawn_all(
            tiles,
            size,
            resource,
            seq![first],
        ),
        spec_spawn_all(tiles, size, resource, seq![first, second]).0 == tiles.update(
            first.tile_pos.y * size.x + first.tile_pos.x,
            Tile {
                tree: Some(TreeTile::spec_new(first.tree)),
                ..tiles[first.tile_pos.y * size.x + first.tile_pos.x]
            },
        ),
        spec_spawn_all(tiles, size, resource, seq![first, second]).1 == if first.use_resource
            && resource > 0 {
            (resource - 1) as nat
        } else {
            resource
        },
{
    let one = seq![first];
    assert(one.push(second) == seq![first, second]);
    assert(one[0].spec_tile_pos() == second.tile_pos);
    lemma_repeat_changes_nothing(tiles, size, resource, one, second);
    assert(one.drop_last() == Seq::<SpawnTree>::empty());
    assert(spec_spawn_all(tiles, size, resource, one.drop_last()) == (tiles, resource));
    lemma_index(size, first.tile_pos);
}

} // verus!
