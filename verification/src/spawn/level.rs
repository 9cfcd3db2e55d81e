//! The level: a rectangular grid of tiles, each with its ground and at most
//! one tree.

use vstd::arithmetic::div_mod::lemma_fundamental_div_mod_converse;
use vstd::prelude::*;

use crate::season::logic::{TreeAction, TreeActionKind};
use crate::season::SeasonTransition;
use crate::spawn::tree::Tree;

verus! {

/// The side of the square board that a game is played on.
pub const MAP_SIZE: u32 = 8;

/// The picture in the effect tile set that shows a sheltered tree.
pub const BAD_WEATHER_TEXTURE_INDEX: u32 = 4;

/// The coordinates of a tile: `x` counts columns and `y` rows, from zero.
#[derive(Clone, Copy, Debug, PartialEq, Eq, Hash, Structural)]
pub struct TilePos {
    pub x: u32,
    pub y: u32,
}

impl TilePos {
    /// The position in column `x` and row `y`.
    pub fn new(x: u32, y: u32) -> (pos: Self)
        ensures
            pos == (TilePos { x, y }),
    {
        TilePos { x, y }
    }

    /// Whether `other` is one of the eight tiles around this one.
    pub open spec fn is_neighbor(self, other: TilePos) -> bool {
        &&& self != other
        &&& -1 <= other.x - self.x <= 1
        &&& -1 <= other.y - self.y <= 1
    }
}

/// The number of columns (`x`) and rows (`y`) of a level.
#[derive(Clone, Copy, Debug, PartialEq, Eq, Hash, Structural)]
pub struct TilemapSize {
    pub x: u32,
    pub y: u32,
}

/// The ground of a tile. Ashes of a grown tree make it rich in nutrients,
/// and the next tree felled there uses them up.
#[derive(Clone, Copy, Debug, PartialEq, Eq, Hash, Structural)]
pub enum Ground {
    Normal,
    Nutrient,
}

impl Ground {
    /// The name of the ground as the player reads it.
    pub open spec fn spec_name(self) -> Seq<char> {
        match self {
            Ground::Normal => "Normal"@,
            Ground::Nutrient => "Nutrient"@,
        }
    }

    /// By how much a tree felled on this ground counts.
    pub open spec fn spec_multiplier(self) -> nat {
        match self {
            Ground::Normal => 1,
            Ground::Nutrient => 3,
        }
    }

    /// The name of the ground as the player reads it.
    pub fn name(&self) -> (name: &'static str)
        ensures
            name@ == self.spec_name(),
    {
        match self {
            Ground::Normal => "Normal",
            Ground::Nutrient => "Nutrient",
        }
    }

    /// The offset of the ground's first picture in the ground tile set,
    /// which holds four pictures, one per season, for each ground.
    pub fn texture_index_offset(&self) -> (offset: u32)
        ensures
            offset == if *self == Ground::Nutrient { 4nat } else { 0nat },
    {
        match self {
            Ground::Normal => 0,
            Ground::Nutrient => 4,
        }
    }

    /// By how much a tree felled on this ground counts.
    pub fn multiplier(&self) -> (factor: usize)
        ensures
            factor == self.spec_multiplier(),
    {
        match self {
            Ground::Normal => 1,
            Ground::Nutrient => 3,
        }
    }
}

/// A tree on the board together with all that is attached to it: the
/// action scheduled for it, whether it is sheltered from felling, and how
/// often its fire has flared up.
#[derive(Clone, Copy, Debug, PartialEq, Eq)]
pub struct TreeTile {
    pub tree: Tree,
    pub action: Option<TreeAction>,
    pub bad_weather: bool,
    pub burn_ticks: usize,
}

impl TreeTile {
    /// A tree as it is planted: nothing scheduled, not sheltered, not on
    /// fire.
    pub open spec fn spec_new(tree: Tree) -> TreeTile {
        TreeTile { tree, action: None, bad_weather: false, burn_ticks: 0 }
    }

    /// A tree as it is planted: nothing scheduled, not sheltered, not on
    /// fire.
    pub fn new(tree: Tree) -> (tile: Self)
        ensures
            tile == Self::spec_new(tree),
    {
        TreeTile { tree, action: None, bad_weather: false, burn_ticks: 0 }
    }
}

/// One tile of the level. The ground stays when the tree goes.
#[derive(Clone, Copy, Debug, PartialEq, Eq)]
pub struct Tile {
    pub ground: Ground,
    pub tree: Option<TreeTile>,
    pub transition: Option<SeasonTransition>,
}

impl Tile {
    /// Bare normal ground.
    pub open spec fn spec_bare() -> Tile {
        Tile { ground: Ground::Normal, tree: None, transition: None }
    }

    /// The stage of the tree on the tile, if there is a tree.
    pub open spec fn spec_stage(self) -> Option<Tree> {
        match self.tree {
            Some(occupant) => Some(occupant.tree),
            None => None,
        }
    }

    /// What the tile adds to the density of the tiles around it.
    pub open spec fn spec_level(self) -> nat {
        match self.tree {
            Some(occupant) => occupant.tree.spec_level(),
            None => 0,
        }
    }

    /// The action scheduled for the tree on the tile, if there is one.
    pub open spec fn spec_action(self) -> Option<TreeAction> {
        match self.tree {
            Some(occupant) => occupant.action,
            None => None,
        }
    }

    /// Whether the tile holds a sheltered tree.
    pub open spec fn spec_bad_weather(self) -> bool {
        match self.tree {
            Some(occupant) => occupant.bad_weather,
            None => false,
        }
    }

    /// The tile with `action` scheduled for its tree in place of what was
    /// scheduled before; the same tile if it has no tree.
    pub open spec fn with_action(self, action: Option<TreeAction>) -> Tile {
        match self.tree {
            Some(occupant) => Tile { tree: Some(TreeTile { action, ..occupant }), ..self },
            None => self,
        }
    }

    /// Bare normal ground.
    pub fn bare() -> (tile: Self)
        ensures
            tile == Self::spec_bare(),
    {
        Tile { ground: Ground::Normal, tree: None, transition: None }
    }

    /// The stage of the tree on the tile, if there is a tree.
    pub fn stage(&self) -> (stage: Option<Tree>)
        ensures
            stage == self.spec_stage(),
    {
        match self.tree {
            Some(occupant) => Some(occupant.tree),
            None => None,
        }
    }

    /// What the tile adds to the density of the tiles around it.
    pub fn level(&self) -> (level: u32)
        ensures
            level == self.spec_level(),
    {
        match self.tree {
            Some(occupant) => occupant.tree.level(),
            None => 0,
        }
    }

    /// The action scheduled for the tree on the tile, if there is one.
    pub fn action(&self) -> (action: Option<TreeAction>)
        ensures
            action == self.spec_action(),
    {
        match self.tree {
            Some(occupant) => occupant.action,
            None => None,
        }
    }

    /// Schedules `action` for the tree on the tile in place of what was
    /// scheduled before. A tile without a tree stays as it is.
    pub fn set_action(&mut self, action: Option<TreeAction>)
        ensures
            *final(self) == old(self).with_action(action),
    {
        match self.tree {
            Some(occupant) => {
                self.tree = Some(TreeTile { action, ..occupant });
            },
            None => {},
        }
    }
}

/// The tile that the player has picked for the next action, if any.
#[derive(Clone, Copy, Debug, PartialEq, Eq)]
pub struct SelectedTile(pub Option<TilePos>);

/// The board. The tiles are kept row by row.
#[derive(Clone, Debug, PartialEq, Eq)]
pub struct Level {
    pub size: TilemapSize,
    pub tiles: Vec<Tile>,
}

impl View for Level {
    type V = Map<TilePos, Tile>;

    /// A level seen as a map: each position within the level has its tile.
    open spec fn view(&self) -> Map<TilePos, Tile> {
        Map::new(|pos: TilePos| self.contains(pos), |pos: TilePos| self.tile(pos))
    }
}

impl Level {
    /// A level is well formed when it holds one tile for each position
    /// within its size.
    pub open spec fn wf(&self) -> bool {
        self.tiles@.len() == self.size.x * self.size.y
    }

    /// Whether `pos` lies within the level.
    pub open spec fn contains(&self, pos: TilePos) -> bool {
        pos.x < self.size.x && pos.y < self.size.y
    }

    /// The place of a position in the row-by-row order of the tiles.
    pub open spec fn index_of(&self, pos: TilePos) -> int {
        pos.y * self.size.x + pos.x
    }

    /// The position that takes the given place in the row-by-row order.
    pub open spec fn pos_at(&self, index: int) -> TilePos {
        TilePos {
            x: (index % (self.size.x as int)) as u32,
            y: (index / (self.size.x as int)) as u32,
        }
    }

    /// The tile at a position of the level.
    pub open spec fn tile(&self, pos: TilePos) -> Tile
        recommends
            self.contains(pos),
    {
        self.tiles@[self.index_of(pos)]
    }

    /// The tile at a position, and nothing outside the level.
    pub open spec fn spec_get(&self, pos: TilePos) -> Option<Tile> {
        if self.contains(pos) {
            Some(self.tile(pos))
        } else {
            None
        }
    }

    /// The tree, with all that is attached to it, at a position. There is
    /// none outside the level.
    pub open spec fn spec_get_occupant(&self, pos: TilePos) -> Option<TreeTile> {
        if self.contains(pos) {
            self.tile(pos).tree
        } else {
            None
        }
    }

    /// The position `dx` columns and `dy` rows from `pos`, unless that lies
    /// outside the level: the level has edges and does not wrap around.
    pub open spec fn spec_offset(&self, pos: TilePos, dx: int, dy: int) -> Option<TilePos> {
        if 0 <= pos.x + dx < self.size.x && 0 <= pos.y + dy < self.size.y {
            Some(TilePos { x: (pos.x + dx) as u32, y: (pos.y + dy) as u32 })
        } else {
            None
        }
    }

    /// What the tile at `pos`, if `pos` is one, adds to the density around
    /// it. Where there is no tile or no tree, that is nothing.
    pub open spec fn spec_level_at(&self, pos: Option<TilePos>) -> nat {
        match pos {
            Some(pos) => self.tile(pos).spec_level(),
            None => 0,
        }
    }

    /// The eight positions around `pos`, starting to the east and going
    /// round by the north, each only if it lies within the level.
    pub open spec fn spec_neighbors8(&self, pos: TilePos) -> Seq<Option<TilePos>> {
        seq![
            self.spec_offset(pos, 1, 0),
            self.spec_offset(pos, 1, 1),
            self.spec_offset(pos, 0, 1),
            self.spec_offset(pos, -1, 1),
            self.spec_offset(pos, -1, 0),
            self.spec_offset(pos, -1, -1),
            self.spec_offset(pos, 0, -1),
            self.spec_offset(pos, 1, -1),
        ]
    }

    /// The density around `pos`: the sum of the levels of the trees on the
    /// eight tiles around it.
    pub open spec fn spec_neighbor_level(&self, pos: TilePos) -> nat {
        self.spec_level_at(self.spec_offset(pos, 1, 0))
            + self.spec_level_at(self.spec_offset(pos, 1, 1))
            + self.spec_level_at(self.spec_offset(pos, 0, 1))
            + self.spec_level_at(self.spec_offset(pos, -1, 1))
            + self.spec_level_at(self.spec_offset(pos, -1, 0))
            + self.spec_level_at(self.spec_offset(pos, -1, -1))
            + self.spec_level_at(self.spec_offset(pos, 0, -1))
            + self.spec_level_at(self.spec_offset(pos, 1, -1))
    }

    /// Whether two levels have the same size and trees of the same stages
    /// at the same positions, whatever else differs.
    pub open spec fn same_trees(&self, other: &Level) -> bool {
        &&& self.size == other.size
        &&& forall|pos: TilePos|
            self.contains(pos) ==> (#[trigger] self.tile(pos)).spec_stage() == other.tile(
                pos,
            ).spec_stage()
    }

    /// Whether this level is `before` with `tile` at `pos` and nothing else
    /// changed. If `pos` lies outside the level, nothing at all has
    /// changed.
    pub open spec fn is_change_of(&self, before: &Level, pos: TilePos, tile: Tile) -> bool {
        &&& self.size == before.size
        &&& self.tiles@.len() == before.tiles@.len()
        &&& forall|other: TilePos|
            before.contains(other) ==> #[trigger] self.tile(other) == if other == pos {
                tile
            } else {
                before.tile(other)
            }
    }

    /// Whether this level has the size and the tiles of `other`.
    pub open spec fn same_as(&self, other: &Level) -> bool {
        self.size == other.size && self.tiles@ == other.tiles@
    }

    /// A level of the given size with nothing but bare normal ground.
    pub fn empty(size: TilemapSize) -> (level: Self)
        requires
            size.x * size.y <= usize::MAX,
        ensures
            level.wf(),
            level.size == size,
            forall|pos: TilePos| level.contains(pos) ==> level.tile(pos) == Tile::spec_bare(),
            level@ == Map::new(
                |pos: TilePos| pos.x < size.x && pos.y < size.y,
                |pos: TilePos| Tile::spec_bare(),
            ),
    {
        let count: usize = (size.x as usize) * (size.y as usize);
        let mut tiles: Vec<Tile> = Vec::new();
        let mut index: usize = 0;
        while index < count
            invariant
                index <= count,
                tiles@.len() == index,
                forall|i: int| 0 <= i < index ==> tiles@[i] == Tile::spec_bare(),
            decreases count - index,
        {
            tiles.push(Tile::bare());
            index += 1;
        }
        let level = Level { size, tiles };
        assert forall|pos: TilePos| level.contains(pos) implies level.tile(pos)
            == Tile::spec_bare() by {
            lemma_index(size, pos);
        }
        assert(level@ =~= Map::new(
            |pos: TilePos| pos.x < size.x && pos.y < size.y,
            |pos: TilePos| Tile::spec_bare(),
        ));
        level
    }

    /// Whether the level is well formed: whether it holds one tile for
    /// each position within its size.
    pub fn is_well_formed(&self) -> (well_formed: bool)
        ensures
            well_formed == self.wf(),
    {
        let columns: u128 = self.size.x as u128;
        let rows: u128 = self.size.y as u128;
        assert(columns * rows <= 0xffff_ffff * 0xffff_ffff) by (nonlinear_arith)
            requires
                0 <= columns <= 0xffff_ffff,
                0 <= rows <= 0xffff_ffff,
        ;
        self.tiles.len() as u128 == columns * rows
    }

    /// The number of columns and of rows of the level.
    pub fn size(&self) -> (size: (u32, u32))
        ensures
            size == (self.size.x, self.size.y),
    {
        (self.size.x, self.size.y)
    }

    /// The number of tiles of the level.
    pub fn len(&self) -> (len: usize)
        requires
            self.wf(),
        ensures
            len == self.size.x * self.size.y,
    {
        self.tiles.len()
    }

    /// Whether `pos` lies within the level.
    pub fn in_bounds(&self, pos: TilePos) -> (inside: bool)
        ensures
            inside == self.contains(pos),
    {
        pos.x < self.size.x && pos.y < self.size.y
    }

    /// The position of the tile stored at `index`.
    pub fn position(&self, index: usize) -> (pos: TilePos)
        requires
            self.wf(),
            index < self.size.x * self.size.y,
        ensures
            pos == self.pos_at(index as int),
            self.contains(pos),
            self.index_of(pos) == index,
    {
        proof {
            lemma_pos_at(self.size, index as int);
        }
        let width: usize = self.size.x as usize;
        TilePos { x: (index % width) as u32, y: (index / width) as u32 }
    }

    /// The place of a position in the row-by-row order of the tiles.
    fn index(&self, pos: TilePos) -> (index: usize)
        requires
            self.wf(),
            self.contains(pos),
        ensures
            index == self.index_of(pos),
            index < self.tiles@.len(),
    {
        let count: usize = self.tiles.len();
        proof {
            lemma_index(self.size, pos);
            assert(0 <= pos.y * self.size.x) by (nonlinear_arith);
            assert(pos.y * self.size.x + pos.x < count);
        }
        (pos.y as usize) * (self.size.x as usize) + (pos.x as usize)
    }

    /// The tile at `pos`, or nothing if `pos` lies outside the level.
    pub fn get(&self, pos: TilePos) -> (tile: Option<Tile>)
        requires
            self.wf(),
        ensures
            tile == self.spec_get(pos),
    {
        if self.in_bounds(pos) {
            let index = self.index(pos);
            Some(self.tiles[index])
        } else {
            None
        }
    }

    /// The tree at `pos` with all that is attached to it, or nothing if the
    /// tile is empty or `pos` lies outside the level.
    pub fn get_occupant(&self, pos: TilePos) -> (occupant: Option<TreeTile>)
        requires
            self.wf(),
        ensures
            occupant == self.spec_get_occupant(pos),
    {
        match self.get(pos) {
            Some(tile) => tile.tree,
            None => None,
        }
    }

    /// Replaces the tile at `pos`.
    pub fn set(&mut self, pos: TilePos, tile: Tile)
        requires
            old(self).wf(),
            old(self).contains(pos),
        ensures
            final(self).wf(),
            final(self).is_change_of(old(self), pos, tile),
            final(self)@ == old(self)@.insert(pos, tile),
            final(self).tiles@ == old(self).tiles@.update(old(self).index_of(pos), tile),
    {
        let index = self.index(pos);
        self.tiles.set(index, tile);
        assert forall|other: TilePos| old(self).contains(other) implies #[trigger] self.tile(
            other,
        ) == if other == pos {
            tile
        } else {
            old(self).tile(other)
        } by {
            lemma_index(self.size, other);
            lemma_index(self.size, pos);
        }
        proof {
            lemma_change_is_insert(old(self), self, pos, tile);
        }
    }

    /// The position `dx` columns and `dy` rows from `pos`, if it lies
    /// within the level.
    pub fn offset(&self, pos: TilePos, dx: i32, dy: i32) -> (moved: Option<TilePos>)
        ensures
            moved == self.spec_offset(pos, dx as int, dy as int),
    {
        let x: i64 = pos.x as i64 + dx as i64;
        let y: i64 = pos.y as i64 + dy as i64;
        if 0 <= x && x < self.size.x as i64 && 0 <= y && y < self.size.y as i64 {
            Some(TilePos { x: x as u32, y: y as u32 })
        } else {
            None
        }
    }

    /// The eight positions around `pos`, each only if it lies within the
    /// level.
    pub fn neighbors8(&self, pos: TilePos) -> (around: [Option<TilePos>; 8])
        ensures
            around@ == self.spec_neighbors8(pos),
    {
        let around = [
            self.offset(pos, 1, 0),
            self.offset(pos, 1, 1),
            self.offset(pos, 0, 1),
            self.offset(pos, -1, 1),
            self.offset(pos, -1, 0),
            self.offset(pos, -1, -1),
            self.offset(pos, 0, -1),
            self.offset(pos, 1, -1),
        ];
        assert(around@ =~= self.spec_neighbors8(pos));
        around
    }

    /// What the tile at `pos`, if `pos` is one, adds to the density around
    /// it.
    fn level_at(&self, pos: Option<TilePos>) -> (level: u32)
        requires
            self.wf(),
            pos matches Some(inside) ==> self.contains(inside),
        ensures
            level == self.spec_level_at(pos),
            level <= 2,
    {
        match pos {
            Some(inside) => {
                let index = self.index(inside);
                self.tiles[index].level()
            },
            None => 0,
        }
    }

    /// The density around `pos`: the sum of the levels of the trees on the
    /// eight tiles around it. Positions outside the level count as empty.
    pub fn neighbor_level(&self, pos: TilePos) -> (sum: u32)
        requires
            self.wf(),
        ensures
            sum == self.spec_neighbor_level(pos),
            sum <= 16,
    {
        self.level_at(self.offset(pos, 1, 0)) + self.level_at(self.offset(pos, 1, 1))
            + self.level_at(self.offset(pos, 0, 1)) + self.level_at(self.offset(pos, -1, 1))
            + self.level_at(self.offset(pos, -1, 0)) + self.level_at(self.offset(pos, -1, -1))
            + self.level_at(self.offset(pos, 0, -1)) + self.level_at(self.offset(pos, 1, -1))
    }
}

/// Within a level, a position has a place in the row-by-row order of the
/// tiles, and the place determines the position.
pub proof fn lemma_index(size: TilemapSize, pos: TilePos)
    requires
        pos.x < size.x,
        pos.y < size.y,
    ensures
        0 <= pos.y * size.x + pos.x < size.x * size.y,
        (pos.y * size.x + pos.x) % (size.x as int) == pos.x,
        (pos.y * size.x + pos.x) / (size.x as int) == pos.y,
{
    let width = size.x as int;
    let height = size.y as int;
    let x = pos.x as int;
    let y = pos.y as int;
    assert(y * width + x < width * height) by (nonlinear_arith)
        requires
            0 <= x < width,
            0 <= y < height,
    {
        assert((y + 1) * width <= height * width);
    }
    assert(0 <= y * width) by (nonlinear_arith)
        requires
            0 <= y,
            0 <= width,
    ;
    lemma_fundamental_div_mod_converse(y * width + x, width, y, x);
}

/// A level with one tile changed is, seen as a map, the level before with
/// that tile put in at its position.
pub proof fn lemma_change_is_insert(before: &Level, after: &Level, pos: TilePos, tile: Tile)
    requires
        after.is_change_of(before, pos, tile),
    ensures
        after@ == if before.contains(pos) {
            before@.insert(pos, tile)
        } else {
            before@
        },
{
    if before.contains(pos) {
        assert(after@ =~= before@.insert(pos, tile));
    } else {
        assert(after@ =~= before@);
    }
}

/// Each place in the row-by-row order belongs to one position within the
/// level.
pub proof fn lemma_pos_at(size: TilemapSize, index: int)
    requires
        0 <= index < size.x * size.y,
    ensures
        0 <= index % (size.x as int) < size.x,
        0 <= index / (size.x as int) < size.y,
        (index / (size.x as int)) * size.x + index % (size.x as int) == index,
{
    let width = size.x as int;
    let height = size.y as int;
    assert(width > 0) by (nonlinear_arith)
        requires
            0 <= index < width * height,
            0 <= width,
    ;
    vstd::arithmetic::div_mod::lemma_fundamental_div_mod(index, width);
    vstd::arithmetic::div_mod::lemma_mod_bound(index, width);
    let q = index / width;
    let r = index % width;
    assert(width * q == q * width) by (nonlinear_arith);
    assert(0 <= q < height) by (nonlinear_arith)
        requires
            q * width + r == index,
            0 <= r < width,
            0 <= index < width * height,
    ;
}

/// Whether a tree stands at `pos` when a game begins.
pub open spec fn spec_starts_with_tree(pos: TilePos) -> bool {
    ||| pos == TilePos { x: 2, y: 3 }
    ||| pos == TilePos { x: 5, y: 4 }
    ||| pos == TilePos { x: 3, y: 3 }
    ||| pos == TilePos { x: 5, y: 6 }
}

impl Level {
    /// Whether this is the level that a game begins with: a board of eight
    /// by eight tiles of normal ground with four immature trees.
    pub open spec fn is_start(&self) -> bool {
        &&& self.wf()
        &&& self.size == (TilemapSize { x: 8, y: 8 })
        &&& forall|pos: TilePos|
            self.contains(pos) ==> #[trigger] self.tile(pos) == if spec_starts_with_tree(pos) {
                Tile { tree: Some(TreeTile::spec_new(Tree::Immature)), ..Tile::spec_bare() }
            } else {
                Tile::spec_bare()
            }
    }
}

/// The level that a game begins with: a square board of normal ground with
/// four immature trees.
pub fn spawn_level() -> (level: Level)
    ensures
        level.is_start(),
{
    assert(MAP_SIZE * MAP_SIZE == 64);
    let mut level = Level::empty(TilemapSize { x: MAP_SIZE, y: MAP_SIZE });
    let sapling = Tile {
        ground: Ground::Normal,
        tree: Some(TreeTile::new(Tree::Immature)),
        transition: None,
    };
    level.set(TilePos::new(2, 3), sapling);
    level.set(TilePos::new(5, 4), sapling);
    level.set(TilePos::new(3, 3), sapling);
    level.set(TilePos::new(5, 6), sapling);
    level
}

/// A picture to lay over a tile to show what goes on there.
#[derive(Clone, Copy, Debug, PartialEq, Eq)]
pub struct EffectTile {
    pub pos: TilePos,
    pub texture_index: u32,
}

impl Tile {
    /// The picture in the effect tile set to lay over the tile, if any: bad
    /// weather over a sheltered tree, and else the action that is scheduled
    /// for the tree.
    pub open spec fn spec_effect(self) -> Option<nat> {
        match self.tree {
            Some(occupant) => if occupant.bad_weather {
                Some(4)
            } else {
                match occupant.action {
                    Some(action) => Some(action.kind.spec_effect_texture_index()),
                    None => None,
                }
            },
            None => None,
        }
    }

    /// The picture in the effect tile set to lay over the tile, if any.
    pub fn effect(&self) -> (texture_index: Option<u32>)
        ensures
            match texture_index {
                Some(index) => self.spec_effect() == Some(index as nat),
                None => self.spec_effect() is None,
            },
    {
        match self.tree {
            Some(occupant) => if occupant.bad_weather {
                Some(BAD_WEATHER_TEXTURE_INDEX)
            } else {
                match occupant.action {
                    Some(action) => Some(action.kind.effect_texture_index()),
                    None => None,
                }
            },
            None => None,
        }
    }
}

impl Level {
    /// The pictures to lay over the first `count` tiles, row by row.
    pub open spec fn spec_effects(&self, count: int) -> Seq<EffectTile>
        decreases count,
    {
        if count <= 0 {
            Seq::empty()
        } else {
            let earlier = self.spec_effects(count - 1);
            match self.tiles@[count - 1].spec_effect() {
                Some(index) => earlier.push(
                    EffectTile { pos: self.pos_at(count - 1), texture_index: index as u32 },
                ),
                None => earlier,
            }
        }
    }

    /// The pictures to lay over the tiles of the level, row by row: one
    /// for each sheltered tree and for each tree with a scheduled action.
    pub fn handle_effects(&self) -> (effects: Vec<EffectTile>)
        requires
            self.wf(),
        ensures
            effects@ == self.spec_effects(self.tiles@.len() as int),
    {
        let mut effects: Vec<EffectTile> = Vec::new();
        let count = self.len();
        let mut index: usize = 0;
        while index < count
            invariant
                index <= count,
                count == self.tiles@.len(),
                self.wf(),
                effects@ == self.spec_effects(index as int),
            decreases count - index,
        {
            let pos = self.position(index);
            match self.tiles[index].effect() {
                Some(texture_index) => {
                    effects.push(EffectTile { pos, texture_index });
                },
                None => {},
            }
            index += 1;
        }
        effects
    }
}

} // verus!
