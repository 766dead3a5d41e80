//! Tile grid, stage query and stage lifecycle. A stage is an ordered
//! collection of tiles (sparse: cells not listed are empty), a start
//! position, and a per-stage fragment counter. Tiles never move; a small
//! subset (keys, fragments, gates) mutates in place when collected or
//! opened. World pixel coordinates map to grid cells of `TILE_SIZE` pixels.

use vstd::prelude::*;
use crate::utils::{Renderer, Vec2i};
use crate::utils::{spec_orient_flags, DrawCmd};
use crate::assets::{spec_tile_image, tile_image};

verus! {

/// Width and height of one grid cell, in world pixels.
pub const TILE_SIZE: i16 = 16;

/// What occupies one grid cell.
#[derive(Copy, Clone, PartialEq, Eq, Structural, Debug)]
pub enum TileId {
    Empty,
    Start,
    Wall,
    NeedleUp,
    NeedleRight,
    NeedleLeft,
    NeedleDown,
    GoalClosed,
    GoalOpened,
    Key,
    Fragment,
    SpringVert,
    SpringHori,
}

/// One tile: its kind and its grid-local cell position. The global pixel
/// position is derived (`local * TILE_SIZE`).
#[derive(Copy, Clone, PartialEq, Eq, Structural, Debug)]
pub struct Tile {
    pub id: TileId,
    pub local_x: u8,
    pub local_y: u8,
}

impl Tile {
    /// Global pixel x of the tile's left edge.
    pub fn get_global_pos_x(&self) -> (r: i16)
        ensures
            r == self.local_x * TILE_SIZE,
    {
        (self.local_x as i16) * TILE_SIZE
    }

    /// Global pixel y of the tile's top edge.
    pub fn get_global_pos_y(&self) -> (r: i16)
        ensures
            r == self.local_y * TILE_SIZE,
    {
        (self.local_y as i16) * TILE_SIZE
    }
}

/// A gameplay command produced by touching an interactive tile; collect
/// commands carry the tile's grid-local coordinates.
#[derive(Copy, Clone, PartialEq, Eq, Structural, Debug)]
pub enum InteractiveCmd {
    GetKey(u8, u8),
    GetFragment(u8, u8),
    ClearStage,
}

// -------------------------------
// Tile lookup
// -------------------------------

/// Index of the first tile occupying cell `(gx, gy)`, or -1 when none does.
pub open spec fn spec_find_idx(tiles: Seq<Tile>, gx: u8, gy: u8) -> int
    decreases tiles.len(),
{
    if tiles.len() == 0 {
        -1
    } else if tiles[0].local_x == gx && tiles[0].local_y == gy {
        0
    } else {
        let rest = spec_find_idx(tiles.drop_first(), gx, gy);
        if rest == -1 {
            -1
        } else {
            rest + 1
        }
    }
}

/// `spec_find_idx` names the first index whose tile occupies `(gx, gy)`,
/// and -1 exactly when no tile does.
pub proof fn lemma_find_idx(tiles: Seq<Tile>, gx: u8, gy: u8)
    ensures
        spec_find_idx(tiles, gx, gy) == -1 ==> forall|k: int|
            0 <= k < tiles.len() ==> !(tiles[k].local_x == gx && tiles[k].local_y == gy),
        spec_find_idx(tiles, gx, gy) != -1 ==> {
            let r = spec_find_idx(tiles, gx, gy);
            &&& 0 <= r < tiles.len()
            &&& tiles[r].local_x == gx && tiles[r].local_y == gy
            &&& forall|k: int| 0 <= k < r ==> !(tiles[k].local_x == gx && tiles[k].local_y == gy)
        },
    decreases tiles.len(),
{
    if tiles.len() != 0 {
        if !(tiles[0].local_x == gx && tiles[0].local_y == gy) {
            lemma_find_idx(tiles.drop_first(), gx, gy);
            assert(forall|k: int|
                1 <= k < tiles.len() ==> tiles[k] == tiles.drop_first()[k - 1]);
        }
    }
}

/// The tile occupying cell `(gx, gy)`, absent when the cell holds nothing
/// or only an `Empty` marker.
pub open spec fn spec_tile_at_cell(tiles: Seq<Tile>, gx: u8, gy: u8) -> Option<Tile> {
    let r = spec_find_idx(tiles, gx, gy);
    if r == -1 {
        None
    } else if tiles[r].id == TileId::Empty {
        None
    } else {
        Some(tiles[r])
    }
}

/// The tile under the world pixel `(px, py)`, absent outside the stage
/// bounds (negative or past the grid) and on empty cells.
pub open spec fn spec_tile_at_pixel(tiles: Seq<Tile>, px: i16, py: i16) -> Option<Tile> {
    if px < 0 || py < 0 {
        None
    } else {
        let gx = px / TILE_SIZE;
        let gy = py / TILE_SIZE;
        if gx > 255 || gy > 255 {
            None
        } else {
            spec_tile_at_cell(tiles, gx as u8, gy as u8)
        }
    }
}

/// A tile found under a pixel occupies the cell containing that pixel: the
/// pixel lies inside the tile's 16-pixel square.
pub proof fn lemma_tile_at_pixel_coords(tiles: Seq<Tile>, px: i16, py: i16)
    ensures
        spec_tile_at_pixel(tiles, px, py) is Some ==> {
            let t = spec_tile_at_pixel(tiles, px, py)->Some_0;
            &&& px >= 0 && py >= 0
            &&& t.local_x * TILE_SIZE <= px < t.local_x * TILE_SIZE + TILE_SIZE
            &&& t.local_y * TILE_SIZE <= py < t.local_y * TILE_SIZE + TILE_SIZE
        },
{
    if !(px < 0 || py < 0) {
        let gx = px / TILE_SIZE;
        let gy = py / TILE_SIZE;
        if !(gx > 255 || gy > 255) {
            lemma_find_idx(tiles, gx as u8, gy as u8);
            assert(TILE_SIZE * (px / TILE_SIZE) + px % TILE_SIZE == px) by {
                vstd::arithmetic::div_mod::lemma_fundamental_div_mod(px as int, TILE_SIZE as int);
            }
            assert(TILE_SIZE * (py / TILE_SIZE) + py % TILE_SIZE == py) by {
                vstd::arithmetic::div_mod::lemma_fundamental_div_mod(py as int, TILE_SIZE as int);
            }
        }
    }
}

/// One if the tile is an uncollected fragment, else zero.
pub open spec fn frag_delta(t: Tile) -> nat {
    if t.id == TileId::Fragment {
        1nat
    } else {
        0nat
    }
}

/// How many of the first `n` tiles are uncollected fragments.
pub open spec fn count_frags_to(tiles: Seq<Tile>, n: int) -> nat
    decreases n,
{
    if n <= 0 {
        0
    } else {
        count_frags_to(tiles, n - 1) + frag_delta(tiles[n - 1])
    }
}

/// How many tiles of the sequence are uncollected fragments.
pub open spec fn count_frags(tiles: Seq<Tile>) -> nat {
    count_frags_to(tiles, tiles.len() as int)
}

/// Two sequences whose first `n` tiles are fragments at the same places
/// have the same fragment count there.
pub proof fn lemma_count_to_same_delta(s1: Seq<Tile>, s2: Seq<Tile>, n: int)
    requires
        forall|i: int| 0 <= i < n ==> frag_delta(s1[i]) == frag_delta(s2[i]),
    ensures
        count_frags_to(s1, n) == count_frags_to(s2, n),
    decreases n,
{
    if n > 0 {
        lemma_count_to_same_delta(s1, s2, n - 1);
    }
}

/// As `lemma_count_frags_update`, for the count over a prefix.
pub proof fn lemma_count_to_update(tiles: Seq<Tile>, i: int, t: Tile, n: int)
    requires
        0 <= i < tiles.len(),
        n <= tiles.len(),
    ensures
        i < n ==> count_frags_to(tiles.update(i, t), n) + frag_delta(tiles[i])
            == count_frags_to(tiles, n) + frag_delta(t),
        i >= n ==> count_frags_to(tiles.update(i, t), n) == count_frags_to(tiles, n),
    decreases n,
{
    if n > 0 {
        lemma_count_to_update(tiles, i, t, n - 1);
    }
}

/// Replacing one tile changes the fragment count by the difference the
/// replacement makes at that index alone.
pub proof fn lemma_count_frags_update(tiles: Seq<Tile>, i: int, t: Tile)
    requires
        0 <= i < tiles.len(),
    ensures
        count_frags(tiles.update(i, t)) + frag_delta(tiles[i]) == count_frags(tiles)
            + frag_delta(t),
{
    lemma_count_to_update(tiles, i, t, tiles.len() as int);
}

// -------------------------------
// Stage definitions
// -------------------------------

/// Number of stages in the fixed stage sequence.
pub const NUM_STAGES: u8 = 2;

/// The most fragments obtainable over the whole stage sequence.
pub const FRAG_TARGET: u8 = 8;

/// Shorthand for a tile literal.
pub open spec fn tl(id: TileId, x: u8, y: u8) -> Tile {
    Tile { id, local_x: x, local_y: y }
}

/// The initial tile layout of each stage of the sequence.
pub open spec fn spec_stage_tiles(idx: int) -> Seq<Tile> {
    if idx == 0 {
        seq![
        tl(TileId::Wall, 0, 8),
        tl(TileId::Wall, 1, 8),
        tl(TileId::Wall, 2, 8),
        tl(TileId::Wall, 3, 8),
        tl(TileId::Wall, 4, 8),
        tl(TileId::Wall, 5, 8),
        tl(TileId::Wall, 6, 8),
        tl(TileId::Wall, 7, 8),
        tl(TileId::Wall, 8, 8),
        tl(TileId::Wall, 9, 8),
        tl(TileId::Wall, 0, 6),
        tl(TileId::NeedleRight, 0, 7),
        tl(TileId::Start, 1, 7),
        tl(TileId::SpringVert, 3, 7),
        tl(TileId::NeedleUp, 6, 7),
        tl(TileId::GoalClosed, 8, 7),
        tl(TileId::SpringHori, 9, 7),
        tl(TileId::Key, 5, 2),
        tl(TileId::Fragment, 2, 6),
        tl(TileId::Fragment, 4, 5),
        tl(TileId::Fragment, 6, 6),
        tl(TileId::Fragment, 7, 4)
    ]
    } else if idx == 1 {
        seq![
        tl(TileId::Wall, 0, 8),
        tl(TileId::Wall, 1, 8),
        tl(TileId::Wall, 2, 8),
        tl(TileId::Wall, 3, 8),
        tl(TileId::Wall, 4, 8),
        tl(TileId::Wall, 5, 8),
        tl(TileId::Wall, 6, 8),
        tl(TileId::Wall, 7, 8),
        tl(TileId::Wall, 8, 8),
        tl(TileId::Wall, 9, 8),
        tl(TileId::Wall, 9, 6),
        tl(TileId::NeedleLeft, 9, 7),
        tl(TileId::Start, 8, 7),
        tl(TileId::GoalClosed, 1, 7),
        tl(TileId::Wall, 4, 3),
        tl(TileId::NeedleDown, 4, 4),
        tl(TileId::Key, 2, 5),
        tl(TileId::SpringVert, 5, 7),
        tl(TileId::Fragment, 3, 6),
        tl(TileId::Fragment, 5, 6),
        tl(TileId::Fragment, 6, 5),
        tl(TileId::Fragment, 7, 6)
    ]
    } else {
        Seq::empty()
    }
}

/// The start position of each stage of the sequence.
pub open spec fn spec_stage_start(idx: int) -> Vec2i {
    if idx == 1 {
        Vec2i { x: 128i16, y: 112i16 }
    } else {
        Vec2i { x: 16i16, y: 112i16 }
    }
}

/// How many fragments one stage offers.
pub open spec fn spec_frag_budget(idx: int) -> nat {
    count_frags(spec_stage_tiles(idx))
}

/// How many fragments the stages from `idx` on still offer.
pub open spec fn spec_frag_budget_from(idx: int) -> nat
    decreases NUM_STAGES - idx,
{
    if idx >= NUM_STAGES {
        0
    } else {
        spec_frag_budget(idx) + spec_frag_budget_from(idx + 1)
    }
}

/// The concrete stage content: each stage offers 4 fragments, and the whole
/// sequence exactly `FRAG_TARGET`.
pub proof fn lemma_budgets()
    ensures
        spec_frag_budget(0) == 4,
        spec_frag_budget(1) == 4,
        forall|idx: int| (idx < 0 || idx >= 2) ==> spec_frag_budget(idx) == 0,
        spec_frag_budget_from(0) == FRAG_TARGET,
        spec_frag_budget_from(1) == 4,
        spec_frag_budget_from(2) == 0,
{
    reveal_with_fuel(count_frags_to, 24);
    assert(spec_frag_budget(0) == 4);
    assert(spec_frag_budget(1) == 4);
    assert(forall|idx: int| (idx < 0 || idx >= 2) ==> spec_frag_budget(idx) == 0);
    reveal_with_fuel(spec_frag_budget_from, 4);
    assert(spec_frag_budget_from(2) == 0);
    assert(spec_frag_budget_from(1) == 4);
    assert(spec_frag_budget_from(0) == 8);
}

/// Builds the initial tile list of the stage at `idx`.
fn load_stage_tiles(idx: u8) -> (v: Vec<Tile>)
    requires
        idx < NUM_STAGES,
    ensures
        v@ == spec_stage_tiles(idx as int),
{
    if idx == 0 {
        load_stage_tiles_0()
    } else {
        load_stage_tiles_1()
    }
}

fn load_stage_tiles_0() -> (v: Vec<Tile>)
    ensures
        v@ == spec_stage_tiles(0),
{
    let mut v: Vec<Tile> = Vec::new();
    v.push(Tile { id: TileId::Wall, local_x: 0, local_y: 8 });
    v.push(Tile { id: TileId::Wall, local_x: 1, local_y: 8 });
    v.push(Tile { id: TileId::Wall, local_x: 2, local_y: 8 });
    v.push(Tile { id: TileId::Wall, local_x: 3, local_y: 8 });
    v.push(Tile { id: TileId::Wall, local_x: 4, local_y: 8 });
    v.push(Tile { id: TileId::Wall, local_x: 5, local_y: 8 });
    v.push(Tile { id: TileId::Wall, local_x: 6, local_y: 8 });
    v.push(Tile { id: TileId::Wall, local_x: 7, local_y: 8 });
    v.push(Tile { id: TileId::Wall, local_x: 8, local_y: 8 });
    v.push(Tile { id: TileId::Wall, local_x: 9, local_y: 8 });
    v.push(Tile { id: TileId::Wall, local_x: 0, local_y: 6 });
    v.push(Tile { id: TileId::NeedleRight, local_x: 0, local_y: 7 });
    v.push(Tile { id: TileId::Start, local_x: 1, local_y: 7 });
    v.push(Tile { id: TileId::SpringVert, local_x: 3, local_y: 7 });
    v.push(Tile { id: TileId::NeedleUp, local_x: 6, local_y: 7 });
    v.push(Tile { id: TileId::GoalClosed, local_x: 8, local_y: 7 });
    v.push(Tile { id: TileId::SpringHori, local_x: 9, local_y: 7 });
    v.push(Tile { id: TileId::Key, local_x: 5, local_y: 2 });
    v.push(Tile { id: TileId::Fragment, local_x: 2, local_y: 6 });
    v.push(Tile { id: TileId::Fragment, local_x: 4, local_y: 5 });
    v.push(Tile { id: TileId::Fragment, local_x: 6, local_y: 6 });
    v.push(Tile { id: TileId::Fragment, local_x: 7, local_y: 4 });
    proof {
        assert(v@ =~= spec_stage_tiles(0));
    }
    v
}

fn load_stage_tiles_1() -> (v: Vec<Tile>)
    ensures
        v@ == spec_stage_tiles(1),
{
    let mut v: Vec<Tile> = Vec::new();
    v.push(Tile { id: TileId::Wall, local_x: 0, local_y: 8 });
    v.push(Tile { id: TileId::Wall, local_x: 1, local_y: 8 });
    v.push(Tile { id: TileId::Wall, local_x: 2, local_y: 8 });
    v.push(Tile { id: TileId::Wall, local_x: 3, local_y: 8 });
    v.push(Tile { id: TileId::Wall, local_x: 4, local_y: 8 });
    v.push(Tile { id: TileId::Wall, local_x: 5, local_y: 8 });
    v.push(Tile { id: TileId::Wall, local_x: 6, local_y: 8 });
    v.push(Tile { id: TileId::Wall, local_x: 7, local_y: 8 });
    v.push(Tile { id: TileId::Wall, local_x: 8, local_y: 8 });
    v.push(Tile { id: TileId::Wall, local_x: 9, local_y: 8 });
    v.push(Tile { id: TileId::Wall, local_x: 9, local_y: 6 });
    v.push(Tile { id: TileId::NeedleLeft, local_x: 9, local_y: 7 });
    v.push(Tile { id: TileId::Start, local_x: 8, local_y: 7 });
    v.push(Tile { id: TileId::GoalClosed, local_x: 1, local_y: 7 });
    v.push(Tile { id: TileId::Wall, local_x: 4, local_y: 3 });
    v.push(Tile { id: TileId::NeedleDown, local_x: 4, local_y: 4 });
    v.push(Tile { id: TileId::Key, local_x: 2, local_y: 5 });
    v.push(Tile { id: TileId::SpringVert, local_x: 5, local_y: 7 });
    v.push(Tile { id: TileId::Fragment, local_x: 3, local_y: 6 });
    v.push(Tile { id: TileId::Fragment, local_x: 5, local_y: 6 });
    v.push(Tile { id: TileId::Fragment, local_x: 6, local_y: 5 });
    v.push(Tile { id: TileId::Fragment, local_x: 7, local_y: 6 });
    proof {
        assert(v@ =~= spec_stage_tiles(1));
    }
    v
}

/// The start position of the stage at `idx`.
fn stage_start(idx: u8) -> (r: Vec2i)
    ensures
        r == spec_stage_start(idx as int),
{
    if idx == 1 {
        Vec2i { x: 128, y: 112 }
    } else {
        Vec2i { x: 16, y: 112 }
    }
}

// -------------------------------
// Interactive-tile resolution
// -------------------------------

/// A closed gate opens; every other tile is untouched.
pub open spec fn spec_open_gate_tile(t: Tile) -> Tile {
    if t.id == TileId::GoalClosed {
        Tile { id: TileId::GoalOpened, local_x: t.local_x, local_y: t.local_y }
    } else {
        t
    }
}

/// Opens every closed gate of the stage.
pub open spec fn spec_open_gates(tiles: Seq<Tile>) -> Seq<Tile> {
    tiles.map_values(|t: Tile| spec_open_gate_tile(t))
}

/// How one interactive command changes the tile state and the collected
/// count: a key collects (emptying its cell) and opens every gate; a
/// fragment collects and counts; everything else changes nothing. A command
/// whose cell no longer holds the named item is stale and changes nothing,
/// which de-duplicates repeated commands for one tile.
pub open spec fn spec_collect(tiles: Seq<Tile>, frag: u8, cmd: Option<InteractiveCmd>) -> (
    Seq<Tile>,
    u8,
) {
    match cmd {
        Some(InteractiveCmd::GetKey(x, y)) => {
            let i = spec_find_idx(tiles, x, y);
            if i != -1 && tiles[i].id == TileId::Key {
                (
                    spec_open_gates(
                        tiles.update(i, Tile { id: TileId::Empty, local_x: x, local_y: y }),
                    ),
                    frag,
                )
            } else {
                (tiles, frag)
            }
        },
        Some(InteractiveCmd::GetFragment(x, y)) => {
            let i = spec_find_idx(tiles, x, y);
            if i != -1 && tiles[i].id == TileId::Fragment {
                (
                    tiles.update(i, Tile { id: TileId::Empty, local_x: x, local_y: y }),
                    (frag + 1) as u8,
                )
            } else {
                (tiles, frag)
            }
        },
        _ => (tiles, frag),
    }
}

/// Applies a batch of interactive commands in order.
pub open spec fn spec_collect_all(
    tiles: Seq<Tile>,
    frag: u8,
    cmds: Seq<Option<InteractiveCmd>>,
) -> (Seq<Tile>, u8)
    decreases cmds.len(),
{
    if cmds.len() == 0 {
        (tiles, frag)
    } else {
        let step = spec_collect(tiles, frag, cmds[0]);
        spec_collect_all(step.0, step.1, cmds.drop_first())
    }
}

/// The fragment count is at least the contribution of any single index.
pub proof fn lemma_count_to_lower(tiles: Seq<Tile>, i: int, n: int)
    requires
        0 <= i < n,
    ensures
        count_frags_to(tiles, n) >= frag_delta(tiles[i]),
    decreases n,
{
    if i < n - 1 {
        lemma_count_to_lower(tiles, i, n - 1);
    }
}

// -------------------------------
// Stage handler
// -------------------------------

/// The active stage: its mutable tile state, its start position, how many
/// fragments have been collected in it, and its index in the stage sequence.
pub struct StageHandler {
    pub tiles: Vec<Tile>,
    pub start_pos: Vec2i,
    pub fragment_count: u8,
    pub stage_idx: u8,
}

impl StageHandler {
    /// Stage bookkeeping stays consistent: the index names a real stage, the
    /// start position is that stage's, and fragments collected plus fragments
    /// still in the grid add up to the stage's budget.
    pub open spec fn wf(self) -> bool {
        &&& self.stage_idx < NUM_STAGES
        &&& self.start_pos == spec_stage_start(self.stage_idx as int)
        &&& self.fragment_count + count_frags(self.tiles@) == spec_frag_budget(
            self.stage_idx as int,
        )
        &&& spec_frag_budget(self.stage_idx as int) <= FRAG_TARGET
    }

    /// Loads the first stage of the sequence.
    pub fn new() -> (r: Self)
        ensures
            r.stage_idx == 0,
            r.fragment_count == 0,
            r.tiles@ == spec_stage_tiles(0),
            r.start_pos == spec_stage_start(0),
            r.wf(),
    {
        proof {
            lemma_budgets();
        }
        StageHandler {
            tiles: load_stage_tiles(0),
            start_pos: stage_start(0),
            fragment_count: 0,
            stage_idx: 0,
        }
    }

    /// Where the character starts (and respawns) in this stage.
    pub fn get_start_pos(&self) -> (r: Vec2i)
        ensures
            r == self.start_pos,
    {
        self.start_pos
    }

    /// The current index into the stage sequence.
    pub fn get_stage_idx(&self) -> (r: u8)
        ensures
            r == self.stage_idx,
    {
        self.stage_idx
    }

    /// Index of the first tile occupying cell `(gx, gy)`, if any.
    fn find_idx(&self, gx: u8, gy: u8) -> (r: Option<usize>)
        ensures
            match r {
                Some(i) => spec_find_idx(self.tiles@, gx, gy) == i,
                None => spec_find_idx(self.tiles@, gx, gy) == -1,
            },
    {
        proof {
            lemma_find_idx(self.tiles@, gx, gy);
        }
        let mut i: usize = 0;
        while i < self.tiles.len()
            invariant
                i <= self.tiles@.len(),
                forall|k: int|
                    0 <= k < i ==> !(self.tiles@[k].local_x == gx && self.tiles@[k].local_y == gy),
            decreases self.tiles@.len() - i,
        {
            let t = self.tiles[i];
            if t.local_x == gx && t.local_y == gy {
                proof {
                    lemma_find_idx(self.tiles@, gx, gy);
                }
                return Some(i);
            }
            i = i + 1;
        }
        proof {
            lemma_find_idx(self.tiles@, gx, gy);
        }
        None
    }

    /// The tile occupying cell `(gx, gy)`, absent when the cell is empty.
    fn tile_at_cell(&self, gx: u8, gy: u8) -> (r: Option<Tile>)
        ensures
            r == spec_tile_at_cell(self.tiles@, gx, gy),
    {
        proof {
            lemma_find_idx(self.tiles@, gx, gy);
        }
        match self.find_idx(gx, gy) {
            Some(i) => {
                let t = self.tiles[i];
                if matches!(t.id, TileId::Empty) {
                    None
                } else {
                    Some(t)
                }
            },
            None => None,
        }
    }

    /// The tile under the world pixel `(px, py)`, absent outside the stage
    /// bounds and on empty cells.
    fn tile_at_pixel(&self, px: i16, py: i16) -> (r: Option<Tile>)
        ensures
            r == spec_tile_at_pixel(self.tiles@, px, py),
    {
        if px < 0 || py < 0 {
            return None;
        }
        let gx = (px as u16) / (TILE_SIZE as u16);
        let gy = (py as u16) / (TILE_SIZE as u16);
        if gx > 255 || gy > 255 {
            None
        } else {
            self.tile_at_cell(gx as u8, gy as u8)
        }
    }

    /// The four tiles under the corners of the axis-aligned box whose
    /// top-left anchor is `(x, y)` and whose extent is `w` by `h` pixels:
    /// top-left, top-right, bottom-left, bottom-right. A corner outside the
    /// stage bounds, or over an empty cell, yields no tile.
    pub fn get_tiles_from_pos(&self, x: i16, y: i16, w: i16, h: i16) -> (r: [Option<Tile>; 4])
        requires
            1 <= w,
            1 <= h,
            x + w - 1 <= i16::MAX,
            y + h - 1 <= i16::MAX,
        ensures
            r[0] == spec_tile_at_pixel(self.tiles@, x, y),
            r[1] == spec_tile_at_pixel(self.tiles@, (x + w - 1) as i16, y),
            r[2] == spec_tile_at_pixel(self.tiles@, x, (y + h - 1) as i16),
            r[3] == spec_tile_at_pixel(self.tiles@, (x + w - 1) as i16, (y + h - 1) as i16),
    {
        let right = x + (w - 1);
        let bottom = y + (h - 1);
        [
            self.tile_at_pixel(x, y),
            self.tile_at_pixel(right, y),
            self.tile_at_pixel(x, bottom),
            self.tile_at_pixel(right, bottom),
        ]
    }

    /// Restores the current stage's tiles to their initial state and forgets
    /// the fragments collected in it.
    pub fn reload(&mut self)
        requires
            old(self).wf(),
        ensures
            final(self).tiles@ == spec_stage_tiles(old(self).stage_idx as int),
            final(self).fragment_count == 0,
            final(self).stage_idx == old(self).stage_idx,
            final(self).start_pos == old(self).start_pos,
            final(self).wf(),
    {
        self.tiles = load_stage_tiles(self.stage_idx);
        self.fragment_count = 0;
    }

    /// Opens every closed gate of the stage.
    fn open_gates(&mut self)
        ensures
            final(self).tiles@ == spec_open_gates(old(self).tiles@),
            final(self).fragment_count == old(self).fragment_count,
            final(self).stage_idx == old(self).stage_idx,
            final(self).start_pos == old(self).start_pos,
    {
        let n = self.tiles.len();
        let mut i: usize = 0;
        while i < n
            invariant
                i <= n,
                n == self.tiles@.len(),
                self.tiles@.len() == old(self).tiles@.len(),
                forall|k: int| 0 <= k < i ==> self.tiles@[k] == spec_open_gate_tile(
                    old(self).tiles@[k],
                ),
                forall|k: int| i <= k < n ==> self.tiles@[k] == old(self).tiles@[k],
                self.fragment_count == old(self).fragment_count,
                self.stage_idx == old(self).stage_idx,
                self.start_pos == old(self).start_pos,
            decreases n - i,
        {
            let t = self.tiles[i];
            if matches!(t.id, TileId::GoalClosed) {
                self.tiles[i] = Tile {
                    id: TileId::GoalOpened,
                    local_x: t.local_x,
                    local_y: t.local_y,
                };
            }
            i = i + 1;
        }
        proof {
            assert(self.tiles@ =~= spec_open_gates(old(self).tiles@));
        }
    }

    /// Applies one interactive command to the stage state.
    fn apply_cmd(&mut self, cmd: Option<InteractiveCmd>)
        requires
            old(self).wf(),
        ensures
            final(self).tiles@ == spec_collect(
                old(self).tiles@,
                old(self).fragment_count,
                cmd,
            ).0,
            final(self).fragment_count == spec_collect(
                old(self).tiles@,
                old(self).fragment_count,
                cmd,
            ).1,
            final(self).stage_idx == old(self).stage_idx,
            final(self).start_pos == old(self).start_pos,
            final(self).wf(),
    {
        match cmd {
            Some(InteractiveCmd::GetKey(x, y)) => {
                proof {
                    lemma_find_idx(self.tiles@, x, y);
                }
                match self.find_idx(x, y) {
                    Some(i) => {
                        let t = self.tiles[i];
                        if matches!(t.id, TileId::Key) {
                            let emptied = Tile { id: TileId::Empty, local_x: t.local_x, local_y: t.local_y };
                            self.tiles[i] = emptied;
                            proof {
                                lemma_count_frags_update(old(self).tiles@, i as int, emptied);
                            }
                            let ghost mid = self.tiles@;
                            self.open_gates();
                            proof {
                                lemma_count_to_same_delta(
                                    spec_open_gates(mid),
                                    mid,
                                    mid.len() as int,
                                );
                            }
                        }
                    },
                    None => {},
                }
            },
            Some(InteractiveCmd::GetFragment(x, y)) => {
                proof {
                    lemma_find_idx(self.tiles@, x, y);
                }
                match self.find_idx(x, y) {
                    Some(i) => {
                        let t = self.tiles[i];
                        if matches!(t.id, TileId::Fragment) {
                            let emptied = Tile { id: TileId::Empty, local_x: t.local_x, local_y: t.local_y };
                            proof {
                                lemma_count_frags_update(old(self).tiles@, i as int, emptied);
                                lemma_count_to_lower(
                                    old(self).tiles@,
                                    i as int,
                                    old(self).tiles@.len() as int,
                                );
                            }
                            self.tiles[i] = emptied;
                            self.fragment_count = self.fragment_count + 1;
                        }
                    },
                    None => {},
                }
            },
            _ => {},
        }
    }

    /// Applies a frame's batch of interactive commands in order: keys and
    /// fragments are collected out of the grid, keys open every gate. A
    /// repeated command for one tile is stale by the time it is reached and
    /// changes nothing.
    pub fn update(&mut self, cmds: [Option<InteractiveCmd>; 4])
        requires
            old(self).wf(),
        ensures
            final(self).tiles@ == spec_collect_all(
                old(self).tiles@,
                old(self).fragment_count,
                cmds@,
            ).0,
            final(self).fragment_count == spec_collect_all(
                old(self).tiles@,
                old(self).fragment_count,
                cmds@,
            ).1,
            final(self).stage_idx == old(self).stage_idx,
            final(self).start_pos == old(self).start_pos,
            final(self).wf(),
    {
        let ghost c = cmds@;
        let ghost c1 = c.drop_first();
        let ghost c2 = c1.drop_first();
        let ghost c3 = c2.drop_first();
        let ghost c4 = c3.drop_first();
        self.apply_cmd(cmds[0]);
        let ghost s1 = (self.tiles@, self.fragment_count);
        self.apply_cmd(cmds[1]);
        let ghost s2 = (self.tiles@, self.fragment_count);
        self.apply_cmd(cmds[2]);
        let ghost s3 = (self.tiles@, self.fragment_count);
        self.apply_cmd(cmds[3]);
        proof {
            assert(c.len() == 4 && c1.len() == 3 && c2.len() == 2 && c3.len() == 1 && c4.len()
                == 0);
            assert(c[0] == cmds[0] && c1[0] == c[1] && c2[0] == c[2] && c3[0] == c[3]);
            assert(s1 == spec_collect(old(self).tiles@, old(self).fragment_count, c[0]));
            assert(s2 == spec_collect(s1.0, s1.1, c[1]));
            assert(s3 == spec_collect(s2.0, s2.1, c[2]));
            assert((self.tiles@, self.fragment_count) == spec_collect(s3.0, s3.1, c[3]));
            assert(spec_collect_all(old(self).tiles@, old(self).fragment_count, c)
                == spec_collect_all(s1.0, s1.1, c1));
            assert(spec_collect_all(s1.0, s1.1, c1) == spec_collect_all(s2.0, s2.1, c2));
            assert(spec_collect_all(s2.0, s2.1, c2) == spec_collect_all(s3.0, s3.1, c3));
            assert(spec_collect_all(s3.0, s3.1, c3) == spec_collect_all(
                self.tiles@,
                self.fragment_count,
                c4,
            ));
        }
    }

    /// Advances to the next stage definition if one exists, loading it fresh;
    /// reports whether it did. On the last stage nothing changes.
    pub fn goto_next_stage(&mut self) -> (r: bool)
        requires
            old(self).wf(),
        ensures
            r == (old(self).stage_idx + 1 < NUM_STAGES),
            r ==> {
                &&& final(self).stage_idx == old(self).stage_idx + 1
                &&& final(self).tiles@ == spec_stage_tiles(final(self).stage_idx as int)
                &&& final(self).fragment_count == 0
                &&& final(self).start_pos == spec_stage_start(final(self).stage_idx as int)
            },
            !r ==> *final(self) == *old(self),
            final(self).wf(),
    {
        if self.stage_idx + 1 < NUM_STAGES {
            proof {
                lemma_budgets();
            }
            self.stage_idx = self.stage_idx + 1;
            self.tiles = load_stage_tiles(self.stage_idx);
            self.start_pos = stage_start(self.stage_idx);
            self.fragment_count = 0;
            true
        } else {
            false
        }
    }

    /// The draw requests of the whole tile list, in tile order: one blit per
    /// drawable tile at its global position shifted by the camera offset.
    pub open spec fn spec_tile_draw_cmds(tiles: Seq<Tile>, cam_x: int, cam_y: int) -> Seq<DrawCmd>
        decreases tiles.len(),
    {
        if tiles.len() == 0 {
            Seq::empty()
        } else {
            let rest = Self::spec_tile_draw_cmds(tiles.drop_last(), cam_x, cam_y);
            let t = tiles.last();
            match spec_tile_image(t.id) {
                Some(img) => rest.push(
                    img.spec_blit_cmd(
                        (t.local_x * TILE_SIZE + cam_x) as i32,
                        (t.local_y * TILE_SIZE + cam_y) as i32,
                        spec_orient_flags(img.xflip, img.yflip, img.rot),
                    ),
                ),
                None => rest,
            }
        }
    }

    /// Draws every tile of the stage at the camera offset.
    pub fn draw(&self, renderer: &mut Renderer, cam_x: i16, cam_y: i16)
        ensures
            final(renderer).cmds@ == old(renderer).cmds@ + Self::spec_tile_draw_cmds(
                self.tiles@,
                cam_x as int,
                cam_y as int,
            ),
    {
        let n = self.tiles.len();
        let mut i: usize = 0;
        while i < n
            invariant
                i <= n,
                n == self.tiles@.len(),
                renderer.cmds@ == old(renderer).cmds@ + Self::spec_tile_draw_cmds(
                    self.tiles@.take(i as int),
                    cam_x as int,
                    cam_y as int,
                ),
            decreases n - i,
        {
            let t = self.tiles[i];
            proof {
                assert(self.tiles@.take(i + 1).drop_last() =~= self.tiles@.take(i as int));
                assert(self.tiles@.take(i + 1).last() == self.tiles@[i as int]);
            }
            match tile_image(t.id) {
                Some(img) => {
                    let x = (t.local_x as i32) * (TILE_SIZE as i32) + cam_x as i32;
                    let y = (t.local_y as i32) * (TILE_SIZE as i32) + cam_y as i32;
                    img.draw(renderer, x, y);
                },
                None => {},
            }
            i = i + 1;
        }
        proof {
            assert(self.tiles@.take(n as int) =~= self.tiles@);
        }
    }
}

} // verus!
