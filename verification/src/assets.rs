//! Sprite metadata and animation timelines. Pixel data lives with the host;
//! each image here names its data by handle and carries the size, base blit
//! flags and color selection the draw requests need.

use vstd::prelude::*;
use crate::utils::{Image, RawImage, Timeline, BLIT_2BPP};
use crate::stage::TileId;

verus! {

/// Color selection for the character sprites.
pub const COL_DRAGON: u16 = 0x0432;

/// Color selection for most stage tiles.
pub const COL_TILE: u16 = 0x4320;

/// Color selection for wall tiles.
pub const COL_WALL: u16 = 0x1243;

/// Color selection for the opened gate.
pub const COL_GATE_OPEN: u16 = 0x0040;

/// Pixel-data handles, one per sprite sheet.
pub const IMG_ID_ERROR: u32 = 0;
pub const IMG_ID_DRAGON_IDLE_01: u32 = 1;
pub const IMG_ID_DRAGON_WALK_01: u32 = 2;
pub const IMG_ID_DRAGON_WALK_02: u32 = 3;
pub const IMG_ID_DRAGON_WALK_03: u32 = 4;
pub const IMG_ID_DRAGON_JUMP_01: u32 = 5;
pub const IMG_ID_DRAGON_FLY_01: u32 = 6;
pub const IMG_ID_DRAGON_FLY_02: u32 = 7;
pub const IMG_ID_DRAGON_FALL_01: u32 = 8;
pub const IMG_ID_DRAGON_DEATH_01: u32 = 9;
pub const IMG_ID_DRAGON_DEATH_02: u32 = 10;
pub const IMG_ID_TILE_WALL: u32 = 11;
pub const IMG_ID_TILE_NEEDLE: u32 = 12;
pub const IMG_ID_TILE_GATE_OPEN: u32 = 13;
pub const IMG_ID_TILE_GATE_CLOSE: u32 = 14;
pub const IMG_ID_ITEM_KEY: u32 = 15;
pub const IMG_ID_ITEM_FRAGMENT: u32 = 16;
pub const IMG_ID_TILE_SPRING_VERT: u32 = 17;
pub const IMG_ID_TILE_SPRING_HORI: u32 = 18;

/// A 16 by 16 two-bit-per-pixel sprite sheet with the given data handle.
fn raw16(data_id: u32) -> (r: RawImage)
    ensures
        r == (RawImage { width: 16u32, height: 16u32, flags: BLIT_2BPP, data_id }),
{
    RawImage { width: 16, height: 16, flags: BLIT_2BPP, data_id }
}

/// The image drawn for each tile kind; empty cells and the start marker draw
/// nothing.
pub open spec fn spec_tile_image(id: TileId) -> Option<Image> {
    match id {
        TileId::Empty => None,
        TileId::Start => None,
        TileId::Wall => Some(
            Image {
                col_idx: COL_WALL,
                raw: RawImage { width: 16u32, height: 16u32, flags: BLIT_2BPP, data_id: IMG_ID_TILE_WALL },
                xflip: false,
                yflip: false,
                rot: false,
            },
        ),
        TileId::NeedleUp => Some(
            Image {
                col_idx: COL_TILE,
                raw: RawImage { width: 16u32, height: 16u32, flags: BLIT_2BPP, data_id: IMG_ID_TILE_NEEDLE },
                xflip: false,
                yflip: false,
                rot: false,
            },
        ),
        TileId::NeedleRight => Some(
            Image {
                col_idx: COL_TILE,
                raw: RawImage { width: 16u32, height: 16u32, flags: BLIT_2BPP, data_id: IMG_ID_TILE_NEEDLE },
                xflip: false,
                yflip: true,
                rot: true,
            },
        ),
        TileId::NeedleLeft => Some(
            Image {
                col_idx: COL_TILE,
                raw: RawImage { width: 16u32, height: 16u32, flags: BLIT_2BPP, data_id: IMG_ID_TILE_NEEDLE },
                xflip: false,
                yflip: false,
                rot: true,
            },
        ),
        TileId::NeedleDown => Some(
            Image {
                col_idx: COL_TILE,
                raw: RawImage { width: 16u32, height: 16u32, flags: BLIT_2BPP, data_id: IMG_ID_TILE_NEEDLE },
                xflip: false,
                yflip: true,
                rot: false,
            },
        ),
        TileId::GoalClosed => Some(
            Image {
                col_idx: COL_TILE,
                raw: RawImage { width: 16u32, height: 16u32, flags: BLIT_2BPP, data_id: IMG_ID_TILE_GATE_CLOSE },
                xflip: false,
                yflip: false,
                rot: false,
            },
        ),
        TileId::GoalOpened => Some(
            Image {
                col_idx: COL_GATE_OPEN,
                raw: RawImage { width: 16u32, height: 16u32, flags: BLIT_2BPP, data_id: IMG_ID_TILE_GATE_OPEN },
                xflip: false,
                yflip: false,
                rot: false,
            },
        ),
        TileId::Key => Some(
            Image {
                col_idx: COL_TILE,
                raw: RawImage { width: 16u32, height: 16u32, flags: BLIT_2BPP, data_id: IMG_ID_ITEM_KEY },
                xflip: false,
                yflip: false,
                rot: false,
            },
        ),
        TileId::Fragment => Some(
            Image {
                col_idx: COL_TILE,
                raw: RawImage { width: 16u32, height: 16u32, flags: BLIT_2BPP, data_id: IMG_ID_ITEM_FRAGMENT },
                xflip: false,
                yflip: false,
                rot: false,
            },
        ),
        TileId::SpringVert => Some(
            Image {
                col_idx: COL_TILE,
                raw: RawImage { width: 16u32, height: 16u32, flags: BLIT_2BPP, data_id: IMG_ID_TILE_SPRING_VERT },
                xflip: false,
                yflip: false,
                rot: false,
            },
        ),
        TileId::SpringHori => Some(
            Image {
                col_idx: COL_TILE,
                raw: RawImage { width: 16u32, height: 16u32, flags: BLIT_2BPP, data_id: IMG_ID_TILE_SPRING_HORI },
                xflip: false,
                yflip: false,
                rot: false,
            },
        ),
    }
}

/// Looks up the image drawn for a tile kind.
pub fn tile_image(id: TileId) -> (r: Option<Image>)
    ensures
        r == spec_tile_image(id),
{
    match id {
        TileId::Empty => None,
        TileId::Start => None,
        TileId::Wall => Some(Image::new(COL_WALL, raw16(IMG_ID_TILE_WALL))),
        TileId::NeedleUp => Some(Image::newf(COL_TILE, raw16(IMG_ID_TILE_NEEDLE), false, false, false)),
        TileId::NeedleRight => Some(Image::newf(COL_TILE, raw16(IMG_ID_TILE_NEEDLE), false, true, true)),
        TileId::NeedleLeft => Some(Image::newf(COL_TILE, raw16(IMG_ID_TILE_NEEDLE), false, false, true)),
        TileId::NeedleDown => Some(Image::newf(COL_TILE, raw16(IMG_ID_TILE_NEEDLE), false, true, false)),
        TileId::GoalClosed => Some(Image::new(COL_TILE, raw16(IMG_ID_TILE_GATE_CLOSE))),
        TileId::GoalOpened => Some(Image::new(COL_GATE_OPEN, raw16(IMG_ID_TILE_GATE_OPEN))),
        TileId::Key => Some(Image::new(COL_TILE, raw16(IMG_ID_ITEM_KEY))),
        TileId::Fragment => Some(Image::new(COL_TILE, raw16(IMG_ID_ITEM_FRAGMENT))),
        TileId::SpringVert => Some(Image::new(COL_TILE, raw16(IMG_ID_TILE_SPRING_VERT))),
        TileId::SpringHori => Some(Image::new(COL_TILE, raw16(IMG_ID_TILE_SPRING_HORI))),
    }
}

/// Builds one dragon animation frame.
fn dragon_frame(data_id: u32) -> (r: Image) {
    Image::new(COL_DRAGON, raw16(data_id))
}

pub fn anim_dragon_idle() -> (t: Timeline)
    ensures
        t.wf(),
        t.now_idx == 0 && t.frame_count == 0,
{
    let mut images: Vec<Image> = Vec::new();
    images.push(dragon_frame(IMG_ID_DRAGON_IDLE_01));
    let mut waits: Vec<u8> = Vec::new();
    waits.push(255);
    Timeline::new(images, waits)
}

pub fn anim_dragon_walk() -> (t: Timeline)
    ensures
        t.wf(),
        t.now_idx == 0 && t.frame_count == 0,
{
    let mut images: Vec<Image> = Vec::new();
    images.push(dragon_frame(IMG_ID_DRAGON_WALK_01));
    images.push(dragon_frame(IMG_ID_DRAGON_WALK_02));
    images.push(dragon_frame(IMG_ID_DRAGON_WALK_03));
    let mut waits: Vec<u8> = Vec::new();
    waits.push(6);
    waits.push(6);
    waits.push(6);
    Timeline::new(images, waits)
}

pub fn anim_dragon_jump() -> (t: Timeline)
    ensures
        t.wf(),
        t.now_idx == 0 && t.frame_count == 0,
{
    let mut images: Vec<Image> = Vec::new();
    images.push(dragon_frame(IMG_ID_DRAGON_JUMP_01));
    let mut waits: Vec<u8> = Vec::new();
    waits.push(255);
    Timeline::new(images, waits)
}

pub fn anim_dragon_fly() -> (t: Timeline)
    ensures
        t.wf(),
        t.now_idx == 0 && t.frame_count == 0,
{
    let mut images: Vec<Image> = Vec::new();
    images.push(dragon_frame(IMG_ID_DRAGON_FLY_01));
    images.push(dragon_frame(IMG_ID_DRAGON_FLY_02));
    let mut waits: Vec<u8> = Vec::new();
    waits.push(4);
    waits.push(4);
    Timeline::new(images, waits)
}

pub fn anim_dragon_fall() -> (t: Timeline)
    ensures
        t.wf(),
        t.now_idx == 0 && t.frame_count == 0,
{
    let mut images: Vec<Image> = Vec::new();
    images.push(dragon_frame(IMG_ID_DRAGON_FALL_01));
    let mut waits: Vec<u8> = Vec::new();
    waits.push(255);
    Timeline::new(images, waits)
}

pub fn anim_dragon_death() -> (t: Timeline)
    ensures
        t.wf(),
        t.now_idx == 0 && t.frame_count == 0,
{
    let mut images: Vec<Image> = Vec::new();
    images.push(dragon_frame(IMG_ID_DRAGON_DEATH_01));
    images.push(dragon_frame(IMG_ID_DRAGON_DEATH_02));
    images.push(dragon_frame(IMG_ID_DRAGON_DEATH_01));
    images.push(dragon_frame(IMG_ID_DRAGON_DEATH_02));
    let mut waits: Vec<u8> = Vec::new();
    waits.push(5);
    waits.push(5);
    waits.push(5);
    waits.push(5);
    Timeline::new(images, waits)
}

} // verus!
