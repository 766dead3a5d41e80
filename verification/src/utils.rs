//! Small shared utilities: integer 2D vectors, the frame-counting clock,
//! button-input bookkeeping, draw-request recording, images and animation
//! timelines.

use vstd::prelude::*;

verus! {

// -------------------------------
// Math
// -------------------------------

/// Integer 2D vector: positions are top-left anchors in world pixels,
/// velocities are per-frame movement intents, forces are decaying impulses.
#[derive(Debug, Copy, Clone, PartialEq, Eq, Structural)]
pub struct Vec2i {
    pub x: i16,
    pub y: i16,
}

impl Vec2i {
    pub fn new(x: i16, y: i16) -> (r: Self)
        ensures
            r == (Vec2i { x, y }),
    {
        Vec2i { x, y }
    }

    pub fn zero() -> (r: Self)
        ensures
            r == (Vec2i { x: 0i16, y: 0i16 }),
    {
        Vec2i { x: 0, y: 0 }
    }
}

// -------------------------------
// Button Handler
// -------------------------------

/// Button indices into the per-frame input snapshot. Each index matches the
/// bit position of that button in the raw gamepad byte.
pub const BTN_1: u8 = 0;
pub const BTN_2: u8 = 1;
/// The confirm/jump button (an alias for the second pad button).
pub const BTN_Z: u8 = 1;
pub const BTN_LEFT: u8 = 4;
pub const BTN_RIGHT: u8 = 5;
pub const BTN_UP: u8 = 6;
pub const BTN_DOWN: u8 = 7;

/// How a held counter advances for one frame: up by one while the button is
/// down (never past the counter's capacity), back to zero on release.
pub open spec fn spec_held(prev: u16, down: bool) -> u16 {
    if down {
        if prev < 0xffffu16 {
            (prev + 1) as u16
        } else {
            prev
        }
    } else {
        0u16
    }
}

/// Per-frame input snapshot: for each button, how many consecutive frames it
/// has been held (0 = not pressed), plus which buttons changed since the
/// previous frame. The host samples the raw gamepad byte once per frame and
/// feeds it to `update`; all queries then stay stable for that frame.
pub struct ButtonHandler {
    btn_states: [u16; 8],
    old_btn_states: u8,
    just_changed_btn_states: u8,
}

impl ButtonHandler {
    /// Frames the button at index `btn` has been held.
    pub closed spec fn spec_time(self, btn: u8) -> u16
        recommends
            btn < 8,
    {
        self.btn_states[btn as int]
    }

    /// The gamepad byte of the previous frame.
    pub closed spec fn spec_old_pad(self) -> u8 {
        self.old_btn_states
    }

    /// Buttons whose pressed state changed on the most recent update.
    pub closed spec fn spec_changed(self) -> u8 {
        self.just_changed_btn_states
    }

    pub fn new() -> (r: Self)
        ensures
            forall|b: u8| b < 8 ==> r.spec_time(b) == 0,
            r.spec_old_pad() == 0,
            r.spec_changed() == 0,
    {
        ButtonHandler { btn_states: [0, 0, 0, 0, 0, 0, 0, 0], old_btn_states: 0, just_changed_btn_states: 0 }
    }

    /// Folds one sampled gamepad byte into the snapshot: bit `b` of the byte
    /// is button `b`'s pressed state this frame.
    pub fn update(&mut self, gamepad: u8)
        ensures
            final(self).spec_time(0) == spec_held(old(self).spec_time(0), gamepad & 0x01u8 != 0),
            final(self).spec_time(1) == spec_held(old(self).spec_time(1), gamepad & 0x02u8 != 0),
            final(self).spec_time(2) == old(self).spec_time(2),
            final(self).spec_time(3) == old(self).spec_time(3),
            final(self).spec_time(4) == spec_held(old(self).spec_time(4), gamepad & 0x10u8 != 0),
            final(self).spec_time(5) == spec_held(old(self).spec_time(5), gamepad & 0x20u8 != 0),
            final(self).spec_time(6) == spec_held(old(self).spec_time(6), gamepad & 0x40u8 != 0),
            final(self).spec_time(7) == spec_held(old(self).spec_time(7), gamepad & 0x80u8 != 0),
            final(self).spec_changed() == (gamepad ^ old(self).spec_old_pad()),
            final(self).spec_old_pad() == gamepad,
    {
        self.just_changed_btn_states = gamepad ^ self.old_btn_states;
        if gamepad & 0x01 != 0 {
            if self.btn_states[0] < 0xffff {
                self.btn_states[0] = self.btn_states[0] + 1;
            }
        } else {
            self.btn_states[0] = 0;
        }
        if gamepad & 0x02 != 0 {
            if self.btn_states[1] < 0xffff {
                self.btn_states[1] = self.btn_states[1] + 1;
            }
        } else {
            self.btn_states[1] = 0;
        }
        if gamepad & 0x10 != 0 {
            if self.btn_states[4] < 0xffff {
                self.btn_states[4] = self.btn_states[4] + 1;
            }
        } else {
            self.btn_states[4] = 0;
        }
        if gamepad & 0x20 != 0 {
            if self.btn_states[5] < 0xffff {
                self.btn_states[5] = self.btn_states[5] + 1;
            }
        } else {
            self.btn_states[5] = 0;
        }
        if gamepad & 0x40 != 0 {
            if self.btn_states[6] < 0xffff {
                self.btn_states[6] = self.btn_states[6] + 1;
            }
        } else {
            self.btn_states[6] = 0;
        }
        if gamepad & 0x80 != 0 {
            if self.btn_states[7] < 0xffff {
                self.btn_states[7] = self.btn_states[7] + 1;
            }
        } else {
            self.btn_states[7] = 0;
        }
        self.old_btn_states = gamepad;
    }
}

/// Folds one sampled gamepad byte into the snapshot.
pub fn update_btn(handler: &mut ButtonHandler, gamepad: u8)
    ensures
        final(handler).spec_time(0) == spec_held(old(handler).spec_time(0), gamepad & 0x01u8 != 0),
        final(handler).spec_time(1) == spec_held(old(handler).spec_time(1), gamepad & 0x02u8 != 0),
        final(handler).spec_time(2) == old(handler).spec_time(2),
        final(handler).spec_time(3) == old(handler).spec_time(3),
        final(handler).spec_time(4) == spec_held(old(handler).spec_time(4), gamepad & 0x10u8 != 0),
        final(handler).spec_time(5) == spec_held(old(handler).spec_time(5), gamepad & 0x20u8 != 0),
        final(handler).spec_time(6) == spec_held(old(handler).spec_time(6), gamepad & 0x40u8 != 0),
        final(handler).spec_time(7) == spec_held(old(handler).spec_time(7), gamepad & 0x80u8 != 0),
        final(handler).spec_changed() == (gamepad ^ old(handler).spec_old_pad()),
        final(handler).spec_old_pad() == gamepad,
{
    handler.update(gamepad);
}

/// Consecutive frames the button has been held (0 = not pressed).
pub fn get_pressed_time(handler: &ButtonHandler, btn: u8) -> (r: u16)
    requires
        btn < 8,
    ensures
        r == handler.spec_time(btn),
{
    handler.btn_states[btn as usize]
}

/// The button is down this frame.
pub fn is_pressed(handler: &ButtonHandler, btn: u8) -> (r: bool)
    requires
        btn < 8,
    ensures
        r == (handler.spec_time(btn) >= 1),
{
    get_pressed_time(handler, btn) >= 1
}

/// The button went down this frame (held for exactly one frame).
pub fn is_just_pressed(handler: &ButtonHandler, btn: u8) -> (r: bool)
    requires
        btn < 8,
    ensures
        r == (handler.spec_time(btn) == 1),
{
    get_pressed_time(handler, btn) == 1
}

/// The button came up this frame: not held now, but its state just changed.
pub fn is_just_released(handler: &ButtonHandler, btn: u8) -> (r: bool)
    requires
        btn < 8,
    ensures
        r == (handler.spec_time(btn) == 0 && handler.spec_changed() & (1u8 << btn) != 0),
{
    get_pressed_time(handler, btn) == 0 && handler.just_changed_btn_states & (1u8 << btn) != 0
}

// -------------------------------
// Clock
// -------------------------------

/// Frame-counter countdown: `tick` advances the counter by one frame (never
/// past `duration`), `is_time_out` reports whether `duration` frames have
/// elapsed, `reset` starts the countdown over.
pub struct Clock {
    count: u16,
    duration: u16,
}

impl Clock {
    pub closed spec fn spec_count(self) -> u16 {
        self.count
    }

    pub closed spec fn spec_duration(self) -> u16 {
        self.duration
    }

    /// The counter never runs past the duration.
    pub open spec fn wf(self) -> bool {
        self.spec_count() <= self.spec_duration()
    }

    pub fn new(duration: u16) -> (r: Self)
        ensures
            r.spec_count() == 0,
            r.spec_duration() == duration,
            r.wf(),
    {
        Clock { count: 0, duration }
    }

    pub fn tick(&mut self)
        ensures
            final(self).spec_count() == if old(self).spec_count() < old(self).spec_duration() {
                old(self).spec_count() + 1
            } else {
                old(self).spec_count() as int
            },
            final(self).spec_duration() == old(self).spec_duration(),
            old(self).wf() ==> final(self).wf(),
    {
        if self.count < self.duration {
            self.count = self.count + 1;
        }
    }

    pub fn is_time_out(&self) -> (r: bool)
        ensures
            r == (self.spec_count() >= self.spec_duration()),
    {
        self.count >= self.duration
    }

    pub fn reset(&mut self)
        ensures
            final(self).spec_count() == 0,
            final(self).spec_duration() == old(self).spec_duration(),
            final(self).wf(),
    {
        self.count = 0;
    }
}

// -------------------------------
// Renderer
// -------------------------------

/// Blit orientation flags, bit-or'ed into a draw request.
pub const BLIT_2BPP: u32 = 1;
pub const BLIT_FLIP_X: u32 = 2;
pub const BLIT_FLIP_Y: u32 = 4;
pub const BLIT_ROTATE: u32 = 8;

/// One draw request. The engine only produces these; the host consumes them
/// as an opaque sink and owns all pixel work.
#[derive(Clone, PartialEq, Debug)]
pub enum DrawCmd {
    /// Draw a whole image (identified by its pixel-data handle).
    Blit { colors: u16, data_id: u32, x: i32, y: i32, width: u32, height: u32, flags: u32 },
    /// Fill a rectangle.
    Rect { colors: u16, x: i32, y: i32, width: u32, height: u32 },
    /// Draw a rectangular part of an image, from source offset
    /// `(src_x, src_y)` in a sheet `stride` pixels wide.
    BlitSub {
        colors: u16,
        data_id: u32,
        x: i32,
        y: i32,
        width: u32,
        height: u32,
        src_x: u32,
        src_y: u32,
        stride: u32,
        flags: u32,
    },
    /// Draw a fixed line of text.
    Text { colors: u16, text: &'static str, x: i32, y: i32 },
    /// Draw a small number in decimal.
    Number { colors: u16, value: u8, x: i32, y: i32 },
}

/// Records the draw requests of one frame, together with the currently
/// selected draw-color indices (a pair of palette slots packed in a `u16`).
pub struct Renderer {
    pub draw_colors: u16,
    pub cmds: Vec<DrawCmd>,
}

impl Renderer {
    pub fn new() -> (r: Self)
        ensures
            r.draw_colors == 0,
            r.cmds@ == Seq::<DrawCmd>::empty(),
    {
        Renderer { draw_colors: 0, cmds: Vec::new() }
    }

    pub fn blit(&mut self, data_id: u32, x: i32, y: i32, width: u32, height: u32, flags: u32)
        ensures
            final(self).draw_colors == old(self).draw_colors,
            final(self).cmds@ == old(self).cmds@.push(
                DrawCmd::Blit {
                    colors: old(self).draw_colors,
                    data_id,
                    x,
                    y,
                    width,
                    height,
                    flags,
                },
            ),
    {
        let colors = self.draw_colors;
        self.cmds.push(DrawCmd::Blit { colors, data_id, x, y, width, height, flags });
    }

    pub fn blit_sub(
        &mut self,
        data_id: u32,
        x: i32,
        y: i32,
        width: u32,
        height: u32,
        src_x: u32,
        src_y: u32,
        stride: u32,
        flags: u32,
    )
        ensures
            final(self).draw_colors == old(self).draw_colors,
            final(self).cmds@ == old(self).cmds@.push(
                DrawCmd::BlitSub {
                    colors: old(self).draw_colors,
                    data_id,
                    x,
                    y,
                    width,
                    height,
                    src_x,
                    src_y,
                    stride,
                    flags,
                },
            ),
    {
        let colors = self.draw_colors;
        self.cmds.push(
            DrawCmd::BlitSub { colors, data_id, x, y, width, height, src_x, src_y, stride, flags },
        );
    }

    pub fn rect(&mut self, x: i32, y: i32, width: u32, height: u32)
        ensures
            final(self).draw_colors == old(self).draw_colors,
            final(self).cmds@ == old(self).cmds@.push(
                DrawCmd::Rect { colors: old(self).draw_colors, x, y, width, height },
            ),
    {
        let colors = self.draw_colors;
        self.cmds.push(DrawCmd::Rect { colors, x, y, width, height });
    }

    pub fn text(&mut self, text: &'static str, x: i32, y: i32)
        ensures
            final(self).draw_colors == old(self).draw_colors,
            final(self).cmds@ == old(self).cmds@.push(
                DrawCmd::Text { colors: old(self).draw_colors, text, x, y },
            ),
    {
        let colors = self.draw_colors;
        self.cmds.push(DrawCmd::Text { colors, text, x, y });
    }

    pub fn number(&mut self, value: u8, x: i32, y: i32)
        ensures
            final(self).draw_colors == old(self).draw_colors,
            final(self).cmds@ == old(self).cmds@.push(
                DrawCmd::Number { colors: old(self).draw_colors, value, x, y },
            ),
    {
        let colors = self.draw_colors;
        self.cmds.push(DrawCmd::Number { colors, value, x, y });
    }
}

// -------------------------------
// Color
// -------------------------------

/// Selects a fill color and an outline color for the draw requests that
/// follow (each a palette slot index, packed low and high).
pub fn set_drawcolor(renderer: &mut Renderer, fcol: u16, scol: u16)
    requires
        scol < 0x1000,
    ensures
        final(renderer).draw_colors == ((scol << 4u16) | fcol),
        final(renderer).cmds@ == old(renderer).cmds@,
{
    renderer.draw_colors = (scol << 4) | fcol;
}

/// Selects the packed draw-color indices for the draw requests that follow.
pub fn set_drawcolor_idx(renderer: &mut Renderer, idx: u16)
    ensures
        final(renderer).draw_colors == idx,
        final(renderer).cmds@ == old(renderer).cmds@,
{
    renderer.draw_colors = idx;
}

// -------------------------------
// Image
// -------------------------------

/// Metadata of one sprite sheet: its size, its base blit flags, and a handle
/// naming its pixel data, which lives with the host.
#[derive(Copy, Clone, PartialEq, Eq, Structural, Debug)]
pub struct RawImage {
    pub width: u32,
    pub height: u32,
    pub flags: u32,
    pub data_id: u32,
}

/// A drawable image: a sprite sheet plus a color selection and an optional
/// fixed orientation.
#[derive(Copy, Clone, PartialEq, Eq, Structural, Debug)]
pub struct Image {
    pub col_idx: u16,
    pub raw: RawImage,
    pub xflip: bool,
    pub yflip: bool,
    pub rot: bool,
}

/// The blit flags that encode an orientation.
pub open spec fn spec_orient_flags(xflip: bool, yflip: bool, rot: bool) -> u32 {
    ((if xflip {
        BLIT_FLIP_X
    } else {
        0u32
    }) | (if yflip {
        BLIT_FLIP_Y
    } else {
        0u32
    })) | (if rot {
        BLIT_ROTATE
    } else {
        0u32
    })
}

/// Computes the blit flags that encode an orientation.
pub fn orient_flags(xflip: bool, yflip: bool, rot: bool) -> (r: u32)
    ensures
        r == spec_orient_flags(xflip, yflip, rot),
{
    let fx: u32 = if xflip {
        BLIT_FLIP_X
    } else {
        0
    };
    let fy: u32 = if yflip {
        BLIT_FLIP_Y
    } else {
        0
    };
    let fr: u32 = if rot {
        BLIT_ROTATE
    } else {
        0
    };
    (fx | fy) | fr
}

impl Image {
    /// The draw request this image produces at `(x, y)` with `flags` or'ed
    /// onto its base flags.
    pub open spec fn spec_blit_cmd(self, x: i32, y: i32, flags: u32) -> DrawCmd {
        DrawCmd::Blit {
            colors: self.col_idx,
            data_id: self.raw.data_id,
            x,
            y,
            width: self.raw.width,
            height: self.raw.height,
            flags: self.raw.flags | flags,
        }
    }

    pub fn new(col_idx: u16, raw: RawImage) -> (r: Self)
        ensures
            r.col_idx == col_idx,
            r.raw == raw,
            !r.xflip && !r.yflip && !r.rot,
    {
        Image { col_idx, raw, xflip: false, yflip: false, rot: false }
    }

    pub fn newf(col_idx: u16, raw: RawImage, xflip: bool, yflip: bool, rot: bool) -> (r: Self)
        ensures
            r.col_idx == col_idx,
            r.raw == raw,
            r.xflip == xflip && r.yflip == yflip && r.rot == rot,
    {
        Image { col_idx, raw, xflip, yflip, rot }
    }

    /// Draws with the image's own orientation flags.
    pub fn draw(&self, renderer: &mut Renderer, x: i32, y: i32)
        ensures
            final(renderer).draw_colors == self.col_idx,
            final(renderer).cmds@ == old(renderer).cmds@.push(
                self.spec_blit_cmd(x, y, spec_orient_flags(self.xflip, self.yflip, self.rot)),
            ),
    {
        set_drawcolor_idx(renderer, self.col_idx);
        let add_flags = orient_flags(self.xflip, self.yflip, self.rot);
        renderer.blit(
            self.raw.data_id,
            x,
            y,
            self.raw.width,
            self.raw.height,
            self.raw.flags | add_flags,
        );
    }

    /// The partial draw request this image produces: a `w` by `h` region
    /// from source offset `(sx, sy)`, with `flags` or'ed onto its base flags.
    pub open spec fn spec_blit_sub_cmd(self, x: i32, y: i32, w: u32, h: u32, sx: u32, sy: u32, flags: u32) -> DrawCmd {
        DrawCmd::BlitSub {
            colors: self.col_idx,
            data_id: self.raw.data_id,
            x,
            y,
            width: w,
            height: h,
            src_x: sx,
            src_y: sy,
            stride: self.raw.width,
            flags: self.raw.flags | flags,
        }
    }

    /// Draws a part of the image with its own orientation flags.
    pub fn draw_sub(&self, renderer: &mut Renderer, x: i32, y: i32, w: u32, h: u32, sx: u32, sy: u32)
        ensures
            final(renderer).draw_colors == self.col_idx,
            final(renderer).cmds@ == old(renderer).cmds@.push(
                self.spec_blit_sub_cmd(
                    x,
                    y,
                    w,
                    h,
                    sx,
                    sy,
                    spec_orient_flags(self.xflip, self.yflip, self.rot),
                ),
            ),
    {
        set_drawcolor_idx(renderer, self.col_idx);
        let add_flags = orient_flags(self.xflip, self.yflip, self.rot);
        renderer.blit_sub(self.raw.data_id, x, y, w, h, sx, sy, self.raw.width, self.raw.flags | add_flags);
    }

    /// Draws a part of the image with its orientation flags ignored in favor
    /// of the given ones.
    pub fn draw_subf(&self, renderer: &mut Renderer, x: i32, y: i32, w: u32, h: u32, sx: u32, sy: u32, flags: u32)
        ensures
            final(renderer).draw_colors == self.col_idx,
            final(renderer).cmds@ == old(renderer).cmds@.push(
                self.spec_blit_sub_cmd(x, y, w, h, sx, sy, flags),
            ),
    {
        set_drawcolor_idx(renderer, self.col_idx);
        renderer.blit_sub(self.raw.data_id, x, y, w, h, sx, sy, self.raw.width, self.raw.flags | flags);
    }

    /// Draws with the image's own orientation flags ignored in favor of the
    /// given ones.
    pub fn drawf(&self, renderer: &mut Renderer, x: i32, y: i32, flags: u32)
        ensures
            final(renderer).draw_colors == self.col_idx,
            final(renderer).cmds@ == old(renderer).cmds@.push(self.spec_blit_cmd(x, y, flags)),
    {
        set_drawcolor_idx(renderer, self.col_idx);
        renderer.blit(self.raw.data_id, x, y, self.raw.width, self.raw.height, self.raw.flags | flags);
    }
}

// -------------------------------
// Timeline
// -------------------------------

/// An animation timeline: an ordered sequence of frame images with per-frame
/// hold durations, advanced one frame per `play` call and wrapping back to
/// the first image after the last hold elapses.
pub struct Timeline {
    pub images: Vec<Image>,
    pub wait_frames: Vec<u8>,
    pub frame_count: u8,
    pub now_idx: u8,
    pub max_idx: u8,
}

impl Timeline {
    /// Internal consistency: one hold duration per image, at least one image,
    /// the cursor inside the sequence, and the elapsed count inside the
    /// current hold.
    pub open spec fn wf(self) -> bool {
        &&& self.max_idx as int == self.images@.len()
        &&& self.wait_frames@.len() == self.images@.len()
        &&& 1 <= self.max_idx
        &&& self.now_idx < self.max_idx
        &&& (self.frame_count == 0 || self.frame_count < self.wait_frames@[self.now_idx as int])
    }

    /// How one `play` call advances the timeline.
    pub open spec fn spec_played(self) -> Timeline {
        let counted = (self.frame_count + 1) as u8;
        if counted >= self.wait_frames@[self.now_idx as int] {
            let next = (self.now_idx + 1) as u8;
            Timeline {
                frame_count: 0u8,
                now_idx: if next >= self.max_idx {
                    0u8
                } else {
                    next
                },
                ..self
            }
        } else {
            Timeline { frame_count: counted, ..self }
        }
    }

    pub fn new(images: Vec<Image>, wait_frames: Vec<u8>) -> (r: Self)
        requires
            images@.len() == wait_frames@.len(),
            1 <= images@.len() <= 255,
        ensures
            r.images@ == images@,
            r.wait_frames@ == wait_frames@,
            r.frame_count == 0,
            r.now_idx == 0,
            r.max_idx as int == images@.len(),
            r.wf(),
    {
        let max_idx = images.len() as u8;
        Timeline { images, wait_frames, max_idx, frame_count: 0, now_idx: 0 }
    }

    /// Advances the animation by one frame: after the current image's hold
    /// duration has elapsed the cursor moves on, cyclically.
    pub fn play(&mut self)
        requires
            old(self).wf(),
        ensures
            *final(self) == old(self).spec_played(),
            final(self).wf(),
    {
        self.frame_count = self.frame_count + 1;
        if self.frame_count >= self.wait_frames[self.now_idx as usize] {
            self.now_idx = self.now_idx + 1;
            self.frame_count = 0;
            if self.now_idx >= self.max_idx {
                self.now_idx = 0;
            }
        }
    }

    /// Draws the current frame's image.
    pub fn draw(&self, renderer: &mut Renderer, x: i32, y: i32, flags: u32)
        requires
            self.wf(),
        ensures
            final(renderer).draw_colors == self.images@[self.now_idx as int].col_idx,
            final(renderer).cmds@ == old(renderer).cmds@.push(
                self.images@[self.now_idx as int].spec_blit_cmd(x, y, flags),
            ),
    {
        let img = &self.images[self.now_idx as usize];
        img.drawf(renderer, x, y, flags);
    }

    /// Rewinds to the first image, with no elapsed hold time.
    pub fn reset(&mut self)
        ensures
            *final(self) == (Timeline { now_idx: 0u8, frame_count: 0u8, ..*old(self) }),
            old(self).wf() ==> final(self).wf(),
    {
        self.now_idx = 0;
        self.frame_count = 0;
    }
}

} // verus!
