//! The player character: position, velocity and decaying impulse force,
//! health and invincibility, the behavioral state machine (Idle / Walk /
//! Jump / Fly / Fall / Death), axis-separated tile collision resolution,
//! and the unguided death fall.

use vstd::prelude::*;
use crate::utils::{ButtonHandler, Timeline, Vec2i, BTN_LEFT, BTN_RIGHT, BTN_Z};
use crate::utils::{is_just_pressed, is_pressed, orient_flags, spec_orient_flags, Renderer};
use crate::stage::{InteractiveCmd, Tile, TileId, TILE_SIZE};
use crate::assets;

verus! {

/// Bounding box of the character, in pixels.
pub const DRAGON_WIDTH: i16 = 16;
pub const DRAGON_HEIGHT: i16 = 16;

/// Upward velocity set by a jump from the ground.
pub const JUMP_POWER: i16 = -4;

/// Full (and maximum) health.
pub const MAX_HP: u8 = 6;

/// Fastest allowed descent.
pub const MAX_FALL_SPD_Y: i16 = 4;

/// How many frames the hover mechanic can slow a descent.
pub const HOVER_TIME: u8 = 60;

/// How many frames holding the jump button extends an ascent.
pub const JUMP_EXT_TIME: u8 = 10;

/// How many frames invincibility lasts after a hit.
pub const INV_TIME: u8 = 90;

/// Impulse forces set by bounce pads.
pub const SPRING_FORCE_X: i16 = 12;
pub const SPRING_FORCE_Y: i16 = 18;

/// Upward impulse applied once when death triggers.
pub const DEATH_KNOCK_Y: i16 = 8;

/// Positions this far from the origin always leave room for one frame of
/// movement without leaving the machine's integer range.
pub const POS_LIMIT: i16 = 30000;

/// Behavioral state; exactly one is active at a time.
#[derive(Copy, Clone, PartialEq, Eq, Structural, Debug)]
pub enum State {
    Idle,
    Walk,
    Jump,
    Fly,
    Fall,
    Death,
}

/// One animation timeline per behavioral state.
pub struct AnimSet {
    pub idle: Timeline,
    pub walk: Timeline,
    pub jump: Timeline,
    pub fly: Timeline,
    pub fall: Timeline,
    pub death: Timeline,
}

impl AnimSet {
    pub open spec fn wf(self) -> bool {
        &&& self.idle.wf()
        &&& self.walk.wf()
        &&& self.jump.wf()
        &&& self.fly.wf()
        &&& self.fall.wf()
        &&& self.death.wf()
    }

    /// The timeline owned by a state.
    pub open spec fn spec_get(self, s: State) -> Timeline {
        match s {
            State::Idle => self.idle,
            State::Walk => self.walk,
            State::Jump => self.jump,
            State::Fly => self.fly,
            State::Fall => self.fall,
            State::Death => self.death,
        }
    }

    /// The set with one state's timeline replaced.
    pub open spec fn spec_set(self, s: State, t: Timeline) -> AnimSet {
        match s {
            State::Idle => AnimSet { idle: t, ..self },
            State::Walk => AnimSet { walk: t, ..self },
            State::Jump => AnimSet { jump: t, ..self },
            State::Fly => AnimSet { fly: t, ..self },
            State::Fall => AnimSet { fall: t, ..self },
            State::Death => AnimSet { death: t, ..self },
        }
    }

    /// The set after rewinding one state's timeline.
    pub open spec fn spec_reset(self, s: State) -> AnimSet {
        self.spec_set(
            s,
            Timeline { now_idx: 0u8, frame_count: 0u8, ..self.spec_get(s) },
        )
    }

    /// The set after advancing one state's timeline by a frame.
    pub open spec fn spec_play(self, s: State) -> AnimSet {
        self.spec_set(s, self.spec_get(s).spec_played())
    }

    /// Builds the full set, every timeline rewound.
    pub fn new() -> (r: Self)
        ensures
            r.wf(),
            forall|s: State| #![auto] r.spec_get(s).now_idx == 0 && r.spec_get(s).frame_count == 0,
    {
        AnimSet {
            idle: assets::anim_dragon_idle(),
            walk: assets::anim_dragon_walk(),
            jump: assets::anim_dragon_jump(),
            fly: assets::anim_dragon_fly(),
            fall: assets::anim_dragon_fall(),
            death: assets::anim_dragon_death(),
        }
    }

    /// Rewinds the timeline of `s`.
    pub fn reset(&mut self, s: State)
        ensures
            *final(self) == old(self).spec_reset(s),
            old(self).wf() ==> final(self).wf(),
    {
        match s {
            State::Idle => self.idle.reset(),
            State::Walk => self.walk.reset(),
            State::Jump => self.jump.reset(),
            State::Fly => self.fly.reset(),
            State::Fall => self.fall.reset(),
            State::Death => self.death.reset(),
        }
    }

    /// Advances the timeline of `s` by one frame.
    pub fn play(&mut self, s: State)
        requires
            old(self).wf(),
        ensures
            *final(self) == old(self).spec_play(s),
            final(self).wf(),
    {
        match s {
            State::Idle => self.idle.play(),
            State::Walk => self.walk.play(),
            State::Jump => self.jump.play(),
            State::Fly => self.fly.play(),
            State::Fall => self.fall.play(),
            State::Death => self.death.play(),
        }
    }
}

/// The player character.
pub struct Dragon {
    pub anim: AnimSet,
    pub pos: Vec2i,
    pub vel: Vec2i,
    pub force: Vec2i,
    pub hp: u8,
    pub frag_count: u8,
    pub now_state: State,
    pub old_state: State,
    pub move_frames: u8,
    pub jump_frames: u8,
    pub fly_frames: u8,
    pub inv_frames: u8,
    pub death_frames: u8,
    pub is_jump: bool,
    pub is_inv: bool,
    pub is_death: bool,
    pub on_ground: bool,
    pub xflip: bool,
    pub yflip: bool,
    pub rot: bool,
}

impl Dragon {
    /// Internal consistency: animations are well formed, health stays inside
    /// its bounds and zero health is always covered by invincibility or
    /// death, the walk-acceleration counter stays inside its cadence, the
    /// invincibility timer inside its duration, and the death-fall counter
    /// only runs while dead.
    pub open spec fn wf(self) -> bool {
        &&& self.anim.wf()
        &&& self.hp <= MAX_HP
        &&& (self.hp == 0 ==> self.is_inv || self.is_death)
        &&& self.move_frames < 3
        &&& self.inv_frames <= INV_TIME
        &&& (!self.is_death ==> self.death_frames == 0)
    }

    /// A fresh character at the origin: full health, idle, grounded.
    pub fn new() -> (r: Self)
        ensures
            r.wf(),
            r.pos == (Vec2i { x: 0i16, y: 0i16 }),
            r.vel == (Vec2i { x: 0i16, y: 0i16 }),
            r.force == (Vec2i { x: 0i16, y: 0i16 }),
            r.hp == MAX_HP,
            r.frag_count == 0,
            r.now_state == State::Idle,
            r.old_state == State::Idle,
            r.move_frames == 0 && r.jump_frames == 0 && r.fly_frames == 0,
            r.inv_frames == 0 && r.death_frames == 0,
            !r.is_jump && !r.is_inv && !r.is_death,
            r.on_ground,
            !r.xflip && !r.yflip && !r.rot,
    {
        Dragon {
            anim: AnimSet::new(),
            pos: Vec2i::zero(),
            vel: Vec2i::zero(),
            force: Vec2i::zero(),
            hp: MAX_HP,
            frag_count: 0,
            now_state: State::Idle,
            old_state: State::Idle,
            move_frames: 0,
            jump_frames: 0,
            fly_frames: 0,
            inv_frames: 0,
            death_frames: 0,
            is_jump: false,
            is_inv: false,
            is_death: false,
            on_ground: true,
            xflip: false,
            yflip: false,
            rot: false,
        }
    }

    /// Returns the character to a spawn point: full health, no velocity or
    /// force, idle and grounded, every timer cleared, and the previously
    /// active state's animation rewound.
    pub fn reset(&mut self, pos: Vec2i)
        ensures
            *final(self) == spec_dragon_reset(*old(self), pos),
            old(self).wf() ==> final(self).wf(),
    {
        self.pos = pos;
        self.vel = Vec2i::zero();
        self.force = Vec2i::zero();
        self.hp = MAX_HP;
        self.frag_count = 0;
        let s = self.now_state;
        self.anim.reset(s);
        self.now_state = State::Idle;
        self.old_state = State::Idle;
        self.move_frames = 0;
        self.jump_frames = 0;
        self.fly_frames = 0;
        self.inv_frames = 0;
        self.death_frames = 0;
        self.is_jump = false;
        self.is_inv = false;
        self.is_death = false;
        self.on_ground = true;
        self.xflip = false;
        self.yflip = false;
        self.rot = false;
    }
}

/// A character returned to a spawn point: full health, no velocity or force,
/// idle and grounded, every timer cleared, and the previously active state's
/// animation rewound.
pub open spec fn spec_dragon_reset(d: Dragon, pos: Vec2i) -> Dragon {
    Dragon {
        anim: d.anim.spec_reset(d.now_state),
        pos,
        vel: Vec2i { x: 0i16, y: 0i16 },
        force: Vec2i { x: 0i16, y: 0i16 },
        hp: MAX_HP,
        frag_count: 0u8,
        now_state: State::Idle,
        old_state: State::Idle,
        move_frames: 0u8,
        jump_frames: 0u8,
        fly_frames: 0u8,
        inv_frames: 0u8,
        death_frames: 0u8,
        is_jump: false,
        is_inv: false,
        is_death: false,
        on_ground: true,
        xflip: false,
        yflip: false,
        rot: false,
    }
}

// -------------------------------
// Shared transition helpers
// -------------------------------

/// One frame of impulse decay: one unit toward zero, never overshooting.
pub open spec fn spec_decay(f: int) -> int {
    if f < 0 {
        f + 1
    } else if f > 0 {
        f - 1
    } else {
        f
    }
}

/// A frame counter advancing without overrunning its capacity.
pub open spec fn spec_sat_inc(x: u8) -> u8 {
    if x < 255 {
        (x + 1) as u8
    } else {
        x
    }
}

/// The tile is present and of the given kind.
pub open spec fn tile_is(t: Option<Tile>, id: TileId) -> bool {
    t is Some && t->Some_0.id == id
}

/// A tile that blocks movement: walls, needles and bounce pads.
pub open spec fn spec_is_solid(t: Option<Tile>) -> bool {
    t is Some && (t->Some_0.id == TileId::Wall || t->Some_0.id == TileId::SpringVert
        || t->Some_0.id == TileId::SpringHori || t->Some_0.id == TileId::NeedleDown
        || t->Some_0.id == TileId::NeedleLeft || t->Some_0.id == TileId::NeedleRight
        || t->Some_0.id == TileId::NeedleUp)
}

/// Whether a tile blocks movement: walls, needles and bounce pads.
pub fn is_solid_tile(tile: Option<Tile>) -> (r: bool)
    ensures
        r == spec_is_solid(tile),
{
    if let Some(t) = tile {
        matches!(
            t.id,
            TileId::Wall | TileId::SpringVert | TileId::SpringHori | TileId::NeedleDown
                | TileId::NeedleLeft | TileId::NeedleRight | TileId::NeedleUp
        )
    } else {
        false
    }
}

/// One damage check: a hit from a directionally matched needle tile costs
/// one health point and grants invincibility, but only while the character
/// is neither invincible nor dead.
pub open spec fn spec_damage(d: Dragon, t1: Option<Tile>, t2: Option<Tile>, id: TileId) -> Dragon {
    if d.is_death || d.is_inv {
        d
    } else if tile_is(t1, id) || tile_is(t2, id) {
        Dragon { hp: (d.hp - 1) as u8, is_inv: true, ..d }
    } else {
        d
    }
}

// -------------------------------
// Horizontal update
// -------------------------------

/// One frame of horizontal physics: velocity is rebuilt from the held
/// directions (with a speed-up on every third consecutive frame of input),
/// the impulse force decays one unit toward zero, the behavioral state
/// becomes Walk or Idle, and the position advances by velocity plus force.
pub open spec fn spec_update_x(d: Dragon, right: bool, left: bool) -> Dragon {
    let fx = spec_decay(d.force.x as int);
    let vx0 = (if right {
        1int
    } else {
        0int
    }) + (if left {
        -1int
    } else {
        0int
    });
    if vx0 != 0 {
        let mf = d.move_frames + 1;
        let vx = if mf >= 3 {
            if vx0 > 0 {
                vx0 + 1
            } else {
                vx0 - 1
            }
        } else {
            vx0
        };
        Dragon {
            vel: Vec2i { x: vx as i16, y: d.vel.y },
            force: Vec2i { x: fx as i16, y: d.force.y },
            now_state: State::Walk,
            xflip: vx0 < 0,
            move_frames: if mf >= 3 {
                0u8
            } else {
                mf as u8
            },
            pos: Vec2i { x: (d.pos.x + vx + fx) as i16, y: d.pos.y },
            ..d
        }
    } else {
        Dragon {
            vel: Vec2i { x: 0i16, y: d.vel.y },
            force: Vec2i { x: fx as i16, y: d.force.y },
            now_state: State::Idle,
            move_frames: 0u8,
            pos: Vec2i { x: (d.pos.x + fx) as i16, y: d.pos.y },
            ..d
        }
    }
}

/// Resolution of one side's solid-tile clamp for horizontal movement: the
/// clamping column is the side's top tile when solid, else its bottom tile.
pub open spec fn spec_side_tile(top: Option<Tile>, bottom: Option<Tile>) -> Tile {
    if spec_is_solid(top) {
        top->Some_0
    } else {
        bottom->Some_0
    }
}

/// Horizontal collision resolution against the four corner tiles: needle
/// damage, flush clamping against solids, and bounce-pad impulses, left side
/// first, then right.
/// The left half of horizontal collision resolution: damage from
/// right-facing needles, flush clamp to a solid tile's right edge, and a
/// rightward bounce-pad impulse.
pub open spec fn spec_collision_x_left(d: Dragon, tl: Option<Tile>, bl: Option<Tile>) -> Dragon {
    let d1 = spec_damage(d, tl, bl, TileId::NeedleRight);
    let d2 = if spec_is_solid(tl) || spec_is_solid(bl) {
        let tile_right = spec_side_tile(tl, bl).local_x * TILE_SIZE + DRAGON_WIDTH;
        if d1.pos.x < tile_right {
            Dragon {
                pos: Vec2i { x: tile_right as i16, y: d1.pos.y },
                vel: Vec2i { x: 0i16, y: d1.vel.y },
                ..d1
            }
        } else {
            d1
        }
    } else {
        d1
    };
    if tile_is(tl, TileId::SpringHori) || tile_is(bl, TileId::SpringHori) {
        Dragon { force: Vec2i { x: SPRING_FORCE_X, y: d2.force.y }, ..d2 }
    } else {
        d2
    }
}

pub open spec fn spec_collision_x(
    d: Dragon,
    tl: Option<Tile>,
    tr: Option<Tile>,
    bl: Option<Tile>,
    br: Option<Tile>,
) -> Dragon {
    let d3 = spec_collision_x_left(d, tl, bl);
    let d4 = spec_damage(d3, tr, br, TileId::NeedleLeft);
    let d5 = if spec_is_solid(tr) || spec_is_solid(br) {
        let tile_left = spec_side_tile(tr, br).local_x * TILE_SIZE;
        if d4.pos.x + DRAGON_WIDTH > tile_left {
            Dragon {
                pos: Vec2i { x: (tile_left - DRAGON_WIDTH) as i16, y: d4.pos.y },
                vel: Vec2i { x: 0i16, y: d4.vel.y },
                ..d4
            }
        } else {
            d4
        }
    } else {
        d4
    };
    if tile_is(tr, TileId::SpringHori) || tile_is(br, TileId::SpringHori) {
        Dragon { force: Vec2i { x: (-SPRING_FORCE_X) as i16, y: d5.force.y }, ..d5 }
    } else {
        d5
    }
}

// -------------------------------
// Vertical update
// -------------------------------

/// One frame of vertical physics. Gravity always adds one unit of descent.
/// A jump press while grounded sets the fixed upward impulse. Airborne and
/// descending, speed is clamped to the fall limit, and holding the jump
/// button hovers for up to `HOVER_TIME` frames: descent alternates 0 and +1
/// with the hover counter's parity, after which falling resumes regardless.
/// Airborne and ascending, holding the button keeps the ascent going for up
/// to `JUMP_EXT_TIME` frames; releasing it ends the extension at once. The
/// position then advances by velocity plus the decaying force.
pub open spec fn spec_update_y(d: Dragon, z_pressed: bool, z_just: bool) -> Dragon {
    let fy = spec_decay(d.force.y as int);
    let jumped = z_just && d.on_ground;
    let vy1 = if jumped {
        JUMP_POWER as int
    } else {
        d.vel.y + 1
    };
    let is_jump1 = jumped || d.is_jump;
    let on_ground1 = !jumped && d.on_ground;
    if !on_ground1 {
        if vy1 > 0 {
            // Descending.
            let vy2 = if vy1 >= MAX_FALL_SPD_Y {
                MAX_FALL_SPD_Y as int
            } else {
                vy1
            };
            if z_pressed {
                let ff = spec_sat_inc(d.fly_frames);
                if ff <= HOVER_TIME {
                    let vy3: int = if ff % 2 == 1 {
                        0
                    } else {
                        1
                    };
                    Dragon {
                        vel: Vec2i { x: d.vel.x, y: vy3 as i16 },
                        force: Vec2i { x: d.force.x, y: fy as i16 },
                        pos: Vec2i { x: d.pos.x, y: (d.pos.y + vy3 + fy) as i16 },
                        now_state: State::Fly,
                        fly_frames: ff,
                        is_jump: is_jump1,
                        on_ground: on_ground1,
                        ..d
                    }
                } else {
                    Dragon {
                        vel: Vec2i { x: d.vel.x, y: vy2 as i16 },
                        force: Vec2i { x: d.force.x, y: fy as i16 },
                        pos: Vec2i { x: d.pos.x, y: (d.pos.y + vy2 + fy) as i16 },
                        now_state: State::Fall,
                        fly_frames: ff,
                        is_jump: is_jump1,
                        on_ground: on_ground1,
                        ..d
                    }
                }
            } else {
                Dragon {
                    vel: Vec2i { x: d.vel.x, y: vy2 as i16 },
                    force: Vec2i { x: d.force.x, y: fy as i16 },
                    pos: Vec2i { x: d.pos.x, y: (d.pos.y + vy2 + fy) as i16 },
                    now_state: State::Fall,
                    is_jump: is_jump1,
                    on_ground: on_ground1,
                    ..d
                }
            }
        } else {
            // Ascending.
            let jf = if z_pressed {
                spec_sat_inc(d.jump_frames)
            } else {
                0u8
            };
            let is_jump2 = z_pressed && is_jump1;
            let vy2 = if jf <= JUMP_EXT_TIME && is_jump2 {
                vy1 - 1
            } else {
                vy1
            };
            Dragon {
                vel: Vec2i { x: d.vel.x, y: vy2 as i16 },
                force: Vec2i { x: d.force.x, y: fy as i16 },
                pos: Vec2i { x: d.pos.x, y: (d.pos.y + vy2 + fy) as i16 },
                now_state: State::Jump,
                jump_frames: jf,
                is_jump: is_jump2,
                on_ground: on_ground1,
                ..d
            }
        }
    } else {
        Dragon {
            vel: Vec2i { x: d.vel.x, y: vy1 as i16 },
            force: Vec2i { x: d.force.x, y: fy as i16 },
            pos: Vec2i { x: d.pos.x, y: (d.pos.y + vy1 + fy) as i16 },
            is_jump: is_jump1,
            on_ground: on_ground1,
            ..d
        }
    }
}

/// Vertical collision resolution against the four corner tiles. Descent
/// contact: needle damage from below, a vertical bounce pad arms an upward
/// impulse, and a solid tile clamps the character's bottom flush to its top,
/// zeroes descent, clears the jump and hover counters, and grounds the
/// character unless the contact was a bounce pad; with no solid tile below,
/// grounded clears. Ascent contact: needle damage from above, a solid tile
/// clamps the character's top flush to its bottom and zeroes both upward
/// velocity and force, and a vertical bounce pad arms a downward impulse.
pub open spec fn spec_collision_y(
    d: Dragon,
    tl: Option<Tile>,
    tr: Option<Tile>,
    bl: Option<Tile>,
    br: Option<Tile>,
) -> Dragon {
    let d1 = spec_damage(d, bl, br, TileId::NeedleUp);
    let bounced_below = tile_is(bl, TileId::SpringVert) || tile_is(br, TileId::SpringVert);
    let d2 = if bounced_below {
        Dragon { force: Vec2i { x: d1.force.x, y: (-SPRING_FORCE_Y) as i16 }, ..d1 }
    } else {
        d1
    };
    let d3 = if spec_is_solid(bl) || spec_is_solid(br) {
        let tile_top = spec_side_tile(bl, br).local_y * TILE_SIZE;
        if d2.pos.y + DRAGON_HEIGHT >= tile_top {
            Dragon {
                pos: Vec2i { x: d2.pos.x, y: (tile_top - DRAGON_HEIGHT) as i16 },
                vel: Vec2i { x: d2.vel.x, y: 0i16 },
                fly_frames: 0u8,
                jump_frames: 0u8,
                on_ground: !bounced_below,
                ..d2
            }
        } else {
            d2
        }
    } else {
        Dragon { on_ground: false, ..d2 }
    };
    let d4 = spec_damage(d3, tl, tr, TileId::NeedleDown);
    let d5 = if spec_is_solid(tl) || spec_is_solid(tr) {
        let tile_btm = spec_side_tile(tl, tr).local_y * TILE_SIZE + DRAGON_HEIGHT;
        if d4.pos.y < tile_btm {
            Dragon {
                pos: Vec2i { x: d4.pos.x, y: tile_btm as i16 },
                vel: Vec2i { x: d4.vel.x, y: 0i16 },
                force: Vec2i { x: d4.force.x, y: 0i16 },
                ..d4
            }
        } else {
            d4
        }
    } else {
        d4
    };
    if tile_is(tl, TileId::SpringVert) || tile_is(tr, TileId::SpringVert) {
        Dragon { force: Vec2i { x: d5.force.x, y: SPRING_FORCE_Y }, ..d5 }
    } else {
        d5
    }
}

// -------------------------------
// Interactive tiles, frame update, death
// -------------------------------

/// The gameplay command one touched tile produces: keys and fragments are
/// collected (carrying their grid coordinates), an opened gate clears the
/// stage, everything else produces nothing.
pub open spec fn spec_tile_cmd(t: Option<Tile>) -> Option<InteractiveCmd> {
    match t {
        Some(tile) => match tile.id {
            TileId::Key => Some(InteractiveCmd::GetKey(tile.local_x, tile.local_y)),
            TileId::Fragment => Some(InteractiveCmd::GetFragment(tile.local_x, tile.local_y)),
            TileId::GoalOpened => Some(InteractiveCmd::ClearStage),
            _ => None,
        },
        None => None,
    }
}

/// Computes the interaction command of one touched tile.
pub fn get_tile_cmd(t: Option<Tile>) -> (r: Option<InteractiveCmd>)
    ensures
        r == spec_tile_cmd(t),
{
    if let Some(tile) = t {
        match tile.id {
            TileId::Key => Some(InteractiveCmd::GetKey(tile.local_x, tile.local_y)),
            TileId::Fragment => Some(InteractiveCmd::GetFragment(tile.local_x, tile.local_y)),
            TileId::GoalOpened => Some(InteractiveCmd::ClearStage),
            _ => None,
        }
    } else {
        None
    }
}

/// Zero health triggers death exactly once: the death flag is set, the
/// behavioral state is forced to Death, and a single upward knock is applied.
/// An already dead character is left alone.
pub open spec fn spec_check_death(d: Dragon) -> Dragon {
    if d.hp == 0 && !d.is_death {
        Dragon {
            is_death: true,
            now_state: State::Death,
            force: Vec2i { x: d.force.x, y: (d.force.y - DEATH_KNOCK_Y) as i16 },
            ..d
        }
    } else {
        d
    }
}

/// One frame of cross-cutting state upkeep: the invincibility timer runs and
/// auto-expires after its fixed duration; on a state switch the previous
/// state's animation rewinds before the new state's timeline advances; then
/// zero health triggers death.
pub open spec fn spec_update(d: Dragon) -> Dragon {
    let inv_f = if d.is_inv {
        if d.inv_frames + 1 > INV_TIME {
            0
    } else {
            d.inv_frames + 1
        }
    } else {
        d.inv_frames as int
    };
    let inv_on = if d.is_inv {
        d.inv_frames + 1 <= INV_TIME
    } else {
        d.is_inv
    };
    let anim1 = if d.now_state != d.old_state {
        d.anim.spec_reset(d.old_state)
    } else {
        d.anim
    };
    let anim2 = anim1.spec_play(d.now_state);
    spec_check_death(
        Dragon {
            inv_frames: inv_f as u8,
            is_inv: inv_on,
            anim: anim2,
            old_state: d.now_state,
            ..d
        },
    )
}

/// One frame of the unguided death fall: the death counter runs, gravity
/// accelerates descent on a slow cadence, the impulse force decays toward
/// zero except that a downward force amplifies, the death animation plays,
/// and the position advances with the descent clamped to the fall limit —
/// with no tile collision at all.
pub open spec fn spec_update_death(d: Dragon) -> Dragon {
    let df = spec_sat_inc(d.death_frames);
    let fx = spec_decay(d.force.x as int);
    let fy: int = if d.force.y != 0 {
        d.force.y + 1
    } else {
        0
    };
    let vy: int = if df % 4 >= 2 {
        d.vel.y + 1
    } else {
        d.vel.y as int
    };
    let dx = d.vel.x + fx;
    let dy0 = vy + fy;
    let dy = if dy0 > MAX_FALL_SPD_Y {
        MAX_FALL_SPD_Y as int
    } else {
        dy0
    };
    Dragon {
        death_frames: df,
        force: Vec2i { x: fx as i16, y: fy as i16 },
        vel: Vec2i { x: d.vel.x, y: vy as i16 },
        anim: d.anim.spec_play(State::Death),
        pos: Vec2i { x: (d.pos.x + dx) as i16, y: (d.pos.y + dy) as i16 },
        ..d
    }
}

impl Dragon {
    /// One frame of horizontal physics, from the held direction buttons.
    #[verifier::rlimit(100)]
    #[verifier::spinoff_prover]
    pub fn update_x(&mut self, input: &ButtonHandler)
        requires
            old(self).move_frames < 3,
            -POS_LIMIT <= old(self).pos.x <= POS_LIMIT,
            -1000 <= old(self).force.x <= 1000,
        ensures
            *final(self) == spec_update_x(
                *old(self),
                input.spec_time(BTN_RIGHT) >= 1,
                input.spec_time(BTN_LEFT) >= 1,
            ),
    {
        self.vel.x = 0;
        if self.force.x < 0 {
            self.force.x = self.force.x + 1;
        } else if self.force.x > 0 {
            self.force.x = self.force.x - 1;
        }
        if is_pressed(input, BTN_RIGHT) {
            self.vel.x = self.vel.x + 1;
        }
        if is_pressed(input, BTN_LEFT) {
            self.vel.x = self.vel.x - 1;
        }
        if self.vel.x != 0 {
            self.now_state = State::Walk;
            self.xflip = self.vel.x < 0;
            self.move_frames = self.move_frames + 1;
            if self.move_frames >= 3 {
                if self.vel.x > 0 {
                    self.vel.x = self.vel.x + 1;
                } else {
                    self.vel.x = self.vel.x - 1;
                }
                self.move_frames = 0;
            }
        } else {
            self.move_frames = 0;
            self.now_state = State::Idle;
        }
        self.pos.x = self.pos.x + self.vel.x + self.force.x;
    }

    /// One frame of vertical physics, from the jump button.
    #[verifier::rlimit(100)]
    #[verifier::spinoff_prover]
    pub fn update_y(&mut self, input: &ButtonHandler)
        requires
            -POS_LIMIT <= old(self).pos.y <= POS_LIMIT,
            -1000 <= old(self).vel.y <= 1000,
            -1000 <= old(self).force.y <= 1000,
        ensures
            *final(self) == spec_update_y(
                *old(self),
                input.spec_time(BTN_Z) >= 1,
                input.spec_time(BTN_Z) == 1,
            ),
    {
        self.vel.y = self.vel.y + 1;
        if self.force.y < 0 {
            self.force.y = self.force.y + 1;
        } else if self.force.y > 0 {
            self.force.y = self.force.y - 1;
        }
        if is_just_pressed(input, BTN_Z) && self.on_ground {
            self.vel.y = JUMP_POWER;
            self.is_jump = true;
            self.on_ground = false;
        }
        if !self.on_ground {
            if self.vel.y > 0 {
                // Descending.
                if self.vel.y >= MAX_FALL_SPD_Y {
                    self.vel.y = MAX_FALL_SPD_Y;
                }
                if is_pressed(input, BTN_Z) {
                    if self.fly_frames < 255 {
                        self.fly_frames = self.fly_frames + 1;
                    }
                    if self.fly_frames <= HOVER_TIME {
                        self.now_state = State::Fly;
                        if self.fly_frames % 2 == 1 {
                            self.vel.y = 0;
                        } else {
                            self.vel.y = 1;
                        }
                    } else {
                        self.now_state = State::Fall;
                    }
                } else {
                    self.now_state = State::Fall;
                }
            } else {
                // Ascending.
                self.now_state = State::Jump;
                if is_pressed(input, BTN_Z) {
                    if self.jump_frames < 255 {
                        self.jump_frames = self.jump_frames + 1;
                    }
                } else {
                    self.jump_frames = 0;
                    self.is_jump = false;
                }
                if self.jump_frames <= JUMP_EXT_TIME && self.is_jump {
                    self.vel.y = self.vel.y - 1;
                }
            }
        }
        self.pos.y = self.pos.y + self.vel.y + self.force.y;
    }

    /// Resolves vertical collision against the four corner tiles.
    #[verifier::rlimit(100)]
    #[verifier::spinoff_prover]
    pub fn check_collision_y(
        &mut self,
        tl: Option<Tile>,
        tr: Option<Tile>,
        bl: Option<Tile>,
        br: Option<Tile>,
    )
        requires
            old(self).hp == 0 ==> old(self).is_inv || old(self).is_death,
            old(self).pos.y <= 32000,
        ensures
            *final(self) == spec_collision_y(*old(self), tl, tr, bl, br),
    {
        // Descending.
        self.check_damage(bl, br, TileId::NeedleUp);
        let mut bounced = false;
        if let Some(t) = bl {
            if t.id == TileId::SpringVert {
                bounced = true;
            }
        }
        if let Some(t) = br {
            if t.id == TileId::SpringVert {
                bounced = true;
            }
        }
        if bounced {
            self.force.y = -SPRING_FORCE_Y;
        }
        if is_solid_tile(bl) || is_solid_tile(br) {
            let tile = if is_solid_tile(bl) {
                bl.unwrap()
            } else {
                br.unwrap()
            };
            let tile_top = tile.get_global_pos_y();
            let dragon_btm = self.pos.y + DRAGON_HEIGHT;
            if dragon_btm >= tile_top {
                // Landing: bounce pads never count as ground.
                self.pos.y = tile_top - DRAGON_HEIGHT;
                self.vel.y = 0;
                self.fly_frames = 0;
                self.jump_frames = 0;
                self.on_ground = !bounced;
            }
        } else {
            self.on_ground = false;
        }
        // Ascending.
        self.check_damage(tl, tr, TileId::NeedleDown);
        if is_solid_tile(tl) || is_solid_tile(tr) {
            let tile = if is_solid_tile(tl) {
                tl.unwrap()
            } else {
                tr.unwrap()
            };
            let tile_btm = tile.get_global_pos_y() + DRAGON_HEIGHT;
            let dragon_top = self.pos.y;
            if dragon_top < tile_btm {
                self.pos.y = tile_btm;
                self.vel.y = 0;
                self.force.y = 0;
            }
        }
        let mut bounced = false;
        if let Some(t) = tl {
            if t.id == TileId::SpringVert {
                bounced = true;
            }
        }
        if let Some(t) = tr {
            if t.id == TileId::SpringVert {
                bounced = true;
            }
        }
        if bounced {
            self.force.y = SPRING_FORCE_Y;
        }
    }

    /// Resolves horizontal collision against the four corner tiles. The left
    /// side ({top-left, bottom-left}) is checked first, then the right side
    /// ({top-right, bottom-right}): each side applies needle damage for the
    /// needle kind facing it, clamps the character flush against a solid
    /// tile's edge (zeroing horizontal velocity), and arms a horizontal
    /// bounce-pad impulse away from that side.
    #[verifier::rlimit(100)]
    #[verifier::spinoff_prover]
    pub fn check_collision_x(
        &mut self,
        tl: Option<Tile>,
        tr: Option<Tile>,
        bl: Option<Tile>,
        br: Option<Tile>,
    )
        requires
            old(self).hp == 0 ==> old(self).is_inv || old(self).is_death,
            old(self).pos.x <= 32000,
        ensures
            *final(self) == spec_collision_x(*old(self), tl, tr, bl, br),
    {
        let ghost d1 = spec_damage(*old(self), tl, bl, TileId::NeedleRight);
        // Left side.
        self.check_damage(tl, bl, TileId::NeedleRight);
        proof {
            assert(*self == d1);
        }
        if is_solid_tile(tl) || is_solid_tile(bl) {
            let tile = if is_solid_tile(tl) {
                tl.unwrap()
            } else {
                bl.unwrap()
            };
            let tile_right = tile.get_global_pos_x() + DRAGON_WIDTH;
            if self.pos.x < tile_right {
                self.pos.x = tile_right;
                self.vel.x = 0;
            }
        }
        let mut bounced = false;
        if let Some(t) = tl {
            if t.id == TileId::SpringHori {
                bounced = true;
            }
        }
        if let Some(t) = bl {
            if t.id == TileId::SpringHori {
                bounced = true;
            }
        }
        if bounced {
            self.force.x = SPRING_FORCE_X;
        }
        proof {
            assert(*self == spec_collision_x_left(*old(self), tl, bl));
        }
        let ghost d3 = spec_collision_x_left(*old(self), tl, bl);
        let ghost d4 = spec_damage(d3, tr, br, TileId::NeedleLeft);
        // Right side.
        self.check_damage(tr, br, TileId::NeedleLeft);
        proof {
            assert(*self == d4);
        }
        if is_solid_tile(tr) || is_solid_tile(br) {
            let tile = if is_solid_tile(tr) {
                tr.unwrap()
            } else {
                br.unwrap()
            };
            let tile_left = tile.get_global_pos_x();
            if self.pos.x + DRAGON_WIDTH > tile_left {
                self.pos.x = tile_left - DRAGON_WIDTH;
                self.vel.x = 0;
            }
        }
        let mut bounced = false;
        if let Some(t) = tr {
            if t.id == TileId::SpringHori {
                bounced = true;
            }
        }
        if let Some(t) = br {
            if t.id == TileId::SpringHori {
                bounced = true;
            }
        }
        if bounced {
            self.force.x = -SPRING_FORCE_X;
        }
    }

    /// Maps the four corner tiles to their interaction commands: up to four
    /// independent commands per frame, duplicates possible when several
    /// corners touch one tile.
    pub fn check_interactive(
        &mut self,
        tl: Option<Tile>,
        tr: Option<Tile>,
        bl: Option<Tile>,
        br: Option<Tile>,
    ) -> (r: [Option<InteractiveCmd>; 4])
        ensures
            *final(self) == *old(self),
            r[0] == spec_tile_cmd(tl),
            r[1] == spec_tile_cmd(tr),
            r[2] == spec_tile_cmd(bl),
            r[3] == spec_tile_cmd(br),
    {
        [get_tile_cmd(tl), get_tile_cmd(tr), get_tile_cmd(bl), get_tile_cmd(br)]
    }

    /// One frame of cross-cutting state upkeep: invincibility timing and
    /// expiry, animation switch-and-advance, then the death trigger.
    #[verifier::rlimit(100)]
    #[verifier::spinoff_prover]
    pub fn update(&mut self)
        requires
            old(self).wf(),
            -1000 <= old(self).force.y,
        ensures
            *final(self) == spec_update(*old(self)),
            final(self).wf(),
            // Switching behavioral states rewinds the previous state's
            // animation before the new state's timeline advances.
            old(self).now_state != old(self).old_state && old(self).now_state != old(
                self,
            ).old_state ==> final(self).anim.spec_get(old(self).old_state).now_idx == 0,
    {
        if self.is_inv {
            self.inv_frames = self.inv_frames + 1;
            if self.inv_frames > INV_TIME {
                self.inv_frames = 0;
                self.is_inv = false;
            }
        }
        proof {
            assert(self.inv_frames == spec_update(*old(self)).inv_frames);
        }
        if self.now_state != self.old_state {
            let s = self.old_state;
            self.anim.reset(s);
            proof {
                assert(self.anim == old(self).anim.spec_reset(old(self).old_state));
            }
        }
        let now = self.now_state;
        self.anim.play(now);
        self.old_state = now;
        self.check_death();
    }

    /// Zero health triggers death exactly once: sets the sticky death flag,
    /// forces the Death state, and applies a single upward knock.
    fn check_death(&mut self)
        requires
            -1000 <= old(self).force.y,
        ensures
            *final(self) == spec_check_death(*old(self)),
    {
        if self.hp == 0 && !self.is_death {
            self.is_death = true;
            self.now_state = State::Death;
            self.force.y = self.force.y - DEATH_KNOCK_Y;
        }
    }

    /// One frame of the unguided death fall: no input, no tile collision.
    #[verifier::rlimit(100)]
    #[verifier::spinoff_prover]
    pub fn update_death(&mut self)
        requires
            old(self).anim.wf(),
            -POS_LIMIT <= old(self).pos.x <= POS_LIMIT,
            -POS_LIMIT <= old(self).pos.y <= POS_LIMIT,
            -1000 <= old(self).vel.x <= 1000,
            -1000 <= old(self).vel.y <= 1000,
            -1000 <= old(self).force.x <= 1000,
            -1000 <= old(self).force.y <= 1000,
        ensures
            *final(self) == spec_update_death(*old(self)),
            final(self).anim.wf(),
    {
        if self.death_frames < 255 {
            self.death_frames = self.death_frames + 1;
        }
        if self.force.x < 0 {
            self.force.x = self.force.x + 1;
        } else if self.force.x > 0 {
            self.force.x = self.force.x - 1;
        }
        if self.force.y != 0 {
            self.force.y = self.force.y + 1;
        }
        if self.death_frames % 4 >= 2 {
            self.vel.y = self.vel.y + 1;
        }
        self.anim.play(State::Death);
        let dx = self.vel.x + self.force.x;
        let mut dy = self.vel.y + self.force.y;
        if dy > MAX_FALL_SPD_Y {
            dy = MAX_FALL_SPD_Y;
        }
        self.pos.x = self.pos.x + dx;
        self.pos.y = self.pos.y + dy;
    }

    /// Draws the active state's current animation frame at the camera
    /// offset, flipped as the character faces. While invincible, every other
    /// pair of frames is skipped, blinking the sprite.
    pub fn draw(&self, renderer: &mut Renderer, offset_x: i16, offset_y: i16)
        requires
            self.anim.wf(),
        ensures
            self.is_inv && self.inv_frames % 4 >= 2 ==> final(renderer).cmds@ == old(
                renderer,
            ).cmds@,
            !(self.is_inv && self.inv_frames % 4 >= 2) ==> final(renderer).cmds@ == old(
                renderer,
            ).cmds@.push(
                {
                    let t = self.anim.spec_get(self.now_state);
                    t.images@[t.now_idx as int].spec_blit_cmd(
                        (self.pos.x + offset_x) as i32,
                        (self.pos.y + offset_y) as i32,
                        spec_orient_flags(self.xflip, self.yflip, self.rot),
                    )
                },
            ),
    {
        if self.is_inv && self.inv_frames % 4 >= 2 {
            return ;
        }
        let flag = orient_flags(self.xflip, self.yflip, self.rot);
        let x = self.pos.x as i32 + offset_x as i32;
        let y = self.pos.y as i32 + offset_y as i32;
        match self.now_state {
            State::Idle => self.anim.idle.draw(renderer, x, y, flag),
            State::Walk => self.anim.walk.draw(renderer, x, y, flag),
            State::Jump => self.anim.jump.draw(renderer, x, y, flag),
            State::Fly => self.anim.fly.draw(renderer, x, y, flag),
            State::Fall => self.anim.fall.draw(renderer, x, y, flag),
            State::Death => self.anim.death.draw(renderer, x, y, flag),
        }
    }

    /// Draws the death animation's current frame while dead; draws nothing
    /// otherwise.
    pub fn draw_death(&self, renderer: &mut Renderer, offset_x: i16, offset_y: i16)
        requires
            self.anim.wf(),
        ensures
            self.is_death ==> final(renderer).cmds@ == old(renderer).cmds@.push(
                self.anim.death.images@[self.anim.death.now_idx as int].spec_blit_cmd(
                    (self.pos.x + offset_x) as i32,
                    (self.pos.y + offset_y) as i32,
                    0u32,
                ),
            ),
            !self.is_death ==> final(renderer).cmds@ == old(renderer).cmds@,
    {
        if self.is_death {
            let x = self.pos.x as i32 + offset_x as i32;
            let y = self.pos.y as i32 + offset_y as i32;
            self.anim.death.draw(renderer, x, y, 0);
        }
    }

    /// A hit from a directionally matched needle tile costs one health point
    /// and grants invincibility, but only while neither invincible nor dead.
    fn check_damage(&mut self, tile1: Option<Tile>, tile2: Option<Tile>, id: TileId)
        requires
            old(self).hp == 0 ==> old(self).is_inv || old(self).is_death,
        ensures
            *final(self) == spec_damage(*old(self), tile1, tile2, id),
    {
        if self.is_death || self.is_inv {
            return ;
        }
        let mut damaged = false;
        if let Some(t) = tile1 {
            if t.id == id {
                damaged = true;
            }
        }
        if let Some(t) = tile2 {
            if t.id == id {
                damaged = true;
            }
        }
        if damaged {
            self.hp = self.hp - 1;
            self.is_inv = true;
        }
    }
}

// -------------------------------
// Laws
// -------------------------------

/// Exactly one behavioral state is active at a time (the state is a single
/// enum value), and on a state switch the frame's upkeep rewinds the
/// previous state's animation to its first frame before the new state's
/// timeline advances.
pub proof fn lemma_state_switch_resets(d: Dragon)
    requires
        d.now_state != d.old_state,
    ensures
        spec_update(d).anim.spec_get(d.old_state).now_idx == 0,
        spec_update(d).anim.spec_get(d.old_state).frame_count == 0,
{
}

/// Health never decreases while invincibility is active or while dead: no
/// collision pass, upkeep frame or death fall lowers it.
pub proof fn lemma_health_protected(
    d: Dragon,
    tl: Option<Tile>,
    tr: Option<Tile>,
    bl: Option<Tile>,
    br: Option<Tile>,
)
    requires
        d.is_inv || d.is_death,
    ensures
        spec_collision_x(d, tl, tr, bl, br).hp == d.hp,
        spec_collision_y(d, tl, tr, bl, br).hp == d.hp,
        spec_update(d).hp == d.hp,
        spec_update_death(d).hp == d.hp,
{
}

/// Invincibility always auto-expires: each upkeep frame advances its timer,
/// and the first frame past the fixed duration clears both flag and timer.
pub proof fn lemma_inv_expires(d: Dragon)
    requires
        d.is_inv,
        d.inv_frames <= INV_TIME,
    ensures
        spec_update(d).is_inv == (d.inv_frames + 1 <= INV_TIME),
        spec_update(d).is_inv ==> spec_update(d).inv_frames == d.inv_frames + 1,
        !spec_update(d).is_inv ==> spec_update(d).inv_frames == 0,
{
}

/// Horizontal wall collision leaves the character's bounding edge exactly
/// flush with the colliding tile's edge — no overlap, no gap — whenever a
/// solid tile is detected on the motion side and the box overlaps it.
pub proof fn lemma_flush_clamp_x(
    d: Dragon,
    tl: Option<Tile>,
    tr: Option<Tile>,
    bl: Option<Tile>,
    br: Option<Tile>,
)
    ensures
        (spec_is_solid(tl) || spec_is_solid(bl)) && spec_damage(
            d,
            tl,
            bl,
            TileId::NeedleRight,
        ).pos.x < spec_side_tile(tl, bl).local_x * TILE_SIZE + DRAGON_WIDTH ==> {
            &&& spec_collision_x_left(d, tl, bl).pos.x == spec_side_tile(tl, bl).local_x
                * TILE_SIZE + DRAGON_WIDTH
            &&& spec_collision_x_left(d, tl, bl).vel.x == 0
        },
        (spec_is_solid(tr) || spec_is_solid(br)) && spec_collision_x_left(d, tl, bl).pos.x
            + DRAGON_WIDTH > spec_side_tile(tr, br).local_x * TILE_SIZE ==> {
            &&& spec_collision_x(d, tl, tr, bl, br).pos.x == spec_side_tile(tr, br).local_x
                * TILE_SIZE - DRAGON_WIDTH
            &&& spec_collision_x(d, tl, tr, bl, br).vel.x == 0
        },
{
}

/// Vertical descent collision zeroes fall velocity and grounds the
/// character, its bottom flush with the tile's top — except when the contact
/// is a vertical bounce pad, which leaves the character airborne with an
/// upward impulse armed instead.
pub proof fn lemma_descent_lands(
    d: Dragon,
    tl: Option<Tile>,
    tr: Option<Tile>,
    bl: Option<Tile>,
    br: Option<Tile>,
)
    requires
        spec_is_solid(bl) || spec_is_solid(br),
        spec_damage(d, bl, br, TileId::NeedleUp).pos.y + DRAGON_HEIGHT >= spec_side_tile(
            bl,
            br,
        ).local_y * TILE_SIZE,
        !spec_is_solid(tl) && !spec_is_solid(tr),
        !tile_is(tl, TileId::SpringVert) && !tile_is(tr, TileId::SpringVert),
    ensures
        spec_collision_y(d, tl, tr, bl, br).vel.y == 0,
        spec_collision_y(d, tl, tr, bl, br).pos.y == spec_side_tile(bl, br).local_y * TILE_SIZE
            - DRAGON_HEIGHT,
        spec_collision_y(d, tl, tr, bl, br).on_ground == !(tile_is(bl, TileId::SpringVert)
            || tile_is(br, TileId::SpringVert)),
        tile_is(bl, TileId::SpringVert) || tile_is(br, TileId::SpringVert) ==> spec_collision_y(
            d,
            tl,
            tr,
            bl,
            br,
        ).force.y == -SPRING_FORCE_Y,
{
}

/// Death triggers exactly once, on the transition of health to zero: the
/// trigger sets the sticky death flag and applies its single upward knock,
/// and an already dead character is never re-triggered.
pub proof fn lemma_death_triggers_once(d: Dragon)
    requires
        -32000 <= d.force.y,
    ensures
        d.hp == 0 && !d.is_death ==> spec_check_death(d).is_death && spec_check_death(d).force.y
            == d.force.y - DEATH_KNOCK_Y,
        d.is_death ==> spec_check_death(d) == d,
        spec_update(d).is_death == (d.is_death || d.hp == 0),
{
}

/// Hovering: while airborne and descending with the jump button held, each
/// frame inside the hover window sets the descent by the hover counter's
/// parity — zero on odd counts, one on even — and the first frame past the
/// window falls normally even with the button still held.
pub proof fn lemma_hover_parity(d: Dragon, z_just: bool)
    requires
        !d.on_ground,
        d.vel.y + 1 > 0,
        d.vel.y < 32000,
        d.fly_frames < 255,
    ensures
        d.fly_frames + 1 <= HOVER_TIME ==> {
            &&& spec_update_y(d, true, z_just).vel.y == (if (d.fly_frames + 1) % 2 == 1 {
                0int
            } else {
                1int
            })
            &&& spec_update_y(d, true, z_just).now_state == State::Fly
        },
        d.fly_frames + 1 > HOVER_TIME ==> {
            &&& spec_update_y(d, true, z_just).now_state == State::Fall
            &&& spec_update_y(d, true, z_just).vel.y == (if d.vel.y + 1 >= MAX_FALL_SPD_Y {
                MAX_FALL_SPD_Y as int
            } else {
                d.vel.y + 1
            })
        },
        spec_update_y(d, true, z_just).fly_frames == d.fly_frames + 1,
{
}

} // verus!
