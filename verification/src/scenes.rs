//! Scenes and the per-frame order of operations: the title screen, the main
//! play scene (stage intro, normal play, death sequence, stage transition),
//! and the two endings, under one scene handler.

use vstd::prelude::*;
use crate::utils::{ButtonHandler, Clock, DrawCmd, Renderer, Vec2i};
use crate::utils::{is_just_pressed, set_drawcolor, set_drawcolor_idx, BTN_Z};
use crate::dragon::{
    spec_is_solid, tile_is, SPRING_FORCE_Y,
    spec_collision_x, spec_collision_y, spec_dragon_reset, spec_tile_cmd, spec_update,
    spec_update_death, spec_update_x, spec_update_y, Dragon, State, DRAGON_HEIGHT, DRAGON_WIDTH,
    MAX_HP, POS_LIMIT,
};
use crate::stage::{
    lemma_tile_at_pixel_coords,
    spec_collect_all, spec_stage_start, spec_stage_tiles, spec_tile_at_pixel, InteractiveCmd,
    StageHandler, Tile, FRAG_TARGET, NUM_STAGES,
};
use crate::stage::spec_frag_budget_from;

verus! {

/// Which scene is active.
#[derive(Copy, Clone, PartialEq, Eq, Structural, Debug)]
pub enum SceneId {
    Title,
    Main,
    EndingFalse,
    EndingTrue,
}

/// What a scene asks of the handler after a frame: stay, or change scene.
#[derive(Copy, Clone, PartialEq, Eq, Structural, Debug)]
pub enum SceneCmd {
    Stay,
    Change(SceneId),
}

/// How many frames the stage name is shown at a stage start.
pub const DISP_STAGE_NAME_FRAME: u16 = 90;

/// How many frames the death sequence runs before the stage reloads.
pub const DEATH_SEQ_FRAME: u16 = 90;

// -------------------------------
// Title
// -------------------------------

/// The title screen: waits for the confirm button.
pub struct SceneTitle {
    pub is_start: bool,
}

impl SceneTitle {
    pub fn new() -> (r: Self)
        ensures
            !r.is_start,
    {
        SceneTitle { is_start: false }
    }

    pub fn start(&mut self)
        ensures
            *final(self) == *old(self),
    {
    }

    /// A confirm press arms the scene change to the main scene.
    pub fn update(&mut self, input: &ButtonHandler)
        ensures
            final(self).is_start == (old(self).is_start || input.spec_time(BTN_Z) == 1),
    {
        if is_just_pressed(input, BTN_Z) {
            self.is_start = true;
        }
    }

    pub fn draw(&mut self, renderer: &mut Renderer)
        ensures
            *final(self) == *old(self),
            final(renderer).cmds@ == old(renderer).cmds@.push(
                DrawCmd::Text { colors: 0x04u16, text: "blood dragon", x: 28, y: 60 },
            ).push(DrawCmd::Text { colors: 0x04u16, text: "press z to start", x: 15, y: 120 }),
    {
        set_drawcolor_idx(renderer, 0x04);
        renderer.text("blood dragon", 28, 60);
        renderer.text("press z to start", 15, 120);
    }

    pub fn get_scene_cmd(&self) -> (r: SceneCmd)
        ensures
            r == if self.is_start {
                SceneCmd::Change(SceneId::Main)
            } else {
                SceneCmd::Stay
            },
    {
        if self.is_start {
            SceneCmd::Change(SceneId::Main)
        } else {
            SceneCmd::Stay
        }
    }
}

// -------------------------------
// Endings
// -------------------------------

/// The ending reached with fragments missing.
pub struct SceneFalseEnding {}

impl SceneFalseEnding {
    pub fn new() -> (r: Self) {
        SceneFalseEnding {  }
    }

    pub fn start(&mut self)
        ensures
            *final(self) == *old(self),
    {
    }

    pub fn update(&mut self)
        ensures
            *final(self) == *old(self),
    {
    }

    pub fn draw(&mut self, renderer: &mut Renderer)
        ensures
            *final(self) == *old(self),
            final(renderer).cmds@ == old(renderer).cmds@.push(
                DrawCmd::Text { colors: 0x04u16, text: "the dragon rests", x: 16, y: 76 },
            ),
    {
        set_drawcolor_idx(renderer, 0x04);
        renderer.text("the dragon rests", 16, 76);
    }

    pub fn get_scene_cmd(&self) -> (r: SceneCmd)
        ensures
            r == SceneCmd::Stay,
    {
        SceneCmd::Stay
    }
}

/// The ending reached with every fragment collected.
pub struct SceneTrueEnding {}

impl SceneTrueEnding {
    pub fn new() -> (r: Self) {
        SceneTrueEnding {  }
    }

    pub fn start(&mut self)
        ensures
            *final(self) == *old(self),
    {
    }

    pub fn update(&mut self)
        ensures
            *final(self) == *old(self),
    {
    }

    pub fn draw(&mut self, renderer: &mut Renderer)
        ensures
            *final(self) == *old(self),
            final(renderer).cmds@ == old(renderer).cmds@.push(
                DrawCmd::Text { colors: 0x04u16, text: "the dragon is whole", x: 4, y: 76 },
            ),
    {
        set_drawcolor_idx(renderer, 0x04);
        renderer.text("the dragon is whole", 4, 76);
    }

    pub fn get_scene_cmd(&self) -> (r: SceneCmd)
        ensures
            r == SceneCmd::Stay,
    {
        SceneCmd::Stay
    }
}

// -------------------------------
// Main scene
// -------------------------------

/// The play scene: one character and one stage, the per-frame pipeline, the
/// stage-intro and death timers, the fragment total, and the camera state.
pub struct SceneMain {
    pub dragon: Dragon,
    pub stage: StageHandler,
    pub total_frag_count: u8,
    pub disp_stage_name_clock: Clock,
    pub dragon_death_clock: Clock,
    pub fix_cam_pos: Vec2i,
    pub is_start_stage: bool,
    pub is_clear_stage: bool,
    pub is_clear_all_stage: bool,
    pub is_fix_cam: bool,
}

/// The character's position leaves room for one frame of movement inside the
/// machine's integer range.
pub open spec fn spec_pos_ok(d: Dragon) -> bool {
    &&& -POS_LIMIT <= d.pos.x <= POS_LIMIT
    &&& -POS_LIMIT <= d.pos.y <= POS_LIMIT
}

impl SceneMain {
    /// Scene bookkeeping stays consistent: character and stage are well
    /// formed; the timers run on their fixed durations; the fragment total
    /// never exceeds what the remaining stages leave obtainable; alive, the
    /// character's speeds sit in the ranges one frame of the pipeline
    /// re-establishes; dead, the death counters track the death clock.
    pub open spec fn wf(self) -> bool {
        &&& wf_view(self.mview())
        &&& self.disp_stage_name_clock.wf()
        &&& self.disp_stage_name_clock.spec_duration() == DISP_STAGE_NAME_FRAME
        &&& self.dragon_death_clock.wf()
        &&& self.dragon_death_clock.spec_duration() == DEATH_SEQ_FRAME
    }

    /// A fresh play scene on the first stage.
    pub fn new() -> (r: Self)
        ensures
            r.wf(),
            r.dragon.hp == MAX_HP,
            !r.dragon.is_death,
            r.stage.stage_idx == 0,
            r.stage.fragment_count == 0,
            r.stage.tiles@ == spec_stage_tiles(0),
            r.total_frag_count == 0,
            r.is_start_stage,
            !r.is_clear_stage && !r.is_clear_all_stage && !r.is_fix_cam,
            r.disp_stage_name_clock.spec_count() == 0,
            r.dragon_death_clock.spec_count() == 0,
            r.dragon.pos == (Vec2i { x: 0i16, y: 0i16 }),
            r.fix_cam_pos == (Vec2i { x: 0i16, y: 0i16 }),
    {
        proof {
            crate::stage::lemma_budgets();
        }
        SceneMain {
            dragon: Dragon::new(),
            stage: StageHandler::new(),
            total_frag_count: 0,
            disp_stage_name_clock: Clock::new(DISP_STAGE_NAME_FRAME),
            dragon_death_clock: Clock::new(DEATH_SEQ_FRAME),
            fix_cam_pos: Vec2i::zero(),
            is_start_stage: true,
            is_clear_stage: false,
            is_clear_all_stage: false,
            is_fix_cam: false,
        }
    }

    /// Puts the character at the stage's start position.
    pub fn start(&mut self)
        ensures
            *final(self) == (SceneMain {
                dragon: Dragon { pos: old(self).stage.start_pos, ..old(self).dragon },
                ..*old(self)
            }),
            old(self).wf() ==> final(self).wf(),
    {
        self.dragon.pos = self.stage.get_start_pos();
    }

    /// True when the character's position leaves room for one frame of
    /// movement inside the machine's integer range.
    fn pos_ok(&self) -> (r: bool)
        ensures
            r == spec_pos_ok(self.dragon),
    {
        -POS_LIMIT <= self.dragon.pos.x && self.dragon.pos.x <= POS_LIMIT && -POS_LIMIT
            <= self.dragon.pos.y && self.dragon.pos.y <= POS_LIMIT
    }

    /// One frame of the play scene: stage intro, death sequence, or normal
    /// play with the stage-clear transition.
    #[verifier::rlimit(100)]
    #[verifier::spinoff_prover]
    pub fn update(&mut self, input: &ButtonHandler)
        requires
            old(self).wf(),
        ensures
            final(self).mview() == spec_main_update(
                old(self).mview(),
                input.spec_time(crate::utils::BTN_RIGHT) >= 1,
                input.spec_time(crate::utils::BTN_LEFT) >= 1,
                input.spec_time(BTN_Z) >= 1,
                input.spec_time(BTN_Z) == 1,
            ),
            final(self).wf(),
    {
        // The run is complete; the scene only waits to be replaced.
        if self.is_clear_all_stage {
            return ;
        }
        // Stage intro: only the name display timer runs.
        if self.is_start_stage {
            self.disp_stage_name_clock.tick();
            if self.disp_stage_name_clock.is_time_out() {
                self.is_start_stage = false;
                self.disp_stage_name_clock.reset();
            }
            return ;
        }
        // Death sequence: frozen camera, death timer, unguided fall; on
        // timeout the stage reloads and the character respawns.
        if self.dragon.is_death {
            self.dragon_death_clock.tick();
            if self.dragon_death_clock.is_time_out() {
                self.dragon_death_clock.reset();
                self.stage.reload();
                let p = self.stage.get_start_pos();
                self.dragon.reset(p);
                self.is_fix_cam = false;
                self.is_start_stage = true;
            } else {
                self.is_fix_cam = true;
                if self.pos_ok() {
                    self.dragon.update_death();
                }
            }
            return ;
        }
        // A frame that cannot move safely is abandoned unchanged.
        if !self.pos_ok() {
            return ;
        }
        self.update_play(input);
    }

    /// One frame of normal play: the physics, collision, interactive and
    /// upkeep pipeline, and the stage-clear transition.
    #[verifier::rlimit(100)]
    #[verifier::spinoff_prover]
    fn update_play(&mut self, input: &ButtonHandler)
        requires
            old(self).wf(),
            !old(self).is_start_stage,
            !old(self).dragon.is_death,
            !old(self).is_clear_all_stage,
            spec_pos_ok(old(self).dragon),
        ensures
            final(self).mview() == spec_main_play(
                old(self).mview(),
                input.spec_time(crate::utils::BTN_RIGHT) >= 1,
                input.spec_time(crate::utils::BTN_LEFT) >= 1,
                input.spec_time(BTN_Z) >= 1,
                input.spec_time(BTN_Z) == 1,
            ),
            final(self).wf(),
    {
        let ghost v = old(self).mview();
        let ghost right = input.spec_time(crate::utils::BTN_RIGHT) >= 1;
        let ghost left = input.spec_time(crate::utils::BTN_LEFT) >= 1;
        let ghost zp = input.spec_time(BTN_Z) >= 1;
        let ghost zj = input.spec_time(BTN_Z) == 1;
        self.play_phase_x(input);
        let ghost d2 = spec_phase_x(v.dragon, v.tiles, right, left);
        proof {
            assert(self.mview() == (MainView { dragon: d2, ..v }));
        }
        self.play_phase_y(input);
        let ghost d4 = spec_phase_y(d2, v.tiles, zp, zj);
        proof {
            assert(self.mview() == (MainView { dragon: d4, ..v }));
        }
        self.update_play_tail();
    }

    /// The horizontal half of one frame of physics: movement and collision.
    #[verifier::rlimit(100)]
    #[verifier::spinoff_prover]
    fn play_phase_x(&mut self, input: &ButtonHandler)
        requires
            old(self).wf(),
            !old(self).dragon.is_death,
            spec_pos_ok(old(self).dragon),
        ensures
            final(self).dragon == spec_phase_x(
                old(self).dragon,
                old(self).stage.tiles@,
                input.spec_time(crate::utils::BTN_RIGHT) >= 1,
                input.spec_time(crate::utils::BTN_LEFT) >= 1,
            ),
            final(self).stage == old(self).stage,
            final(self).total_frag_count == old(self).total_frag_count,
            final(self).disp_stage_name_clock == old(self).disp_stage_name_clock,
            final(self).dragon_death_clock == old(self).dragon_death_clock,
            final(self).fix_cam_pos == old(self).fix_cam_pos,
            final(self).is_start_stage == old(self).is_start_stage,
            final(self).is_clear_stage == old(self).is_clear_stage,
            final(self).is_clear_all_stage == old(self).is_clear_all_stage,
            final(self).is_fix_cam == old(self).is_fix_cam,
            final(self).wf(),
            !final(self).dragon.is_death,
            -30014 <= final(self).dragon.pos.x <= 30014,
            final(self).dragon.pos.y == old(self).dragon.pos.y,
    {
        let ghost v = old(self).mview();
        let ghost right = input.spec_time(crate::utils::BTN_RIGHT) >= 1;
        let ghost left = input.spec_time(crate::utils::BTN_LEFT) >= 1;
        self.dragon.update_x(input);
        let ghost d1 = spec_update_x(v.dragon, right, left);
        let t = self.stage.get_tiles_from_pos(
            self.dragon.pos.x,
            self.dragon.pos.y,
            DRAGON_WIDTH,
            DRAGON_HEIGHT,
        );
        proof {
            assert(self.dragon == d1);
            assert((t[0], t[1], t[2], t[3]) == spec_corners(v.tiles, d1));
            assert(-2 <= d1.vel.x <= 2 && -12 <= d1.force.x <= 12);
            assert(-30014 <= d1.pos.x <= 30014);
        }
        self.dragon.check_collision_x(t[0], t[1], t[2], t[3]);
        proof {
            let d2 = spec_phase_x(v.dragon, v.tiles, right, left);
            assert(self.dragon == d2);
            assert(-2 <= d2.vel.x <= 2 && -12 <= d2.force.x <= 12);
            assert(-30014 <= d2.pos.x <= 30014);
            assert(d2.vel.y == d1.vel.y && d2.force.y == d1.force.y && d2.pos.y == d1.pos.y
                && d2.on_ground == d1.on_ground);
            assert(d2.hp <= MAX_HP && (d2.hp == 0 ==> d2.is_inv || d2.is_death));
        }
    }

    /// The vertical half of one frame of physics: movement and collision.
    #[verifier::rlimit(100)]
    #[verifier::spinoff_prover]
    fn play_phase_y(&mut self, input: &ButtonHandler)
        requires
            old(self).wf(),
            !old(self).dragon.is_death,
            -30014 <= old(self).dragon.pos.x <= 30014,
            -POS_LIMIT <= old(self).dragon.pos.y <= POS_LIMIT,
        ensures
            final(self).dragon == spec_phase_y(
                old(self).dragon,
                old(self).stage.tiles@,
                input.spec_time(BTN_Z) >= 1,
                input.spec_time(BTN_Z) == 1,
            ),
            final(self).stage == old(self).stage,
            final(self).total_frag_count == old(self).total_frag_count,
            final(self).disp_stage_name_clock == old(self).disp_stage_name_clock,
            final(self).dragon_death_clock == old(self).dragon_death_clock,
            final(self).fix_cam_pos == old(self).fix_cam_pos,
            final(self).is_start_stage == old(self).is_start_stage,
            final(self).is_clear_stage == old(self).is_clear_stage,
            final(self).is_clear_all_stage == old(self).is_clear_all_stage,
            final(self).is_fix_cam == old(self).is_fix_cam,
            final(self).wf(),
            -32000 <= final(self).dragon.pos.x <= 32000,
            -32000 <= final(self).dragon.pos.y <= 32000,
    {
        let ghost v = old(self).mview();
        let ghost zp = input.spec_time(BTN_Z) >= 1;
        let ghost zj = input.spec_time(BTN_Z) == 1;
        proof {
            lemma_phase_y_bounds(v.dragon, v.tiles, zp, zj);
        }
        self.dragon.update_y(input);
        let ghost d3 = spec_update_y(v.dragon, zp, zj);
        let t = self.stage.get_tiles_from_pos(
            self.dragon.pos.x,
            self.dragon.pos.y,
            DRAGON_WIDTH,
            DRAGON_HEIGHT,
        );
        proof {
            assert(self.dragon == d3);
            assert((t[0], t[1], t[2], t[3]) == spec_corners(v.tiles, d3));
        }
        self.dragon.check_collision_y(t[0], t[1], t[2], t[3]);
        proof {
            assert(self.dragon == spec_phase_y(v.dragon, v.tiles, zp, zj));
        }
    }

    /// The tail of one frame of normal play: interactive tiles, stage and
    /// character upkeep, and the stage-clear transition.
    #[verifier::rlimit(100)]
    #[verifier::spinoff_prover]
    fn update_play_tail(&mut self)
        requires
            old(self).wf(),
            !old(self).is_start_stage,
            !old(self).dragon.is_death,
            !old(self).is_clear_all_stage,
            -32000 <= old(self).dragon.pos.x <= 32000,
            -32000 <= old(self).dragon.pos.y <= 32000,
        ensures
            final(self).mview() == spec_play_tail(old(self).mview()),
            final(self).wf(),
    {
        let ghost w = old(self).mview();
        // Interactive tiles.
        let t = self.stage.get_tiles_from_pos(
            self.dragon.pos.x,
            self.dragon.pos.y,
            DRAGON_WIDTH,
            DRAGON_HEIGHT,
        );
        let cmds = self.dragon.check_interactive(t[0], t[1], t[2], t[3]);
        let ghost c3 = spec_corners(w.tiles, w.dragon);
        let ghost cseq = seq![
            spec_tile_cmd(c3.0),
            spec_tile_cmd(c3.1),
            spec_tile_cmd(c3.2),
            spec_tile_cmd(c3.3),
        ];
        let hit_goal = matches!(cmds[0], Some(InteractiveCmd::ClearStage)) || matches!(
            cmds[1],
            Some(InteractiveCmd::ClearStage),
        ) || matches!(cmds[2], Some(InteractiveCmd::ClearStage)) || matches!(
            cmds[3],
            Some(InteractiveCmd::ClearStage),
        );
        proof {
            assert(cmds@ =~= cseq);
            if hit_goal {
                assert(cseq.contains(Some(InteractiveCmd::ClearStage)));
            } else {
                assert(forall|i: int|
                    0 <= i < 4 ==> cseq[i] != Some(InteractiveCmd::ClearStage));
                assert(!cseq.contains(Some(InteractiveCmd::ClearStage)));
            }
        }
        if hit_goal {
            self.is_clear_stage = true;
        }
        // Stage and character upkeep.
        self.stage.update(cmds);
        self.dragon.update();
        let ghost d5 = spec_update(w.dragon);
        proof {
            assert(self.stage.tiles@ == spec_collect_all(w.tiles, w.fragment_count, cseq).0);
            assert(self.dragon == d5);
            assert(d5.vel == w.dragon.vel && d5.pos == w.dragon.pos && d5.on_ground == w.dragon.on_ground
                && d5.force.x == w.dragon.force.x && d5.move_frames == w.dragon.move_frames);
            assert(!d5.is_death ==> d5.force.y == w.dragon.force.y && d5.death_frames == 0);
            assert(d5.is_death ==> d5.death_frames == 0 && -26 <= d5.force.y <= 18);
            assert(d5.wf());
        }
        // Stage transition.
        if self.is_clear_stage {
            proof {
                crate::stage::lemma_budgets();
                assert(spec_frag_budget_from(w.stage_idx as int) == crate::stage::spec_frag_budget(
                    w.stage_idx as int,
                ) + spec_frag_budget_from(w.stage_idx + 1));
                assert(self.stage.fragment_count <= crate::stage::spec_frag_budget(
                    w.stage_idx as int,
                ));
            }
            self.total_frag_count = self.total_frag_count + self.stage.fragment_count;
            let exists_next = self.stage.goto_next_stage();
            if exists_next {
                let p = self.stage.get_start_pos();
                self.dragon.reset(p);
            } else {
                self.is_clear_all_stage = true;
            }
            self.is_start_stage = true;
            self.is_clear_stage = false;
        }
    }

    /// Draws one frame: the stage and the character under the follow camera
    /// (or the frozen camera during the death sequence), the heart gauge, the
    /// stage name during the intro, and the running fragment count. With the
    /// follow camera, the camera position is saved for a later freeze. A
    /// frame whose character position is outside the machine-safe range draws
    /// nothing.
    #[verifier::rlimit(100)]
    #[verifier::spinoff_prover]
    pub fn draw(&mut self, renderer: &mut Renderer)
        requires
            old(self).wf(),
        ensures
            final(self).wf(),
            !old(self).is_fix_cam && !spec_pos_ok(old(self).dragon) ==> *final(self) == *old(self)
                && final(renderer).cmds@ == old(renderer).cmds@,
            old(self).is_fix_cam || spec_pos_ok(old(self).dragon) ==> {
                let cx: int = if old(self).is_fix_cam {
                    old(self).fix_cam_pos.x as int
                } else {
                    70 - old(self).dragon.pos.x
                };
                let cy: int = if old(self).is_fix_cam {
                    old(self).fix_cam_pos.y as int
                } else {
                    80 - old(self).dragon.pos.y
                };
                &&& final(renderer).cmds@ == old(renderer).cmds@ + spec_main_draw_cmds(
                    *old(self),
                    cx,
                    cy,
                )
                &&& final(self).fix_cam_pos == (Vec2i { x: cx as i16, y: cy as i16 })
                &&& *final(self) == (SceneMain {
                    fix_cam_pos: Vec2i { x: cx as i16, y: cy as i16 },
                    ..*old(self)
                })
            },
    {
        if !self.is_fix_cam && !self.pos_ok() {
            return ;
        }
        let cam_x: i16 = if self.is_fix_cam {
            self.fix_cam_pos.x
        } else {
            70 - self.dragon.pos.x
        };
        let cam_y: i16 = if self.is_fix_cam {
            self.fix_cam_pos.y
        } else {
            80 - self.dragon.pos.y
        };
        let ghost base = renderer.cmds@;
        let ghost v0 = *self;
        self.stage.draw(renderer, cam_x, cam_y);
        let ghost after_stage = renderer.cmds@;
        if !self.dragon.is_death {
            self.dragon.draw(renderer, cam_x, cam_y);
        } else {
            self.dragon.draw_death(renderer, cam_x, cam_y);
        }
        proof {
            assert(renderer.cmds@ =~= after_stage + spec_dragon_cmds(
                self.dragon,
                cam_x as int,
                cam_y as int,
            ));
        }
        let ghost after_dragon = renderer.cmds@;
        // Heart gauge.
        proof {
            assert(((3u16 << 4u16) | 2u16) == 0x32u16) by (bit_vector);
            assert(((4u16 << 4u16) | 2u16) == 0x42u16) by (bit_vector);
        }
        set_drawcolor(renderer, 2, 3);
        let hp = self.dragon.hp;
        let mut i: u8 = 0;
        while i < hp
            invariant
                i <= hp,
                hp <= MAX_HP,
                renderer.cmds@ == after_dragon + spec_hp_rects(i as int),
                renderer.draw_colors == 0x32u16,
            decreases hp - i,
        {
            renderer.rect(5 + 6 * (i as i32), 145, 5, 10);
            i = i + 1;
        }
        let ghost after_hp = renderer.cmds@;
        // Stage name during the intro.
        set_drawcolor(renderer, 2, 4);
        if self.is_start_stage {
            renderer.text("stage", 52, 50);
            let idx1 = self.stage.get_stage_idx() + 1;
            renderer.number(idx1, 104, 50);
        }
        let ghost after_name = renderer.cmds@;
        // Running fragment count.
        set_drawcolor(renderer, 2, 4);
        let shown = self.stage.fragment_count + self.total_frag_count;
        renderer.number(shown, 150, 1);
        // Save the camera for a later freeze.
        if !self.is_fix_cam {
            self.fix_cam_pos.x = cam_x;
            self.fix_cam_pos.y = cam_y;
        }
        proof {
            assert(after_hp =~= after_dragon + spec_hp_rects(hp as int));
            assert(renderer.cmds@ =~= base + spec_main_draw_cmds(v0, cam_x as int, cam_y as int));
        }
    }

    pub fn get_scene_cmd(&self) -> (r: SceneCmd)
        ensures
            r == spec_main_scene_cmd(*self),
    {
        if self.is_clear_all_stage {
            if self.total_frag_count == FRAG_TARGET {
                SceneCmd::Change(SceneId::EndingTrue)
            } else {
                SceneCmd::Change(SceneId::EndingFalse)
            }
        } else {
            SceneCmd::Stay
        }
    }
}

/// The ghost image of the play scene: the same state with the stage's tile
/// list as a sequence, and the clocks as bare counts.
pub ghost struct MainView {
    pub dragon: Dragon,
    pub tiles: Seq<Tile>,
    pub fragment_count: u8,
    pub stage_idx: u8,
    pub start_pos: Vec2i,
    pub total_frag_count: u8,
    pub intro_count: u16,
    pub death_count: u16,
    pub fix_cam_pos: Vec2i,
    pub is_start_stage: bool,
    pub is_clear_stage: bool,
    pub is_clear_all_stage: bool,
    pub is_fix_cam: bool,
}

impl SceneMain {
    /// The scene as a ghost value.
    pub open spec fn mview(self) -> MainView {
        MainView {
            dragon: self.dragon,
            tiles: self.stage.tiles@,
            fragment_count: self.stage.fragment_count,
            stage_idx: self.stage.stage_idx,
            start_pos: self.stage.start_pos,
            total_frag_count: self.total_frag_count,
            intro_count: self.disp_stage_name_clock.spec_count(),
            death_count: self.dragon_death_clock.spec_count(),
            fix_cam_pos: self.fix_cam_pos,
            is_start_stage: self.is_start_stage,
            is_clear_stage: self.is_clear_stage,
            is_clear_all_stage: self.is_clear_all_stage,
            is_fix_cam: self.is_fix_cam,
        }
    }
}

/// Scene bookkeeping stays consistent: the character is well formed, the
/// stage index names a real stage with its start position, fragments
/// collected plus fragments still in the grid add up to the stage's budget,
/// the fragment total never exceeds what the remaining stages leave
/// obtainable; alive, the character's speeds sit in the ranges one frame of
/// the pipeline re-establishes and the death timer is idle; dead, the death
/// counter tracks the death timer.
pub open spec fn wf_view(v: MainView) -> bool {
    &&& v.dragon.wf()
    &&& v.stage_idx < NUM_STAGES
    &&& v.start_pos == spec_stage_start(v.stage_idx as int)
    &&& v.fragment_count + crate::stage::count_frags(v.tiles) == crate::stage::spec_frag_budget(
        v.stage_idx as int,
    )
    &&& crate::stage::spec_frag_budget(v.stage_idx as int) <= FRAG_TARGET
    &&& v.total_frag_count <= FRAG_TARGET
    &&& (!v.is_clear_all_stage ==> v.total_frag_count + spec_frag_budget_from(
        v.stage_idx as int,
    ) <= FRAG_TARGET)
    &&& -2 <= v.dragon.vel.x <= 2
    &&& -12 <= v.dragon.force.x <= 12
    &&& (!v.dragon.is_death ==> {
        &&& (v.dragon.on_ground ==> v.dragon.vel.y == 0)
        &&& -5 <= v.dragon.vel.y <= 4
        &&& -18 <= v.dragon.force.y <= 18
        &&& v.death_count == 0
    })
    &&& (v.dragon.is_death ==> {
        &&& v.dragon.death_frames <= v.death_count
        &&& v.death_count < DEATH_SEQ_FRAME
        &&& -5 <= v.dragon.vel.y <= 4 + v.dragon.death_frames
        &&& -26 <= v.dragon.force.y <= 18 + v.dragon.death_frames
    })
}

/// The four tiles under the character's bounding-box corners in the given
/// tile state: top-left, top-right, bottom-left, bottom-right.
pub open spec fn spec_corners(tiles: Seq<Tile>, d: Dragon) -> (
    Option<Tile>,
    Option<Tile>,
    Option<Tile>,
    Option<Tile>,
) {
    (
        spec_tile_at_pixel(tiles, d.pos.x, d.pos.y),
        spec_tile_at_pixel(tiles, (d.pos.x + DRAGON_WIDTH - 1) as i16, d.pos.y),
        spec_tile_at_pixel(tiles, d.pos.x, (d.pos.y + DRAGON_HEIGHT - 1) as i16),
        spec_tile_at_pixel(
            tiles,
            (d.pos.x + DRAGON_WIDTH - 1) as i16,
            (d.pos.y + DRAGON_HEIGHT - 1) as i16,
        ),
    )
}

/// Corner-sampled collision always meets the tile it sampled: a solid tile
/// under a bottom corner overlaps the character's bottom row, so descending
/// contact always clamps (grounding exactly when the contact is no bounce
/// pad), and a solid tile at a top corner always clamps the ascent. Hence
/// vertical collision leaves the character grounded only with its fall
/// velocity zeroed.
pub proof fn lemma_landing_grounds(tiles: Seq<Tile>, d3: Dragon)
    requires
        -32000 <= d3.pos.y <= 32000,
        -32000 <= d3.pos.x <= 32000,
    ensures
        ({
            let c = spec_corners(tiles, d3);
            let d4 = spec_collision_y(d3, c.0, c.1, c.2, c.3);
            &&& (d4.on_ground ==> d4.vel.y == 0)
            &&& (d4.vel.y == 0 || d4.vel.y == d3.vel.y)
            &&& (d4.force.y == 0 || d4.force.y == -(SPRING_FORCE_Y as int) || d4.force.y
                == SPRING_FORCE_Y || d4.force.y == d3.force.y)
            &&& d4.pos.x == d3.pos.x
            &&& (!(spec_is_solid(c.2) || spec_is_solid(c.3)) ==> !d4.on_ground)
        }),
{
    lemma_tile_at_pixel_coords(tiles, d3.pos.x, d3.pos.y);
    lemma_tile_at_pixel_coords(tiles, (d3.pos.x + DRAGON_WIDTH - 1) as i16, d3.pos.y);
    lemma_tile_at_pixel_coords(tiles, d3.pos.x, (d3.pos.y + DRAGON_HEIGHT - 1) as i16);
    lemma_tile_at_pixel_coords(
        tiles,
        (d3.pos.x + DRAGON_WIDTH - 1) as i16,
        (d3.pos.y + DRAGON_HEIGHT - 1) as i16,
    );
}

/// Bounds of one vertical phase: starting from the speeds one frame of the
/// pipeline re-establishes, gravity, jumping, hovering and corner-sampled
/// collision land back inside those same ranges, grounded only with descent
/// zeroed.
pub proof fn lemma_phase_y_bounds(d: Dragon, tiles: Seq<Tile>, zp: bool, zj: bool)
    requires
        d.hp <= MAX_HP,
        d.hp == 0 ==> d.is_inv || d.is_death,
        d.on_ground ==> d.vel.y == 0,
        -5 <= d.vel.y <= 4,
        -18 <= d.force.y <= 18,
        -2 <= d.vel.x <= 2,
        -12 <= d.force.x <= 12,
        -30014 <= d.pos.x <= 30014,
        -POS_LIMIT <= d.pos.y <= POS_LIMIT,
    ensures
        ({
            let d3 = spec_update_y(d, zp, zj);
            let d4 = spec_phase_y(d, tiles, zp, zj);
            &&& -5 <= d3.vel.y <= 4
            &&& -17 <= d3.force.y <= 17
            &&& -30022 <= d3.pos.y <= 30022
            &&& d3.pos.x == d.pos.x
            &&& d3.hp == d.hp && d3.is_inv == d.is_inv && d3.is_death == d.is_death
            &&& (d4.on_ground ==> d4.vel.y == 0)
            &&& -5 <= d4.vel.y <= 4
            &&& -18 <= d4.force.y <= 18
            &&& -30022 <= d4.pos.y <= 30022
            &&& -30014 <= d4.pos.x <= 30014
            &&& -2 <= d4.vel.x <= 2
            &&& -12 <= d4.force.x <= 12
            &&& d4.hp <= MAX_HP && (d4.hp == 0 ==> d4.is_inv || d4.is_death)
            &&& d4.is_death == d.is_death && d4.move_frames == d.move_frames && d4.inv_frames
                == d.inv_frames && d4.death_frames == d.death_frames && d4.anim == d.anim
        }),
{
    let d3 = spec_update_y(d, zp, zj);
    lemma_landing_grounds(tiles, d3);
}

/// The horizontal half of one frame of physics: movement from the held
/// directions, then collision against the corner tiles of the new position.
pub open spec fn spec_phase_x(d: Dragon, tiles: Seq<Tile>, right: bool, left: bool) -> Dragon {
    let d1 = spec_update_x(d, right, left);
    let c = spec_corners(tiles, d1);
    spec_collision_x(d1, c.0, c.1, c.2, c.3)
}

/// The vertical half of one frame of physics: gravity, jumping and hovering,
/// then collision against the corner tiles of the new position.
pub open spec fn spec_phase_y(d: Dragon, tiles: Seq<Tile>, z_pressed: bool, z_just: bool) -> Dragon {
    let d3 = spec_update_y(d, z_pressed, z_just);
    let c = spec_corners(tiles, d3);
    spec_collision_y(d3, c.0, c.1, c.2, c.3)
}

/// One frame of normal play: physics and collision on each axis in turn,
/// interactive-tile resolution, stage and character upkeep, and the
/// stage-clear transition (fragments are banked, the next stage loads with
/// the character reset at its start, or the full run completes).
pub open spec fn spec_main_play(
    v: MainView,
    right: bool,
    left: bool,
    z_pressed: bool,
    z_just: bool,
) -> MainView {
    let d2 = spec_phase_x(v.dragon, v.tiles, right, left);
    let d4 = spec_phase_y(d2, v.tiles, z_pressed, z_just);
    spec_play_tail(MainView { dragon: d4, ..v })
}

/// The tail of one frame of normal play, after physics and collision:
/// interactive-tile resolution, stage and character upkeep, and the
/// stage-clear transition.
pub open spec fn spec_play_tail(v: MainView) -> MainView {
    let c3 = spec_corners(v.tiles, v.dragon);
    let cmds = seq![
        spec_tile_cmd(c3.0),
        spec_tile_cmd(c3.1),
        spec_tile_cmd(c3.2),
        spec_tile_cmd(c3.3),
    ];
    let clear_now = v.is_clear_stage || cmds.contains(Some(InteractiveCmd::ClearStage));
    let coll = spec_collect_all(v.tiles, v.fragment_count, cmds);
    let d5 = spec_update(v.dragon);
    if clear_now {
        let total2 = (v.total_frag_count + coll.1) as u8;
        if v.stage_idx + 1 < NUM_STAGES {
            MainView {
                dragon: spec_dragon_reset(d5, spec_stage_start(v.stage_idx + 1)),
                tiles: spec_stage_tiles(v.stage_idx + 1),
                fragment_count: 0u8,
                stage_idx: (v.stage_idx + 1) as u8,
                start_pos: spec_stage_start(v.stage_idx + 1),
                total_frag_count: total2,
                is_start_stage: true,
                is_clear_stage: false,
                ..v
            }
        } else {
            MainView {
                dragon: d5,
                tiles: coll.0,
                fragment_count: coll.1,
                total_frag_count: total2,
                is_clear_all_stage: true,
                is_start_stage: true,
                is_clear_stage: false,
                ..v
            }
        }
    } else {
        MainView { dragon: d5, tiles: coll.0, fragment_count: coll.1, ..v }
    }
}

/// One frame of the play scene. During the stage intro only the intro timer
/// runs. While the character is dead, only the death timer and the unguided
/// death fall advance, the camera frozen; on timeout the stage reloads and
/// the character respawns at the stage start with full health. Otherwise a
/// frame of normal play runs. A frame that finds the character's position
/// outside the machine-safe range is abandoned with the state unchanged.
pub open spec fn spec_main_update(
    v: MainView,
    right: bool,
    left: bool,
    z_pressed: bool,
    z_just: bool,
) -> MainView {
    if v.is_clear_all_stage {
        v
    } else if v.is_start_stage {
        let c = if v.intro_count < DISP_STAGE_NAME_FRAME {
            v.intro_count + 1
        } else {
            v.intro_count as int
        };
        if c >= DISP_STAGE_NAME_FRAME {
            MainView { is_start_stage: false, intro_count: 0u16, ..v }
        } else {
            MainView { intro_count: c as u16, ..v }
        }
    } else if v.dragon.is_death {
        let c = if v.death_count < DEATH_SEQ_FRAME {
            v.death_count + 1
        } else {
            v.death_count as int
        };
        if c >= DEATH_SEQ_FRAME {
            MainView {
                death_count: 0u16,
                tiles: spec_stage_tiles(v.stage_idx as int),
                fragment_count: 0u8,
                dragon: spec_dragon_reset(v.dragon, v.start_pos),
                is_fix_cam: false,
                is_start_stage: true,
                ..v
            }
        } else if spec_pos_ok(v.dragon) {
            MainView {
                is_fix_cam: true,
                death_count: c as u16,
                dragon: spec_update_death(v.dragon),
                ..v
            }
        } else {
            MainView { is_fix_cam: true, death_count: c as u16, ..v }
        }
    } else if !spec_pos_ok(v.dragon) {
        v
    } else {
        spec_main_play(v, right, left, z_pressed, z_just)
    }
}

/// Once the full run is complete, the scene changes to the true ending
/// exactly when the fragment total equals the maximum obtainable, and to the
/// false ending on any lesser total; before that the scene stays.
pub open spec fn spec_main_scene_cmd(s: SceneMain) -> SceneCmd {
    if s.is_clear_all_stage {
        if s.total_frag_count == FRAG_TARGET {
            SceneCmd::Change(SceneId::EndingTrue)
        } else {
            SceneCmd::Change(SceneId::EndingFalse)
        }
    } else {
        SceneCmd::Stay
    }
}

/// The heart gauge: one filled rectangle per remaining health point.
pub open spec fn spec_hp_rects(n: int) -> Seq<DrawCmd>
    decreases n,
{
    if n <= 0 {
        Seq::empty()
    } else {
        spec_hp_rects(n - 1).push(
            DrawCmd::Rect {
                colors: 0x32u16,
                x: (5 + 6 * (n - 1)) as i32,
                y: 145,
                width: 5,
                height: 10,
            },
        )
    }
}

/// The character's draw requests: the death animation frame while dead, the
/// active state's frame otherwise, skipped on the invincibility blink.
pub open spec fn spec_dragon_cmds(d: Dragon, cx: int, cy: int) -> Seq<DrawCmd> {
    if d.is_death {
        seq![
            d.anim.death.images@[d.anim.death.now_idx as int].spec_blit_cmd(
                (d.pos.x + cx) as i32,
                (d.pos.y + cy) as i32,
                0u32,
            ),
        ]
    } else if d.is_inv && d.inv_frames % 4 >= 2 {
        Seq::empty()
    } else {
        seq![
            {
                let t = d.anim.spec_get(d.now_state);
                t.images@[t.now_idx as int].spec_blit_cmd(
                    (d.pos.x + cx) as i32,
                    (d.pos.y + cy) as i32,
                    crate::utils::spec_orient_flags(d.xflip, d.yflip, d.rot),
                )
            },
        ]
    }
}

/// Everything the play scene draws in one frame, at camera offset
/// `(cx, cy)`: the stage, the character, the heart gauge, the stage name
/// during the intro, and the running fragment count.
pub open spec fn spec_main_draw_cmds(s: SceneMain, cx: int, cy: int) -> Seq<DrawCmd> {
    crate::stage::StageHandler::spec_tile_draw_cmds(s.stage.tiles@, cx, cy) + spec_dragon_cmds(
        s.dragon,
        cx,
        cy,
    ) + spec_hp_rects(s.dragon.hp as int) + (if s.is_start_stage {
        seq![
            DrawCmd::Text { colors: 0x42u16, text: "stage", x: 52, y: 50 },
            DrawCmd::Number { colors: 0x42u16, value: (s.stage.stage_idx + 1) as u8, x: 104, y: 50 },
        ]
    } else {
        Seq::empty()
    }) + seq![
        DrawCmd::Number {
            colors: 0x42u16,
            value: (s.stage.fragment_count + s.total_frag_count) as u8,
            x: 150,
            y: 1,
        },
    ]
}

// -------------------------------
// Scene dispatch
// -------------------------------

/// The active scene's state.
pub enum SceneData {
    Title(SceneTitle),
    Main(SceneMain),
    FalseEnding(SceneFalseEnding),
    TrueEnding(SceneTrueEnding),
}

/// A freshly built play scene, as `SceneMain::new` leaves it.
pub open spec fn main_is_fresh(m: SceneMain) -> bool {
    &&& m.wf()
    &&& m.dragon.hp == MAX_HP
    &&& !m.dragon.is_death
    &&& m.stage.stage_idx == 0
    &&& m.stage.fragment_count == 0
    &&& m.stage.tiles@ == spec_stage_tiles(0)
    &&& m.total_frag_count == 0
    &&& m.is_start_stage
    &&& !m.is_clear_stage && !m.is_clear_all_stage && !m.is_fix_cam
    &&& m.disp_stage_name_clock.spec_count() == 0
    &&& m.dragon_death_clock.spec_count() == 0
}

/// A freshly built and started play scene: as fresh, with the character
/// placed at the first stage's start position.
pub open spec fn main_is_fresh_started(m: SceneMain) -> bool {
    &&& main_is_fresh(m)
    &&& m.dragon.pos == spec_stage_start(0)
}

/// What `SceneMain::draw` promises, relating the scene and the recorded
/// draw requests before and after.
pub open spec fn main_draw_post(
    m0: SceneMain,
    m1: SceneMain,
    c0: Seq<DrawCmd>,
    c1: Seq<DrawCmd>,
) -> bool {
    &&& m1.wf() || !m0.wf()
    &&& (!m0.is_fix_cam && !spec_pos_ok(m0.dragon) ==> m1 == m0 && c1 == c0)
    &&& (m0.is_fix_cam || spec_pos_ok(m0.dragon) ==> {
        let cx: int = if m0.is_fix_cam {
            m0.fix_cam_pos.x as int
        } else {
            70 - m0.dragon.pos.x
        };
        let cy: int = if m0.is_fix_cam {
            m0.fix_cam_pos.y as int
        } else {
            80 - m0.dragon.pos.y
        };
        &&& c1 == c0 + spec_main_draw_cmds(m0, cx, cy)
        &&& m1 == (SceneMain { fix_cam_pos: Vec2i { x: cx as i16, y: cy as i16 }, ..m0 })
    })
}

impl SceneData {
    /// The play scene's bookkeeping holds; other scenes carry none.
    pub open spec fn wf(self) -> bool {
        match self {
            SceneData::Main(m) => m.wf(),
            _ => true,
        }
    }

    /// Builds the scene a scene id names, fresh.
    pub fn new(id: SceneId) -> (r: Self)
        ensures
            r.wf(),
            id == SceneId::Title ==> (r matches SceneData::Title(t) && !t.is_start),
            id == SceneId::Main ==> (r matches SceneData::Main(m) && main_is_fresh(m)),
            id == SceneId::EndingFalse ==> r is FalseEnding,
            id == SceneId::EndingTrue ==> r is TrueEnding,
    {
        match id {
            SceneId::Title => SceneData::Title(SceneTitle::new()),
            SceneId::Main => SceneData::Main(SceneMain::new()),
            SceneId::EndingFalse => SceneData::FalseEnding(SceneFalseEnding::new()),
            SceneId::EndingTrue => SceneData::TrueEnding(SceneTrueEnding::new()),
        }
    }

    /// Runs the active scene's start hook: the play scene places the
    /// character at the stage start; other scenes do nothing.
    pub fn start(&mut self)
        requires
            old(self).wf(),
        ensures
            final(self).wf(),
            *old(self) matches SceneData::Main(m) ==> *final(self) == SceneData::Main(
                SceneMain { dragon: Dragon { pos: m.stage.start_pos, ..m.dragon }, ..m },
            ),
            !(*old(self) is Main) ==> *final(self) == *old(self),
    {
        match self {
            SceneData::Title(sc) => sc.start(),
            SceneData::Main(sc) => sc.start(),
            SceneData::FalseEnding(sc) => sc.start(),
            SceneData::TrueEnding(sc) => sc.start(),
        }
    }

    /// Advances the active scene by one frame.
    pub fn update(&mut self, input: &ButtonHandler)
        requires
            old(self).wf(),
        ensures
            final(self).wf(),
            *old(self) matches SceneData::Title(t) ==> *final(self) == SceneData::Title(
                SceneTitle { is_start: t.is_start || input.spec_time(BTN_Z) == 1 },
            ),
            *old(self) matches SceneData::Main(m) ==> (*final(self) matches SceneData::Main(m2)
                && m2.mview() == spec_main_update(
                m.mview(),
                input.spec_time(crate::utils::BTN_RIGHT) >= 1,
                input.spec_time(crate::utils::BTN_LEFT) >= 1,
                input.spec_time(BTN_Z) >= 1,
                input.spec_time(BTN_Z) == 1,
            ) && m2.fix_cam_pos == m.fix_cam_pos),
            *old(self) is FalseEnding || *old(self) is TrueEnding ==> *final(self) == *old(self),
    {
        match self {
            SceneData::Title(sc) => sc.update(input),
            SceneData::Main(sc) => sc.update(input),
            SceneData::FalseEnding(sc) => sc.update(),
            SceneData::TrueEnding(sc) => sc.update(),
        }
    }

    /// Draws the active scene's frame.
    pub fn draw(&mut self, renderer: &mut Renderer)
        requires
            old(self).wf(),
        ensures
            final(self).wf(),
            *old(self) matches SceneData::Title(t) ==> *final(self) == *old(self) && final(renderer).cmds@ == old(renderer).cmds@.push(
                DrawCmd::Text { colors: 0x04u16, text: "blood dragon", x: 28, y: 60 },
            ).push(DrawCmd::Text { colors: 0x04u16, text: "press z to start", x: 15, y: 120 }),
            *old(self) matches SceneData::Main(m) ==> (*final(self) matches SceneData::Main(m2)
                && main_draw_post(m, m2, old(renderer).cmds@, final(renderer).cmds@)),
            *old(self) is FalseEnding ==> *final(self) == *old(self) && final(renderer).cmds@ == old(
                renderer,
            ).cmds@.push(
                DrawCmd::Text { colors: 0x04u16, text: "the dragon rests", x: 16, y: 76 },
            ),
            *old(self) is TrueEnding ==> *final(self) == *old(self) && final(renderer).cmds@
                == old(renderer).cmds@.push(
                DrawCmd::Text { colors: 0x04u16, text: "the dragon is whole", x: 4, y: 76 },
            ),
    {
        match self {
            SceneData::Title(sc) => sc.draw(renderer),
            SceneData::Main(sc) => sc.draw(renderer),
            SceneData::FalseEnding(sc) => sc.draw(renderer),
            SceneData::TrueEnding(sc) => sc.draw(renderer),
        }
    }

    /// What the active scene asks of the handler.
    pub fn get_scene_cmd(&self) -> (r: SceneCmd)
        ensures
            r == spec_scene_cmd(*self),
    {
        match self {
            SceneData::Title(sc) => sc.get_scene_cmd(),
            SceneData::Main(sc) => sc.get_scene_cmd(),
            SceneData::FalseEnding(sc) => sc.get_scene_cmd(),
            SceneData::TrueEnding(sc) => sc.get_scene_cmd(),
        }
    }
}

/// What each scene asks of the handler: the title changes to the main scene
/// once armed; the main scene changes to an ending once the run completes;
/// endings stay.
pub open spec fn spec_scene_cmd(s: SceneData) -> SceneCmd {
    match s {
        SceneData::Title(t) => if t.is_start {
            SceneCmd::Change(SceneId::Main)
        } else {
            SceneCmd::Stay
        },
        SceneData::Main(m) => spec_main_scene_cmd(m),
        _ => SceneCmd::Stay,
    }
}

/// What `SceneHandler::update` promises: the active scene advances one
/// frame, and a requested scene change is performed with the new scene
/// started.
pub open spec fn handler_update_post(h0: SceneHandler, h1: SceneHandler, input: ButtonHandler) -> bool {
    &&& (h0.now_scene matches SceneData::Title(t) ==> {
        if t.is_start || input.spec_time(BTN_Z) == 1 {
            h1.now_scene matches SceneData::Main(m) && main_is_fresh_started(m)
        } else {
            h1.now_scene == SceneData::Title(SceneTitle { is_start: false })
        }
    })
    &&& (h0.now_scene matches SceneData::Main(m) ==> {
        let v2 = spec_main_update(
            m.mview(),
            input.spec_time(crate::utils::BTN_RIGHT) >= 1,
            input.spec_time(crate::utils::BTN_LEFT) >= 1,
            input.spec_time(BTN_Z) >= 1,
            input.spec_time(BTN_Z) == 1,
        );
        if v2.is_clear_all_stage {
            if v2.total_frag_count == FRAG_TARGET {
                h1.now_scene is TrueEnding
            } else {
                h1.now_scene is FalseEnding
            }
        } else {
            h1.now_scene matches SceneData::Main(m2) && m2.mview() == v2
        }
    })
    &&& (h0.now_scene is FalseEnding || h0.now_scene is TrueEnding ==> h1 == h0)
}

/// What `SceneHandler::draw` promises: the play scene records its frame per
/// `main_draw_post`; any other scene records at least one request and is
/// otherwise untouched.
pub open spec fn handler_draw_post(
    h0: SceneHandler,
    h1: SceneHandler,
    c0: Seq<DrawCmd>,
    c1: Seq<DrawCmd>,
) -> bool {
    &&& (h0.now_scene matches SceneData::Main(m) ==> (h1.now_scene matches SceneData::Main(m2)
        && main_draw_post(m, m2, c0, c1)))
    &&& (!(h0.now_scene is Main) ==> h1 == h0 && c1.len() > c0.len())
}

// -------------------------------
// Scene handler
// -------------------------------

/// Owns the active scene: advances it each frame and performs the scene
/// changes it requests.
pub struct SceneHandler {
    pub now_scene: SceneData,
}

impl SceneHandler {
    pub open spec fn wf(self) -> bool {
        self.now_scene.wf()
    }

    /// Starts at the title screen.
    pub fn new() -> (r: Self)
        ensures
            r.wf(),
            r.now_scene matches SceneData::Title(t) && !t.is_start,
    {
        SceneHandler { now_scene: SceneData::new(SceneId::Title) }
    }

    pub fn start(&mut self)
        requires
            old(self).wf(),
        ensures
            final(self).wf(),
            old(self).now_scene matches SceneData::Main(m) ==> final(self).now_scene
                == SceneData::Main(
                SceneMain { dragon: Dragon { pos: m.stage.start_pos, ..m.dragon }, ..m },
            ),
            !(old(self).now_scene is Main) ==> *final(self) == *old(self),
    {
        self.now_scene.start();
    }

    /// Advances the active scene one frame; if the scene then asks for a
    /// change, the named scene is built fresh and started.
    pub fn update(&mut self, input: &ButtonHandler)
        requires
            old(self).wf(),
        ensures
            final(self).wf(),
            handler_update_post(*old(self), *final(self), *input),
    {
        self.now_scene.update(input);
        let cmd = self.now_scene.get_scene_cmd();
        match cmd {
            SceneCmd::Change(sid) => {
                self.now_scene = SceneData::new(sid);
                self.now_scene.start();
            },
            SceneCmd::Stay => {},
        }
    }

    /// Draws the active scene's frame.
    pub fn draw(&mut self, renderer: &mut Renderer)
        requires
            old(self).wf(),
        ensures
            final(self).wf(),
            handler_draw_post(*old(self), *final(self), old(renderer).cmds@, final(renderer).cmds@),
    {
        self.now_scene.draw(renderer);
    }
}

// -------------------------------
// Laws
// -------------------------------

/// While the character is dead, the scene's frame update never invokes the
/// normal collision path: until the death timer runs out the character
/// advances only by the unguided death fall, the stage untouched and the
/// camera frozen.
pub proof fn lemma_death_update_bypasses_collision(
    v: MainView,
    right: bool,
    left: bool,
    z_pressed: bool,
    z_just: bool,
)
    requires
        !v.is_clear_all_stage,
        !v.is_start_stage,
        v.dragon.is_death,
        v.death_count + 1 < DEATH_SEQ_FRAME,
        spec_pos_ok(v.dragon),
    ensures
        spec_main_update(v, right, left, z_pressed, z_just).dragon == spec_update_death(v.dragon),
        spec_main_update(v, right, left, z_pressed, z_just).tiles == v.tiles,
        spec_main_update(v, right, left, z_pressed, z_just).fragment_count == v.fragment_count,
        spec_main_update(v, right, left, z_pressed, z_just).is_fix_cam,
{
}

/// Once the full run is complete, the scene change goes to the true ending
/// exactly when the fragment total equals the maximum obtainable, and to the
/// false ending on any lesser total.
pub proof fn lemma_ending_selection(m: SceneMain)
    ensures
        m.is_clear_all_stage ==> (spec_main_scene_cmd(m) == SceneCmd::Change(SceneId::EndingTrue)
            <==> m.total_frag_count == FRAG_TARGET),
        m.is_clear_all_stage && m.total_frag_count != FRAG_TARGET ==> spec_main_scene_cmd(m)
            == SceneCmd::Change(SceneId::EndingFalse),
        !m.is_clear_all_stage ==> spec_main_scene_cmd(m) == SceneCmd::Stay,
{
}

} // verus!
