use blood_dragon::dragon::{Dragon, State, MAX_HP};
use blood_dragon::scenes::{SceneCmd, SceneId, SceneMain};
use blood_dragon::stage::{InteractiveCmd, StageHandler, Tile, TileId};
use blood_dragon::utils::{ButtonHandler, Clock, Timeline, Vec2i};
use blood_dragon::utils::{is_just_pressed, is_pressed, update_btn, BTN_LEFT, BTN_Z};
use blood_dragon::game::Game;

fn tile(id: TileId, x: u8, y: u8) -> Tile {
    Tile { id, local_x: x, local_y: y }
}

fn pad(z: bool, left: bool, right: bool) -> u8 {
    (if z { 0x02 } else { 0 }) | (if left { 0x10 } else { 0 }) | (if right { 0x20 } else { 0 })
}

#[test]
fn clock_counts_down_and_resets() {
    let mut c = Clock::new(3);
    assert!(!c.is_time_out());
    c.tick();
    c.tick();
    assert!(!c.is_time_out());
    c.tick();
    assert!(c.is_time_out());
    c.tick();
    assert!(c.is_time_out());
    c.reset();
    assert!(!c.is_time_out());
}

#[test]
fn buttons_track_held_frames() {
    let mut b = ButtonHandler::new();
    update_btn(&mut b, pad(true, false, false));
    assert!(is_pressed(&b, BTN_Z));
    assert!(is_just_pressed(&b, BTN_Z));
    update_btn(&mut b, pad(true, false, false));
    assert!(is_pressed(&b, BTN_Z));
    assert!(!is_just_pressed(&b, BTN_Z));
    update_btn(&mut b, 0);
    assert!(!is_pressed(&b, BTN_Z));
    assert!(blood_dragon::utils::is_just_released(&b, BTN_Z));
}

#[test]
fn timeline_advances_and_wraps() {
    let imgs = vec![
        blood_dragon::assets::tile_image(TileId::Wall).unwrap(),
        blood_dragon::assets::tile_image(TileId::Key).unwrap(),
    ];
    let mut t = Timeline::new(imgs, vec![2, 2]);
    assert_eq!(t.now_idx, 0);
    t.play();
    assert_eq!((t.now_idx, t.frame_count), (0, 1));
    t.play();
    assert_eq!((t.now_idx, t.frame_count), (1, 0));
    t.play();
    t.play();
    assert_eq!((t.now_idx, t.frame_count), (0, 0));
    t.play();
    t.reset();
    assert_eq!((t.now_idx, t.frame_count), (0, 0));
}

// Falling onto a wall directly below with descending velocity 3 leaves the
// bottom edge flush on the tile's top, descent zeroed, grounded.
#[test]
fn fall_onto_wall_lands_flush() {
    let mut d = Dragon::new();
    d.pos = Vec2i::new(32, 114);
    d.vel.y = 3;
    d.on_ground = false;
    // bottom corners overlap the ground row at y = 8 (top edge 128)
    let bl = Some(tile(TileId::Wall, 2, 8));
    let br = Some(tile(TileId::Wall, 2, 8));
    d.check_collision_y(None, None, bl, br);
    assert_eq!(d.pos.y + 16, 128);
    assert_eq!(d.vel.y, 0);
    assert!(d.on_ground);
}

// Landing on a vertical bounce pad never grounds; an upward impulse is armed.
#[test]
fn spring_landing_bounces_instead_of_grounding() {
    let mut d = Dragon::new();
    d.pos = Vec2i::new(48, 114);
    d.vel.y = 3;
    d.on_ground = false;
    let bl = Some(tile(TileId::SpringVert, 3, 8));
    d.check_collision_y(None, None, bl, bl);
    assert_eq!(d.vel.y, 0);
    assert!(!d.on_ground);
    assert_eq!(d.force.y, -18);
}

// Moving left into a right-facing needle while not invincible: one health
// point lost, invincibility armed, flush clamp with zeroed velocity.
#[test]
fn needle_hit_from_left_motion() {
    let mut d = Dragon::new();
    d.pos = Vec2i::new(14, 112);
    d.vel.x = -2;
    let tl = Some(tile(TileId::NeedleRight, 0, 7));
    let bl = Some(tile(TileId::NeedleRight, 0, 7));
    d.check_collision_x(tl, None, bl, None);
    assert_eq!(d.hp, MAX_HP - 1);
    assert!(d.is_inv);
    assert_eq!(d.pos.x, 16);
    assert_eq!(d.vel.x, 0);
}

// No damage while invincible or dead.
#[test]
fn no_damage_while_invincible() {
    let mut d = Dragon::new();
    d.pos = Vec2i::new(14, 112);
    d.is_inv = true;
    let tl = Some(tile(TileId::NeedleRight, 0, 7));
    d.check_collision_x(tl, None, tl, None);
    assert_eq!(d.hp, MAX_HP);
}

// Invincibility auto-expires after its fixed duration of upkeep frames.
#[test]
fn invincibility_expires() {
    let mut d = Dragon::new();
    d.is_inv = true;
    for _ in 0..90 {
        d.update();
        assert!(d.is_inv);
    }
    d.update();
    assert!(!d.is_inv);
    assert_eq!(d.inv_frames, 0);
}

// Hover: holding jump while falling alternates descent 0,1,0,1 with the
// hover counter's parity; past the window, falling resumes while held.
#[test]
fn hover_alternates_by_parity_then_expires() {
    let mut input = ButtonHandler::new();
    update_btn(&mut input, pad(true, false, false));
    update_btn(&mut input, pad(true, false, false)); // held, not just-pressed
    let mut d = Dragon::new();
    d.on_ground = false;
    d.vel.y = 2;
    for k in 1..=60u8 {
        d.update_y(&input);
        let expect = if k % 2 == 1 { 0 } else { 1 };
        assert_eq!(d.vel.y, expect, "hover frame {}", k);
        assert_eq!(d.now_state, State::Fly);
        assert_eq!(d.fly_frames, k);
    }
    d.update_y(&input);
    assert_eq!(d.now_state, State::Fall);
    assert!(d.vel.y > 0);
}

// Death triggers once when health reaches zero: sticky flag, upward knock.
#[test]
fn death_triggers_once() {
    let mut d = Dragon::new();
    d.hp = 0;
    d.is_inv = true; // the hit that emptied health armed invincibility
    d.update();
    assert!(d.is_death);
    assert_eq!(d.now_state, State::Death);
    assert_eq!(d.force.y, -8);
}

// The unguided death fall ignores tiles entirely.
#[test]
fn death_fall_ignores_stage() {
    let mut scene = SceneMain::new();
    // run out the stage intro
    for _ in 0..90 {
        scene.update(&ButtonHandler::new());
    }
    scene.dragon.hp = 0;
    scene.dragon.is_inv = true;
    scene.update(&ButtonHandler::new());
    assert!(scene.dragon.is_death);
    let tiles_before: Vec<Tile> = scene.stage.tiles.clone();
    let y0 = scene.dragon.pos.y;
    for _ in 0..30 {
        scene.update(&ButtonHandler::new());
    }
    assert!(scene.dragon.pos.y > y0, "the dead character falls through the stage");
    assert_eq!(scene.stage.tiles, tiles_before);
    assert!(scene.is_fix_cam);
}

// After the death timer, the stage reloads and the character respawns at the
// stage start with full health.
#[test]
fn death_timer_respawns() {
    let mut scene = SceneMain::new();
    for _ in 0..90 {
        scene.update(&ButtonHandler::new());
    }
    scene.dragon.hp = 0;
    scene.dragon.is_inv = true;
    scene.update(&ButtonHandler::new());
    assert!(scene.dragon.is_death);
    for _ in 0..90 {
        scene.update(&ButtonHandler::new());
    }
    assert!(!scene.dragon.is_death);
    assert_eq!(scene.dragon.hp, MAX_HP);
    assert_eq!(scene.dragon.pos, scene.stage.get_start_pos());
    assert_eq!(scene.dragon.force, Vec2i::zero());
    assert!(scene.is_start_stage);
}

// Stage clear with a next stage: the character resets at the new stage's
// start with full health and zeroed force; the intro timer restarts.
#[test]
fn stage_clear_advances_and_resets() {
    let mut scene = SceneMain::new();
    for _ in 0..90 {
        scene.update(&ButtonHandler::new());
    }
    scene.is_clear_stage = true;
    scene.update(&ButtonHandler::new());
    assert_eq!(scene.stage.get_stage_idx(), 1);
    assert_eq!(scene.dragon.hp, MAX_HP);
    assert_eq!(scene.dragon.force, Vec2i::zero());
    assert_eq!(scene.dragon.pos, scene.stage.get_start_pos());
    assert!(scene.is_start_stage);
    assert!(!scene.is_clear_all_stage);
}

// Final stage cleared: the full total selects the true ending, any lesser
// total the false ending.
#[test]
fn ending_selected_by_fragment_total() {
    let mut scene = SceneMain::new();
    scene.is_clear_all_stage = true;
    scene.total_frag_count = 8;
    assert_eq!(scene.get_scene_cmd(), SceneCmd::Change(SceneId::EndingTrue));
    scene.total_frag_count = 7;
    assert_eq!(scene.get_scene_cmd(), SceneCmd::Change(SceneId::EndingFalse));
    scene.is_clear_all_stage = false;
    assert_eq!(scene.get_scene_cmd(), SceneCmd::Stay);
}

// Collecting a fragment empties its cell and counts it once, even when two
// corners report the same tile.
#[test]
fn fragment_collected_once() {
    let mut st = StageHandler::new();
    let cmd = Some(InteractiveCmd::GetFragment(2, 6));
    st.update([cmd, cmd, None, None]);
    assert_eq!(st.fragment_count, 1);
    st.update([cmd, None, None, None]);
    assert_eq!(st.fragment_count, 1);
}

// Collecting the key opens every gate.
#[test]
fn key_opens_gates() {
    let mut st = StageHandler::new();
    st.update([Some(InteractiveCmd::GetKey(5, 2)), None, None, None]);
    assert!(st.tiles.iter().any(|t| t.id == TileId::GoalOpened));
    assert!(!st.tiles.iter().any(|t| t.id == TileId::GoalClosed));
    assert!(!st.tiles.iter().any(|t| t.id == TileId::Key));
}

// The interactive mapping: key, fragment, opened gate; nothing else.
#[test]
fn interactive_commands() {
    let mut d = Dragon::new();
    let cmds = d.check_interactive(
        Some(tile(TileId::Key, 1, 2)),
        Some(tile(TileId::Fragment, 3, 4)),
        Some(tile(TileId::GoalOpened, 5, 6)),
        Some(tile(TileId::Wall, 7, 8)),
    );
    assert_eq!(cmds[0], Some(InteractiveCmd::GetKey(1, 2)));
    assert_eq!(cmds[1], Some(InteractiveCmd::GetFragment(3, 4)));
    assert_eq!(cmds[2], Some(InteractiveCmd::ClearStage));
    assert_eq!(cmds[3], None);
}

// Walking accelerates on every third consecutive frame of input.
#[test]
fn walk_speed_ramp() {
    let mut input = ButtonHandler::new();
    update_btn(&mut input, pad(false, true, false));
    let mut d = Dragon::new();
    d.pos = Vec2i::new(100, 100);
    d.update_x(&input);
    assert_eq!(d.vel.x, -1);
    d.update_x(&input);
    assert_eq!(d.vel.x, -1);
    d.update_x(&input);
    assert_eq!(d.vel.x, -2, "every third frame adds one unit");
    assert_eq!(d.now_state, State::Walk);
    assert!(d.xflip);
    assert!(is_pressed(&input, BTN_LEFT));
}

// A whole game boots at the title and reaches the main scene on confirm.
#[test]
fn game_starts_on_confirm() {
    let mut g = Game::new();
    g.start();
    let cmds = g.update(pad(true, false, false));
    assert!(!cmds.is_empty());
    // next frame draws the main scene's stage intro
    let cmds = g.update(0);
    assert!(cmds.len() > 2);
}

// A switch of behavioral state rewinds the previous state's animation.
#[test]
fn state_switch_resets_animation() {
    let mut d = Dragon::new();
    d.now_state = State::Walk;
    d.old_state = State::Walk;
    d.update();
    d.update();
    d.update();
    d.update();
    d.update();
    d.update();
    assert!(d.anim.walk.now_idx > 0);
    d.now_state = State::Idle;
    d.update();
    assert_eq!(d.anim.walk.now_idx, 0);
    assert_eq!(d.anim.walk.frame_count, 0);
}
