//! The top of the engine: one game instance owning the input snapshot and
//! the scene handler, advanced one frame at a time by the host.

use vstd::prelude::*;
use crate::scenes::{main_draw_post, SceneData, SceneHandler};
use crate::utils::{update_btn, ButtonHandler, DrawCmd, Renderer};

verus! {

/// One game: the per-frame input bookkeeping and the active scene.
pub struct Game {
    pub buttons: ButtonHandler,
    pub scene: SceneHandler,
}

impl Game {
    pub open spec fn wf(self) -> bool {
        self.scene.wf()
    }

    /// A game at the title screen with no input history.
    pub fn new() -> (r: Self)
        ensures
            r.wf(),
            r.scene.now_scene matches SceneData::Title(t) && !t.is_start,
            forall|b: u8| b < 8 ==> r.buttons.spec_time(b) == 0,
    {
        Game { buttons: ButtonHandler::new(), scene: SceneHandler::new() }
    }

    /// The host's one-time initialisation hook.
    pub fn start(&mut self)
        requires
            old(self).wf(),
        ensures
            final(self).wf(),
            final(self).buttons == old(self).buttons,
    {
        self.scene.start();
    }

    /// Advances the game one frame from one sampled gamepad byte, and
    /// returns the frame's draw requests in order: the input snapshot folds
    /// in the byte, the scene handler advances (performing any requested
    /// scene change), and the new scene draws into a fresh request list.
    pub fn update(&mut self, gamepad: u8) -> (cmds: Vec<DrawCmd>)
        requires
            old(self).wf(),
        ensures
            final(self).wf(),
            final(self).buttons.spec_old_pad() == gamepad,
            final(self).buttons.spec_time(1) == crate::utils::spec_held(
                old(self).buttons.spec_time(1),
                gamepad & 0x02u8 != 0,
            ),
            final(self).buttons.spec_time(4) == crate::utils::spec_held(
                old(self).buttons.spec_time(4),
                gamepad & 0x10u8 != 0,
            ),
            final(self).buttons.spec_time(5) == crate::utils::spec_held(
                old(self).buttons.spec_time(5),
                gamepad & 0x20u8 != 0,
            ),
            exists|mid: SceneHandler|
                crate::scenes::handler_update_post(old(self).scene, mid, final(self).buttons)
                    && crate::scenes::handler_draw_post(
                    mid,
                    final(self).scene,
                    Seq::empty(),
                    cmds@,
                ),
    {
        update_btn(&mut self.buttons, gamepad);
        self.scene.update(&self.buttons);
        let mut renderer = Renderer::new();
        self.scene.draw(&mut renderer);
        renderer.cmds
    }
}

} // verus!
