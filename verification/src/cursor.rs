//! The UI cursor's clips: a one-frame idle pointer and a play-once
//! click flourish.

use vstd::prelude::*;
use vstd::string::StringExecFns;

use crate::animation::{
    all_present, build_clip, spec_clip_frames, BuildError, LiegeAnimation, PlayMode,
};
use crate::atlas::{sheet_find, LiegeSprite, SpriteSheet};
use crate::geom::WorldVec;
use crate::playback::PlaybackClock;

verus! {

/// A UI animation: a clip plus where and from which texture it is
/// drawn, with its own playback state.
pub struct LiegeUIAnimation {
    pub animation: LiegeAnimation,
    pub texture_handle: &'static str,
    pub position: WorldVec,
    pub state: PlaybackClock,
}

/// The cursor's clip set.
pub struct UIAnimationMap {
    pub cursor_idle: LiegeUIAnimation,
    pub cursor_click: LiegeUIAnimation,
}

/// Whether the sheet holds every frame the cursor clips name.
pub open spec fn cursor_atlas_complete(sheet: Seq<(String, LiegeSprite)>) -> bool {
    &&& sheet_find(sheet, "cursor_default.png"@) is Some
    &&& all_present(sheet, "cursor_click_default"@, 4)
}

/// Builds the cursor clips from the cursor atlas: a one-frame looping
/// idle at 5 fps, and a play-once four-frame click at 12 fps.  Fails
/// exactly when a named frame is absent.
pub fn load_cursor_animations(sheet: &SpriteSheet) -> (r: Result<UIAnimationMap, BuildError>)
    ensures
        match r {
            Ok(m) => {
                &&& cursor_atlas_complete(sheet.frames@)
                &&& m.cursor_idle.animation.frames@ == seq![
                    sheet_find(sheet.frames@, "cursor_default.png"@)->Some_0,
                ]
                &&& m.cursor_idle.animation.fps == 5
                &&& m.cursor_idle.animation.mode == PlayMode::Loop
                &&& m.cursor_click.animation.frames@ == spec_clip_frames(
                    sheet.frames@,
                    "cursor_click_default"@,
                    4,
                )
                &&& m.cursor_click.animation.fps == 12
                &&& m.cursor_click.animation.mode == PlayMode::Once
                &&& m.cursor_idle.position == (WorldVec { x: 0, y: 0 })
                &&& m.cursor_click.position == (WorldVec { x: 0, y: 0 })
                &&& m.cursor_idle.state.elapsed_ms == 0
                &&& m.cursor_click.state.elapsed_ms == 0
                &&& m.cursor_idle.texture_handle@ == "resources/ui/cursor/cursor.png"@
                &&& m.cursor_click.texture_handle@ == "resources/ui/cursor/cursor.png"@
            },
            Err(e) => {
                &&& !cursor_atlas_complete(sheet.frames@)
                &&& match e {
                    BuildError::MissingFrame(name) => sheet_find(sheet.frames@, name@) is None,
                }
            },
        },
{
    let idle_name = String::from_str("cursor_default.png");
    let idle_frame = match sheet.get(&idle_name) {
        Some(sprite) => sprite,
        None => {
            return Err(BuildError::MissingFrame(idle_name));
        },
    };
    let click = match build_clip(sheet, "cursor_click_default", 4, 12, PlayMode::Once) {
        Ok(c) => c,
        Err(e) => return Err(e),
    };
    let mut idle_frames: Vec<LiegeSprite> = Vec::new();
    idle_frames.push(idle_frame);
    proof {
        assert(idle_frames@ =~= seq![sheet_find(sheet.frames@, "cursor_default.png"@)->Some_0]);
    }
    Ok(
        UIAnimationMap {
            cursor_idle: LiegeUIAnimation {
                animation: LiegeAnimation { frames: idle_frames, fps: 5, mode: PlayMode::Loop },
                texture_handle: "resources/ui/cursor/cursor.png",
                position: WorldVec::zero(),
                state: PlaybackClock::new(),
            },
            cursor_click: LiegeUIAnimation {
                animation: click,
                texture_handle: "resources/ui/cursor/cursor.png",
                position: WorldVec::zero(),
                state: PlaybackClock::new(),
            },
        },
    )
}

} // verus!
