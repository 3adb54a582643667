//! In-memory form of a texture atlas: named sprites, each with its pixel
//! rectangle, trim box and untrimmed source size.
//!
//! A sheet is an ordered list of `(name, sprite)` entries; when a name
//! occurs twice the later entry wins, as it does for a map built by
//! repeated insertion.

use vstd::prelude::*;

verus! {

/// A pixel rectangle in atlas space.
#[derive(Clone, Copy, Debug, PartialEq, Eq, Structural)]
pub struct Frame {
    pub x: i32,
    pub y: i32,
    pub w: i32,
    pub h: i32,
}

/// An untrimmed logical size.
#[derive(Clone, Copy, Debug, PartialEq, Eq, Structural)]
pub struct Size {
    pub w: i32,
    pub h: i32,
}

/// One named sub-region of the atlas texture.
#[derive(Clone, Copy, Debug, PartialEq, Eq, Structural)]
pub struct LiegeSprite {
    pub frame: Frame,
    pub rotated: bool,
    pub trimmed: bool,
    pub sprite_source_size: Frame,
    pub source_size: Size,
}

/// The whole atlas: frame name to sprite.
pub struct SpriteSheet {
    pub frames: Vec<(String, LiegeSprite)>,
}

/// The sprite stored under `name`, taking the latest entry when the
/// name occurs more than once.
pub open spec fn sheet_find(entries: Seq<(String, LiegeSprite)>, name: Seq<char>) -> Option<
    LiegeSprite,
>
    decreases entries.len(),
{
    if entries.len() == 0 {
        None
    } else if entries.last().0@ == name {
        Some(entries.last().1)
    } else {
        sheet_find(entries.drop_last(), name)
    }
}

impl SpriteSheet {
    /// An atlas with no frames.
    pub fn new() -> (r: SpriteSheet)
        ensures
            r.frames@.len() == 0,
    {
        SpriteSheet { frames: Vec::new() }
    }

    /// The display size of a sprite: its untrimmed source size scaled
    /// by per-axis milli-unit factors, as the renderer draws it.
    pub fn output_size(sprite: &LiegeSprite, scale_x: u32, scale_y: u32) -> (r: (i64, i64))
        requires
            0 <= sprite.source_size.w,
            0 <= sprite.source_size.h,
            scale_x <= 1_000_000,
            scale_y <= 1_000_000,
        ensures
            r.0 == (sprite.source_size.w as int) * (scale_x as int) / 1000,
            r.1 == (sprite.source_size.h as int) * (scale_y as int) / 1000,
    {
        proof {
            assert(0 <= (sprite.source_size.w as int) * (scale_x as int)
                <= 2_147_483_647_000_000 && 0 <= (sprite.source_size.h as int) * (
            scale_y as int) <= 2_147_483_647_000_000) by (nonlinear_arith)
                requires
                    0 <= sprite.source_size.w <= 2_147_483_647,
                    0 <= sprite.source_size.h <= 2_147_483_647,
                    0 <= scale_x <= 1_000_000,
                    0 <= scale_y <= 1_000_000,
            ;
        }
        let w = (sprite.source_size.w as i64) * (scale_x as i64) / 1000;
        let h = (sprite.source_size.h as i64) * (scale_y as i64) / 1000;
        (w, h)
    }

    /// Looks a frame name up in the sheet.
    pub fn get(&self, name: &String) -> (r: Option<LiegeSprite>)
        ensures
            r == sheet_find(self.frames@, name@),
    {
        let ghost all = self.frames@;
        proof {
            assert(all.take(all.len() as int) =~= all);
        }
        let mut i: usize = self.frames.len();
        while i > 0
            invariant
                i <= self.frames@.len(),
                self.frames@ == all,
                sheet_find(all, name@) == sheet_find(all.take(i as int), name@),
            decreases i,
        {
            let entry = &self.frames[i - 1];
            proof {
                assert(all.take(i as int).len() == i);
                assert(all.take(i as int).last() == all[i - 1]);
            }
            if entry.0.eq(name) {
                return Some(entry.1);
            }
            proof {
                assert(all.take(i as int).drop_last() =~= all.take(i - 1));
            }
            i = i - 1;
        }
        proof {
            assert(all.take(0).len() == 0);
        }
        None
    }
}

} // verus!
